//! What holds of texts: of numbers, of Snowflake IDs, of UUIDs, of errors.

use crate::decimal::{
    digits_value, i64_value, int_text, int_value, law_int_text_reads_back, law_nat_text_reads_back,
    nat_text, unsigned_part,
};
use crate::draw::can_be_drawn;
use crate::error::IdGenError;
use crate::layout::decoded;
use crate::snowflake_error::SnowflakeIdError;
use crate::uuid_gen::{hex_text, hyphenated, is_random_id, is_version};
use vstd::prelude::*;

verus! {

// ---- Numbers ----

/// Whether a character is one of the ten that stand at the code points 48 to 57: `0` to `9`.
pub open spec fn is_ten_digit(c: char) -> bool {
    48 <= c as int <= 57
}

/// A text that reads as a number is an optional sign and then one or more of the ten digits, and
/// nothing else.
pub proof fn law_number_is_sign_and_digits(text: Seq<char>)
    requires
        int_value(text) is Some,
    ensures
        text.len() > 0,
        text[0] == '+' || text[0] == '-' || is_ten_digit(text[0]),
        text[0] == '+' || text[0] == '-' ==> text.len() > 1,
        forall|i: int| 0 < i < text.len() ==> is_ten_digit(#[trigger] text[i]),
{
    let digits = unsigned_part(text);
    assert forall|i: int| 0 < i < text.len() implies is_ten_digit(#[trigger] text[i]) by {
        if text[0] == '+' || text[0] == '-' {
            assert(digits[i - 1] == text[i]);
        } else {
            assert(digits[i] == text[i]);
        }
    }
    assert(digits.len() > 0);
    if !(text[0] == '+' || text[0] == '-') {
        assert(digits[0] == text[0]);
    }
}

/// Every text that is an optional sign and one or more of the ten digits reads as a number.
pub proof fn law_sign_and_digits_are_a_number(text: Seq<char>)
    requires
        text.len() > 0,
        text[0] == '+' || text[0] == '-' || is_ten_digit(text[0]),
        text[0] == '+' || text[0] == '-' ==> text.len() > 1,
        forall|i: int| 0 < i < text.len() ==> is_ten_digit(#[trigger] text[i]),
    ensures
        int_value(text) is Some,
{
    let digits = unsigned_part(text);
    assert forall|i: int| 0 <= i < digits.len() implies crate::decimal::is_digit(
        #[trigger] digits[i],
    ) by {
        if text[0] == '+' || text[0] == '-' {
            assert(digits[i] == text[i + 1]);
        } else {
            assert(digits[i] == text[i]);
        }
    }
}

/// A single digit reads as the number of places that it stands after `0`; with a `+` before it, as
/// the same number; with a `-`, as its negative.
pub proof fn law_one_digit_reads(c: char)
    requires
        is_ten_digit(c),
    ensures
        int_value(seq![c]) == Some(c as int - 48),
        int_value(seq!['+', c]) == Some(c as int - 48),
        int_value(seq!['-', c]) == Some(48 - c as int),
{
    reveal_with_fuel(digits_value, 2);
    law_sign_and_digits_are_a_number(seq![c]);
    law_sign_and_digits_are_a_number(seq!['+', c]);
    law_sign_and_digits_are_a_number(seq!['-', c]);
    assert(seq!['+', c].skip(1) == seq![c]);
    assert(seq!['-', c].skip(1) == seq![c]);
    assert(seq![c].drop_last() == Seq::<char>::empty());
    assert(seq![c].last() == c);
}

/// One more digit at the end makes a number ten times as large and moves it on by the digit, away
/// from zero.
pub proof fn law_longer_number_reads(text: Seq<char>, value: int, c: char)
    requires
        int_value(text) == Some(value),
        is_ten_digit(c),
    ensures
        int_value(text.push(c)) == Some(
            if text[0] == '-' {
                10 * value - (c as int - 48)
            } else {
                10 * value + (c as int - 48)
            },
        ),
{
    law_number_is_sign_and_digits(text);
    let longer = text.push(c);
    assert forall|i: int| 0 < i < longer.len() implies is_ten_digit(#[trigger] longer[i]) by {
        if i < text.len() {
            assert(longer[i] == text[i]);
        }
    }
    law_sign_and_digits_are_a_number(longer);
    assert(unsigned_part(longer).drop_last() == unsigned_part(text));
    assert(unsigned_part(longer).last() == c);
}

/// A number reads as an `i64` wherever it lies in the range of `i64`, and nothing else does.
pub proof fn law_i64_is_read_in_its_range(text: Seq<char>)
    ensures
        int_value(text) is None ==> i64_value(text) is None,
        int_value(text) matches Some(v) ==> (if -9_223_372_036_854_775_808 <= v
            <= 9_223_372_036_854_775_807 {
            i64_value(text) is Some && i64_value(text)->0 == v
        } else {
            i64_value(text) is None
        }),
{
}

/// A number is written with its digits alone, after a `-` where it is negative: no `+`, and no `0`
/// in front of another digit.
pub proof fn law_written_number_is_canonical(n: i64)
    ensures
        ({
            let text = int_text(n as int);
            &&& text.len() > 0
            &&& (text[0] == '-') == (n < 0)
            &&& text[0] != '+'
            &&& n == 0 ==> text == seq!['0']
            &&& n > 0 ==> text[0] != '0'
            &&& n < 0 ==> text.len() > 1 && text[1] != '0'
            &&& int_value(text) == Some(n as int)
        }),
{
    law_int_text_reads_back(n);
    let magnitude = if n < 0 {
        (-n) as nat
    } else {
        n as nat
    };
    lemma_no_leading_zero(magnitude);
    law_nat_text_reads_back(magnitude);
    let text = int_text(n as int);
    if n < 0 {
        assert(text[1] == nat_text(magnitude)[0]);
    }
    law_number_is_sign_and_digits(text);
    assert(crate::decimal::is_digit(nat_text(magnitude)[0]));
}

proof fn lemma_no_leading_zero(n: nat)
    ensures
        nat_text(n).len() > 0,
        n > 0 ==> nat_text(n)[0] != '0',
        n == 0 ==> nat_text(n) == seq!['0'],
    decreases n,
{
    if n >= 10 {
        lemma_no_leading_zero(n / 10);
        assert(nat_text(n)[0] == nat_text(n / 10)[0]);
    }
}

// ---- Snowflake IDs ----

/// A text that validates is an optional `+` and one or more of the ten digits. Every text with
/// another character in it is refused as an invalid format.
pub proof fn law_validated_text_is_digits(text: Seq<char>)
    ensures
        decoded(text) is Ok ==> text.len() > 0 && (text[0] == '+' || is_ten_digit(text[0])),
        decoded(text) is Ok ==> forall|i: int|
            0 < i < text.len() ==> is_ten_digit(#[trigger] text[i]),
        forall|i: int|
            0 <= i < text.len() && !is_ten_digit(#[trigger] text[i]) && !(i == 0 && (text[0] == '+'
                || text[0] == '-')) ==> decoded(text) == Err::<(int, int, int), Seq<char>>(
                "invalid Snowflake ID format"@,
            ),
        text.len() == 0 ==> decoded(text) == Err::<(int, int, int), Seq<char>>(
            "invalid Snowflake ID format"@,
        ),
{
    if int_value(text) is Some {
        law_number_is_sign_and_digits(text);
        if text[0] == '-' {
            lemma_minus_is_not_positive(text);
        }
    }
}

proof fn lemma_minus_is_not_positive(text: Seq<char>)
    requires
        int_value(text) is Some,
        text[0] == '-',
    ensures
        int_value(text)->0 <= 0,
{
}

/// What a text validates to: nothing that is no `i64`, nothing that is not positive, and of every
/// other number the three parts that add up to it, each within its bits.
pub proof fn law_validation_takes_the_number_apart(text: Seq<char>)
    ensures
        match int_value(text) {
            Some(v) => if v > 9_223_372_036_854_775_807 || v < -9_223_372_036_854_775_808 {
                decoded(text) == Err::<(int, int, int), Seq<char>>("invalid Snowflake ID format"@)
            } else if v <= 0 {
                decoded(text) == Err::<(int, int, int), Seq<char>>("Snowflake ID must be positive"@)
            } else {
                decoded(text) matches Ok(parts) && 0 <= parts.0 <= 1023 && 0 <= parts.1
                    <= 2_199_023_255_551 && 0 <= parts.2 <= 4095 && v == parts.1 * 4_194_304
                    + parts.0 * 4096 + parts.2
            },
            None => decoded(text) == Err::<(int, int, int), Seq<char>>(
                "invalid Snowflake ID format"@,
            ),
        },
{
    if int_value(text) is Some && 0 < int_value(text)->0 <= 9_223_372_036_854_775_807 {
        let id = int_value(text)->0;
        let above = id / 4096;
        vstd::arithmetic::div_mod::lemma_fundamental_div_mod(id, 4096);
        vstd::arithmetic::div_mod::lemma_fundamental_div_mod(above, 1024);
        vstd::arithmetic::div_mod::lemma_div_denominator(id, 4096, 1024);
    }
}

// ---- Errors ----

/// What an error says: the failure in words, with its numbers in decimal.
pub proof fn law_errors_say_what_went_wrong(
    a: u64,
    b: u64,
    node_id: u16,
    max_node_id: u16,
    text: String,
    message: String,
)
    ensures
        (SnowflakeIdError::LeaseUnavailable).shown() == "snowflake node lease is unavailable"@,
        (SnowflakeIdError::InvalidNodeId { node_id, max_node_id }).shown() == "invalid node_id="@
            + int_text(node_id as int) + ", max="@ + int_text(max_node_id as int),
        (SnowflakeIdError::ClockBeforeEpoch { now_millis: a, epoch_millis: b }).shown()
            == "clock before epoch: now="@ + int_text(a as int) + ", epoch="@ + int_text(b as int),
        (SnowflakeIdError::ClockMovedBackwards { last_millis: a, now_millis: b }).shown()
            == "clock moved backwards: last="@ + int_text(a as int) + ", now="@ + int_text(
            b as int,
        ),
        (SnowflakeIdError::TimestampOverflow { delta_millis: a, max_delta_millis: b }).shown()
            == "timestamp overflow: delta="@ + int_text(a as int) + ", max="@ + int_text(b as int),
        (SnowflakeIdError::SequenceExhausted { millis: a }).shown()
            == "sequence exhausted at millis="@ + int_text(a as int),
        (SnowflakeIdError::SystemTime(text)).shown() == "system time error: "@ + text@,
        (SnowflakeIdError::StatePoisoned).shown() == "generator state poisoned"@,
        (IdGenError { message }).shown() == "ID generation failed: "@ + message@,
{
}

// ---- UUIDs ----

/// The number that a lower-case hexadecimal character stands for, or none.
pub open spec fn hex_digit(c: char) -> Option<int> {
    if 48 <= c as int <= 57 {
        Some(c as int - 48)
    } else if 97 <= c as int <= 102 {
        Some(c as int - 87)
    } else {
        None
    }
}

/// Where the first of the two characters of a byte stands in the text of a UUID.
pub open spec fn place_of_byte(i: int) -> int {
    if i < 4 {
        2 * i
    } else if i < 6 {
        2 * i + 1
    } else if i < 8 {
        2 * i + 2
    } else if i < 10 {
        2 * i + 3
    } else {
        2 * i + 4
    }
}

/// The text of a UUID is 36 characters long, with hyphens after 8, 12, 16 and 20 hexadecimal
/// characters, two for each byte: its upper half, then its lower half.
pub proof fn law_uuid_text_form(bytes: Seq<u8>, i: int)
    requires
        bytes.len() == 16,
        0 <= i < 16,
    ensures
        hyphenated(bytes).len() == 36,
        hyphenated(bytes)[8] == '-',
        hyphenated(bytes)[13] == '-',
        hyphenated(bytes)[18] == '-',
        hyphenated(bytes)[23] == '-',
        hex_digit(hyphenated(bytes)[place_of_byte(i)]) == Some(bytes[i] as int / 16),
        hex_digit(hyphenated(bytes)[place_of_byte(i) + 1]) == Some(bytes[i] as int % 16),
{
    let text = hyphenated(bytes);
    let (from, to) = if i < 4 {
        (0int, 4int)
    } else if i < 6 {
        (4int, 6int)
    } else if i < 8 {
        (6int, 8int)
    } else if i < 10 {
        (8int, 10int)
    } else {
        (10int, 16int)
    };
    let group = bytes.subrange(from, to);
    let k = i - from;
    assert(text[place_of_byte(i)] == hex_text(group)[2 * k]);
    assert(text[place_of_byte(i) + 1] == hex_text(group)[2 * k + 1]);
    assert(group[k] == bytes[i]);
    assert((2 * k) / 2 == k && (2 * k + 1) / 2 == k);
}

/// A random ID is its prefix, then the text of a UUID that says of itself that it is random: `4` at
/// the head of the third group, and `8`, `9`, `a` or `b` at the head of the fourth.
pub proof fn law_random_id_form(prefix: Seq<char>, text: Seq<char>)
    requires
        is_random_id(prefix, text),
    ensures
        text.len() == prefix.len() + 36,
        text.take(prefix.len() as int) == prefix,
        ({
            let id = text.skip(prefix.len() as int);
            &&& id[8] == '-' && id[13] == '-' && id[18] == '-' && id[23] == '-'
            &&& id[14] == '4'
            &&& id[19] == '8' || id[19] == '9' || id[19] == 'a' || id[19] == 'b'
        }),
{
    let bytes = choose|bytes: Seq<u8>|
        is_version(bytes, 4) && can_be_drawn(bytes) && text == prefix + #[trigger] hyphenated(
            bytes,
        );
    law_uuid_text_form(bytes, 6);
    law_uuid_text_form(bytes, 8);
    assert(text.skip(prefix.len() as int) == hyphenated(bytes));
    assert(text.take(prefix.len() as int) == prefix);
}

} // verus!
