use sdkwork_id_core::decimal::{i64_to_string, parse_i64, push_u64};
use sdkwork_id_core::generator::add_to_batch;
use sdkwork_id_core::{validate_snowflake_id, IdGenError};

#[test]
fn integers_are_written_in_decimal() {
    for n in [0, 7, 10, -1, -10, 1_704_067_200_000, i64::MAX, i64::MIN] {
        assert_eq!(i64_to_string(n), format!("{}", n));
    }
    let mut out = "n=".to_string();
    push_u64(&mut out, u64::MAX);
    assert_eq!(out, "n=18446744073709551615");
}

#[test]
fn integers_read_back() {
    for n in [0, 1, -1, 4095, -4096, i64::MAX, i64::MIN, i64::MIN + 1] {
        assert_eq!(parse_i64(&i64_to_string(n)), Some(n));
    }
}

#[test]
fn reading_agrees_with_the_standard_library() {
    let texts = [
        "", "+", "-", "0", "-0", "+0", "007", "+42", "-42", "4 2", " 42", "42 ", "4_2", "12a",
        "--1", "+-1", "1-", "9223372036854775807", "9223372036854775808",
        "-9223372036854775808", "-9223372036854775809", "00000000000000000000000000012",
        "99999999999999999999999999999999999999999999999", "\u{661}\u{662}", "1\u{e9}",
        "\u{ff11}", "+9223372036854775807",
    ];
    for text in texts {
        assert_eq!(parse_i64(text), text.parse::<i64>().ok());
    }
}

#[test]
fn ids_that_are_no_ids_are_refused() {
    for text in ["", "abc", "12x", "9223372036854775808", "-9223372036854775809"] {
        assert_eq!(
            validate_snowflake_id(text).unwrap_err().message,
            "invalid Snowflake ID format"
        );
    }
    for text in ["0", "-1", "-0", "-9223372036854775808"] {
        assert_eq!(
            validate_snowflake_id(text).unwrap_err().message,
            "Snowflake ID must be positive"
        );
    }
    assert_eq!(validate_snowflake_id("+1"), Ok((0, 0, 1)));
    assert_eq!(
        validate_snowflake_id("9223372036854775807"),
        Ok((1023, 2_199_023_255_551, 4095))
    );
}

#[test]
fn generation_errors_are_shown_with_an_introduction() {
    let error = IdGenError::from("no clock");
    assert_eq!(error.message, "no clock");
    assert_eq!(error.to_string(), "ID generation failed: no clock");
    assert_eq!(IdGenError::from("no clock".to_string()), error);
}

#[test]
fn a_batch_takes_ids_and_passes_errors_on() {
    let mut ids = vec!["a".to_string()];
    assert_eq!(add_to_batch(&mut ids, Ok("b".to_string())), Ok(()));
    assert_eq!(ids, ["a", "b"]);
    let error = IdGenError::from("no more".to_string());
    assert_eq!(add_to_batch(&mut ids, Err(error.clone())), Err(error));
    assert_eq!(ids, ["a", "b"]);
}
