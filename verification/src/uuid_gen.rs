//! UUIDs as opaque identifiers: random ones, and ones that a namespace and a name determine.
//!
//! The library holds a UUID as its sixteen bytes; the `uuid` crate makes, reads and writes them.

use crate::draw::can_be_drawn;
use crate::error::IdGenError;
use crate::generator::IdGenerator;
use uuid::Uuid;
use vstd::prelude::*;
use vstd::string::*;

verus! {

/// The error of the `uuid` crate, `uuid::Error`: carried, never looked into.
#[verifier::external_type_specification]
#[verifier::external_body]
pub struct ExUuidError(uuid::Error);

/// The lower-case character of a hexadecimal digit.
pub open spec fn hex_char(digit: int) -> char {
    if digit < 10 {
        ('0' as int + digit) as char
    } else {
        ('a' as int + (digit - 10)) as char
    }
}

/// Bytes in hexadecimal, two lower-case characters each.
pub open spec fn hex_text(bytes: Seq<u8>) -> Seq<char> {
    Seq::new(
        2 * bytes.len(),
        |i: int|
            hex_char(
                if i % 2 == 0 {
                    bytes[i / 2] as int / 16
                } else {
                    bytes[i / 2] as int % 16
                },
            ),
    )
}

/// The hyphenated text of a UUID: groups of 8, 4, 4, 4 and 12 hexadecimal characters.
pub open spec fn hyphenated(bytes: Seq<u8>) -> Seq<char> {
    hex_text(bytes.subrange(0, 4)) + seq!['-'] + hex_text(bytes.subrange(4, 6)) + seq!['-']
        + hex_text(bytes.subrange(6, 8)) + seq!['-'] + hex_text(bytes.subrange(8, 10)) + seq!['-']
        + hex_text(bytes.subrange(10, 16))
}

/// Whether sixteen bytes are a UUID of a version, in the standard variant.
pub open spec fn is_version(bytes: Seq<u8>, version: int) -> bool {
    bytes.len() == 16 && bytes[6] as int / 16 == version && bytes[8] as int / 64 == 2
}

/// `Uuid::new_v4`: random bytes, of which only version and variant are known. It panics where the
/// operating system has no random bytes to give.
#[verifier::external_body]
fn random_uuid() -> (r: [u8; 16])
    ensures
        is_version(r@, 4),
        can_be_drawn(r@),
{
    Uuid::new_v4().into_bytes()
}

/// The version 5 UUID of a namespace and a name.
pub uninterp spec fn v5_bytes(namespace: Seq<u8>, name: Seq<u8>) -> Seq<u8>;

/// `Uuid::new_v5`: depends on the namespace and the name alone, and marks version and variant.
#[verifier::external_body]
fn named_uuid(namespace: &[u8; 16], name: &[u8]) -> (r: [u8; 16])
    ensures
        r@ == v5_bytes(namespace@, name@),
        is_version(r@, 5),
{
    Uuid::new_v5(&Uuid::from_bytes(*namespace), name).into_bytes()
}

/// What the text of a UUID parses to.
pub uninterp spec fn parsed_uuid(text: Seq<char>) -> Result<Seq<u8>, uuid::Error>;

/// `Uuid::parse_str`: depends on the text alone; reads the hyphenated text of any UUID; refuses
/// every text that is not 32, 36, 38 or 45 bytes long.
#[verifier::external_body]
fn parse_uuid(text: &str) -> (r: Result<[u8; 16], uuid::Error>)
    ensures
        match r {
            Ok(bytes) => parsed_uuid(text@) == Ok::<Seq<u8>, uuid::Error>(bytes@),
            Err(e) => parsed_uuid(text@) == Err::<Seq<u8>, uuid::Error>(e),
        },
        forall|bytes: Seq<u8>|
            bytes.len() == 16 && text@ == #[trigger] hyphenated(bytes) ==> r is Ok && r->Ok_0@
                == bytes,
        r is Ok ==> text.spec_bytes().len() == 32 || text.spec_bytes().len() == 36
            || text.spec_bytes().len() == 38 || text.spec_bytes().len() == 45,
{
    match Uuid::parse_str(text) {
        Ok(uuid) => Ok(uuid.into_bytes()),
        Err(e) => Err(e),
    }
}

/// Writes a UUID as hyphenated text, by `Uuid::as_hyphenated`: lower-case hexadecimal in groups of
/// 8, 4, 4, 4 and 12 characters.
#[verifier::external_body]
fn uuid_to_string(bytes: &[u8; 16]) -> (r: String)
    ensures
        r@ == hyphenated(bytes@),
{
    Uuid::from_bytes(*bytes).as_hyphenated().to_string()
}

/// Writes a UUID as hyphenated text after a prefix.
pub fn prefixed_uuid(prefix: &str, bytes: &[u8; 16]) -> (r: String)
    ensures
        r@ == prefix@ + hyphenated(bytes@),
{
    let mut out = prefix.to_owned();
    out.append(uuid_to_string(bytes).as_str());
    out
}

/// Whether `text` is a prefix and the text of a random UUID that was drawn.
pub open spec fn is_random_id(prefix: Seq<char>, text: Seq<char>) -> bool {
    exists|bytes: Seq<u8>|
        is_version(bytes, 4) && can_be_drawn(bytes) && text == prefix + #[trigger] hyphenated(bytes)
}

/// UUID v4 random ID generator.
pub struct UuidIdGenerator {
    prefix: String,
}

impl Clone for UuidIdGenerator {
    fn clone(&self) -> (r: Self)
        ensures
            r == *self,
    {
        UuidIdGenerator { prefix: self.prefix.clone() }
    }
}

impl UuidIdGenerator {
    /// What every ID of the generator begins with.
    pub closed spec fn prefix_text(&self) -> Seq<char> {
        self.prefix@
    }

    /// Create a generator with an optional prefix (e.g. "user_").
    pub fn new(prefix: &str) -> (r: Self)
        ensures
            r.prefix_text() == prefix@,
    {
        Self { prefix: prefix.to_owned() }
    }
}

impl IdGenerator for UuidIdGenerator {
    open spec fn can_issue(&self, outcome: Result<Seq<char>, Seq<char>>) -> bool {
        outcome is Ok && is_random_id(self.prefix_text(), outcome->Ok_0)
    }

    open spec fn label_text(&self) -> Seq<char> {
        "uuid-v4"@
    }

    fn next_id(&self) -> (r: Result<String, IdGenError>) {
        Ok(uuid_v4_with_prefix(self.prefix.as_str()))
    }

    fn label(&self) -> (r: &str) {
        "uuid-v4"
    }
}

/// UUID v5 namespace-based ID generator (deterministic).
pub struct UuidV5Generator {
    namespace: [u8; 16],
    prefix: String,
}

impl UuidV5Generator {
    /// The bytes of the namespace.
    pub closed spec fn namespace_bytes(&self) -> Seq<u8> {
        self.namespace@
    }

    /// What every ID of the generator begins with.
    pub closed spec fn prefix_text(&self) -> Seq<char> {
        self.prefix@
    }

    /// Create a generator from the bytes of its namespace.
    pub fn new(namespace: [u8; 16], prefix: &str) -> (r: Self)
        ensures
            r.namespace_bytes() == namespace@,
            r.prefix_text() == prefix@,
    {
        Self { namespace, prefix: prefix.to_owned() }
    }

    /// Create a generator from the text of its namespace.
    pub fn from_namespace_str(namespace: &str, prefix: &str) -> (r: Result<Self, uuid::Error>)
        ensures
            match r {
                Ok(g) => parsed_uuid(namespace@) == Ok::<Seq<u8>, uuid::Error>(g.namespace_bytes())
                    && g.prefix_text() == prefix@,
                Err(e) => parsed_uuid(namespace@) == Err::<Seq<u8>, uuid::Error>(e),
            },
            forall|bytes: Seq<u8>|
                bytes.len() == 16 && namespace@ == #[trigger] hyphenated(bytes) ==> r is Ok
                    && r->Ok_0.namespace_bytes() == bytes,
            r is Ok ==> namespace.spec_bytes().len() == 32 || namespace.spec_bytes().len() == 36
                || namespace.spec_bytes().len() == 38 || namespace.spec_bytes().len() == 45,
    {
        match parse_uuid(namespace) {
            Ok(bytes) => Ok(Self::new(bytes, prefix)),
            Err(e) => Err(e),
        }
    }

    /// The ID of a name: the same for the same name.
    pub fn generate_for(&self, name: &str) -> (r: Result<String, uuid::Error>)
        ensures
            r is Ok,
            r->Ok_0@ == self.prefix_text() + hyphenated(
                v5_bytes(self.namespace_bytes(), name.spec_bytes()),
            ),
            is_version(v5_bytes(self.namespace_bytes(), name.spec_bytes()), 5),
    {
        let bytes = named_uuid(&self.namespace, name.as_bytes());
        Ok(prefixed_uuid(self.prefix.as_str(), &bytes))
    }
}

impl IdGenerator for UuidV5Generator {
    open spec fn can_issue(&self, outcome: Result<Seq<char>, Seq<char>>) -> bool {
        outcome is Ok && is_random_id(self.prefix_text(), outcome->Ok_0)
    }

    open spec fn label_text(&self) -> Seq<char> {
        "uuid-v5"@
    }

    // With no name to go by, the ID is a random one.
    fn next_id(&self) -> (r: Result<String, IdGenError>) {
        Ok(uuid_v4_with_prefix(self.prefix.as_str()))
    }

    fn label(&self) -> (r: &str) {
        "uuid-v5"
    }
}

/// Convenience: generate a UUID v4 string.
pub fn uuid_v4() -> (r: String)
    ensures
        is_random_id(Seq::empty(), r@),
{
    let bytes = random_uuid();
    let text = uuid_to_string(&bytes);
    assert(text@ == Seq::<char>::empty() + hyphenated(bytes@));
    text
}

/// Convenience: generate a UUID v4 string with prefix.
pub fn uuid_v4_with_prefix(prefix: &str) -> (r: String)
    ensures
        is_random_id(prefix@, r@),
{
    let id = uuid_v4();
    let mut out = prefix.to_owned();
    out.append(id.as_str());
    proof {
        let bytes = choose|bytes: Seq<u8>|
            is_version(bytes, 4) && can_be_drawn(bytes) && id@ == Seq::<char>::empty()
                + #[trigger] hyphenated(bytes);
        assert(out@ == prefix@ + hyphenated(bytes));
    }
    out
}

} // verus!
