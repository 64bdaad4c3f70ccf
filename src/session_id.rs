//! Session identifiers: 128-bit values with a textual UUID form.
use vstd::prelude::*;

verus! {

/// The 128-bit value that `uuid::Uuid::parse_str` reads from a text, if any.
pub uninterp spec fn uuid_parse(s: Seq<char>) -> Option<u128>;

/// The lengths of the texts that can denote an identifier: simple (32),
/// hyphenated (36), braced (38) and URN (45).
pub open spec fn identifier_length(s: Seq<char>) -> bool {
    s.len() == 32 || s.len() == 36 || s.len() == 38 || s.len() == 45
}

/// The lower-case hexadecimal digit of a value below 16.
pub open spec fn hex_digit(n: u128) -> char {
    seq!['0', '1', '2', '3', '4', '5', '6', '7', '8', '9', 'a', 'b', 'c', 'd', 'e', 'f'][n as int]
}

/// The `k`-th of the 32 hexadecimal digits of `v`, most significant first.
pub open spec fn nibble(v: u128, k: int) -> u128 {
    (v >> ((124 - 4 * k) as u128)) & 15
}

/// Which of the 32 digits stands at position `i` of the hyphenated text.
pub open spec fn digit_at(i: int) -> int {
    if i < 8 {
        i
    } else if i < 13 {
        i - 1
    } else if i < 18 {
        i - 2
    } else if i < 23 {
        i - 3
    } else {
        i - 4
    }
}

/// The hyphenated lower-case text of `v`: 36 characters, hyphens at 8, 13,
/// 18 and 23, and the 32 hexadecimal digits of `v` in between, most
/// significant first.
pub open spec fn uuid_text(v: u128) -> Seq<char> {
    Seq::new(
        36,
        |i: int|
            if i == 8 || i == 13 || i == 18 || i == 23 {
                '-'
            } else {
                hex_digit(nibble(v, digit_at(i)))
            },
    )
}

/// Relies on `uuid::Uuid::new_v4`: a random identifier, read as its 128-bit value.
#[verifier::external_body]
fn draw_uuid_value() -> (r: u128) {
    uuid::Uuid::new_v4().as_u128()
}

/// Relies on `uuid::Uuid::parse_str`: the value of a simple, hyphenated,
/// braced or URN text, and nothing for any other text. Each of those forms
/// is ASCII of 32, 36, 38 or 45 bytes, and a text of another byte length is
/// refused at once.
#[verifier::external_body]
fn parse_uuid_value(s: &str) -> (r: Option<u128>)
    ensures
        r == uuid_parse(s@),
        r is Some ==> identifier_length(s@),
{
    match uuid::Uuid::parse_str(s) {
        Ok(u) => Some(u.as_u128()),
        Err(_) => None,
    }
}

/// Relies on `uuid::Uuid::from_u128` and the `Display` of `uuid::Uuid`: the
/// hyphenated lower-case form, digits most significant first, which
/// `uuid::Uuid::parse_str` reads back.
#[verifier::external_body]
fn format_uuid_value(v: u128) -> (r: String)
    ensures
        r@ == uuid_text(v),
        uuid_parse(r@) == Some(v),
{
    uuid::Uuid::from_u128(v).to_string()
}

/// The token that identifies one session of the broker.
#[derive(Clone, Copy, Debug, PartialEq, Eq, Hash, Structural)]
pub struct SessionId(pub u128);

/// A text that is not the textual form of a session identifier.
#[derive(Clone, Copy, Debug, PartialEq, Eq, Structural)]
pub struct SessionIdParseError;

/// The session identifier that a text denotes, if it denotes one.
pub open spec fn parse_session_id(s: Seq<char>) -> Option<SessionId> {
    match uuid_parse(s) {
        Some(v) => Some(SessionId(v)),
        None => None,
    }
}

impl SessionId {
    /// A fresh random identifier.
    pub fn new() -> (r: SessionId) {
        SessionId(draw_uuid_value())
    }

    /// Reads a session identifier from its textual form.
    pub fn is_valid(key: &str) -> (r: Result<SessionId, SessionIdParseError>)
        ensures
            match parse_session_id(key@) {
                Some(id) => r == Ok::<SessionId, SessionIdParseError>(id),
                None => r == Err::<SessionId, SessionIdParseError>(SessionIdParseError),
            },
            !identifier_length(key@) ==> r == Err::<SessionId, SessionIdParseError>(
                SessionIdParseError,
            ),
    {
        match parse_uuid_value(key) {
            Some(v) => Ok(SessionId(v)),
            None => Err(SessionIdParseError),
        }
    }

    /// The textual form of the identifier, which `is_valid` reads back.
    pub fn to_string(&self) -> (r: String)
        ensures
            r@ == uuid_text(self.0),
            r@.len() == 36,
            parse_session_id(r@) == Some(*self),
    {
        format_uuid_value(self.0)
    }

    /// The identifier's 128-bit value.
    pub fn as_u128(&self) -> (r: u128)
        ensures
            r == self.0,
    {
        self.0
    }
}

} // verus!
