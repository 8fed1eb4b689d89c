//! Session identifiers and their textual form.

use vstd::prelude::*;
use vstd::string::*;

verus! {

/// Unique identifier of a session (a UUID, held by its 128-bit value).
#[derive(Clone, Copy, Debug, PartialEq, Eq, Hash, Structural)]
pub struct SessionIdentifier(pub u128);

/// Lowercase hexadecimal digit for a value below sixteen.
pub open spec fn hex_char(d: nat) -> char {
    if d < 10 {
        (('0' as nat) + d) as char
    } else {
        (('a' as nat) + (d - 10)) as char
    }
}

/// The `count` least significant hexadecimal digits of `v`, most significant first.
pub open spec fn hex_digits(v: nat, count: nat) -> Seq<char>
    decreases count,
{
    if count == 0 {
        Seq::empty()
    } else {
        hex_digits(v / 16, (count - 1) as nat).push(hex_char(v % 16))
    }
}

/// Hyphenated lowercase form of a UUID, e.g. `67e55044-10b1-426f-9247-bb680e5fe0c8`:
/// the 32 hex digits of the value in groups of 8, 4, 4, 4 and 12.
pub open spec fn uuid_text(v: u128) -> Seq<char> {
    let h = hex_digits(v as nat, 32);
    h.subrange(0, 8) + seq!['-'] + h.subrange(8, 12) + seq!['-'] + h.subrange(12, 16) + seq!['-']
        + h.subrange(16, 20) + seq!['-'] + h.subrange(20, 32)
}

/// What `uuid::Uuid::parse_str` gives back for a text, as the 128-bit value (`None` when
/// it rejects the text).
pub uninterp spec fn uuid_parsed(text: Seq<char>) -> Option<u128>;

/// Calls `uuid::Uuid::from_u128(v).to_string()`. The crate's `Display` writes the
/// hyphenated lowercase form of the big-endian bytes of `v`; the contract states that form.
#[verifier::external_body]
fn uuid_to_text(v: u128) -> (s: String)
    ensures
        s@ == uuid_text(v),
{
    uuid::Uuid::from_u128(v).to_string()
}

/// Calls `uuid::Uuid::parse_str`, which accepts the simple, hyphenated, braced and URN
/// forms. The contract names the result and states one case of it: the hyphenated
/// lowercase text of a value (what `uuid_to_text` writes) parses back to that value.
#[verifier::external_body]
fn uuid_parse(text: &str) -> (r: Option<u128>)
    ensures
        r == uuid_parsed(text@),
        forall|v: u128| #[trigger] uuid_text(v) == text@ ==> r == Some(v),
{
    match uuid::Uuid::parse_str(text) {
        Ok(id) => Some(id.as_u128()),
        Err(_) => None,
    }
}

impl SessionIdentifier {
    /// Hyphenated lowercase text of the identifier.
    pub fn to_hyphenated_string(&self) -> (s: String)
        ensures
            s@ == uuid_text(self.0),
    {
        uuid_to_text(self.0)
    }

    /// Parses an identifier with `uuid::Uuid::parse_str`; the text written by
    /// `to_hyphenated_string` parses back to the identifier it was written from.
    pub fn parse(text: &str) -> (r: Option<SessionIdentifier>)
        ensures
            r == (match uuid_parsed(text@) {
                Some(v) => Some(SessionIdentifier(v)),
                None => None::<SessionIdentifier>,
            }),
            forall|v: u128| #[trigger] uuid_text(v) == text@ ==> r == Some(SessionIdentifier(v)),
    {
        match uuid_parse(text) {
            Some(v) => Some(SessionIdentifier(v)),
            None => None,
        }
    }
}

/// The hyphenated text always has 36 characters.
pub proof fn lemma_uuid_text_len(v: u128)
    ensures
        uuid_text(v).len() == 36,
{
    lemma_hex_digits_len(v as nat, 32);
}

/// `hex_digits` yields exactly `count` characters.
pub proof fn lemma_hex_digits_len(v: nat, count: nat)
    ensures
        hex_digits(v, count).len() == count,
    decreases count,
{
    if count > 0 {
        lemma_hex_digits_len(v / 16, (count - 1) as nat);
    }
}

} // verus!
