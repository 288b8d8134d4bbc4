//! Identifiers: Workbench workspace ids and preview session ids are UUIDs,
//! held as their 128-bit value. Generation, formatting and parsing are the
//! `uuid` crate's.

use vstd::arithmetic::power::pow;
use vstd::prelude::*;

verus! {

/// The lower-case hexadecimal digit for `n` (0 <= n < 16).
pub open spec fn hex_digit(n: int) -> char {
    if n < 10 {
        (48 + n) as char
    } else {
        (87 + n) as char
    }
}

/// The `i`-th hexadecimal digit of `v`, counted from the most significant one.
pub open spec fn uuid_nibble(v: u128, i: int) -> int {
    (v as int / pow(16, (31 - i) as nat)) % 16
}

/// The "simple" text of a UUID: its 32 lower-case hexadecimal digits.
pub open spec fn uuid_simple_text(v: u128) -> Seq<char> {
    Seq::new(32, |i: int| hex_digit(uuid_nibble(v, i)))
}

/// The hyphenated text of a UUID, digits grouped 8-4-4-4-12.
pub open spec fn uuid_hyphenated_text(v: u128) -> Seq<char> {
    let d = uuid_simple_text(v);
    d.subrange(0, 8) + seq!['-'] + d.subrange(8, 12) + seq!['-'] + d.subrange(12, 16) + seq!['-']
        + d.subrange(16, 20) + seq!['-'] + d.subrange(20, 32)
}

/// What `uuid::Uuid::parse_str` makes of a text: the UUID's value, or the
/// text of the error where the text is rejected.
pub uninterp spec fn uuid_parse_outcome(text: Seq<char>) -> Result<u128, Seq<char>>;

/// A version 7 (time-ordered) UUID of the RFC 4122 variant: its 13th
/// hexadecimal digit is 7, and its 17th is 8, 9, a or b.
pub open spec fn is_time_ordered_uuid(v: u128) -> bool {
    &&& uuid_nibble(v, 12) == 7
    &&& 8 <= uuid_nibble(v, 16) <= 11
}

/// `uuid::Uuid::now_v7()`, taken as its 128-bit value. The clock and
/// randomness decide the value; the crate always sets the version to 7 and
/// the variant to RFC 4122.
#[verifier::external_body]
pub(crate) fn uuid_now_v7() -> (r: u128)
    ensures
        is_time_ordered_uuid(r),
{
    uuid::Uuid::now_v7().as_u128()
}

/// `uuid::Uuid::hyphenated` followed by `to_string`: the crate writes the 16
/// bytes of the value, most significant first, as lower-case hexadecimal
/// digits grouped 8-4-4-4-12.
#[verifier::external_body]
pub(crate) fn uuid_hyphenated(v: u128) -> (r: String)
    ensures
        r@ == uuid_hyphenated_text(v),
{
    uuid::Uuid::from_u128(v).hyphenated().to_string()
}

/// `uuid::Uuid::simple` followed by `to_string`: the 32 lower-case
/// hexadecimal digits of the value, most significant first.
#[verifier::external_body]
pub(crate) fn uuid_simple(v: u128) -> (r: String)
    ensures
        r@ == uuid_simple_text(v),
{
    uuid::Uuid::from_u128(v).simple().to_string()
}

/// The value of a parsed UUID, or the text of the parse error.
pub type UuidParseResult = Result<u128, String>;

/// A parse result, with its error taken as text.
pub open spec fn parse_result_text(r: Result<u128, String>) -> Result<u128, Seq<char>> {
    match r {
        Ok(v) => Ok(v),
        Err(e) => Err(e@),
    }
}

/// `uuid::Uuid::parse_str`, with the error as its text. The result is named
/// by `uuid_parse_outcome`; the crate documents that every format it writes,
/// simple and hyphenated among them, parses back to the same UUID.
#[verifier::external_body]
pub(crate) fn uuid_parse(text: &str) -> (r: UuidParseResult)
    ensures
        parse_result_text(r) == uuid_parse_outcome(text@),
        forall|x: u128| #[trigger] uuid_simple_text(x) == text@ ==> r == UuidParseResult::Ok(x),
        forall|x: u128| #[trigger] uuid_hyphenated_text(x) == text@ ==> r == UuidParseResult::Ok(x),
{
    match uuid::Uuid::parse_str(text) {
        Ok(u) => Ok(u.as_u128()),
        Err(e) => Err(e.to_string()),
    }
}

/// The identifier of a Workbench workspace.
#[derive(Clone, Copy, Debug, PartialEq, Eq, Hash, Structural)]
pub struct WorkbenchWorkspaceId(pub u128);

impl WorkbenchWorkspaceId {
    /// A fresh time-ordered identifier.
    pub fn new() -> (id: Self)
        ensures
            is_time_ordered_uuid(id.0),
    {
        WorkbenchWorkspaceId(uuid_now_v7())
    }

    pub fn from_uuid(value: u128) -> (id: Self)
        ensures
            id.0 == value,
    {
        WorkbenchWorkspaceId(value)
    }

    pub fn as_uuid(&self) -> (value: u128)
        ensures
            value == self.0,
    {
        self.0
    }

    /// The hyphenated text of the identifier.
    pub fn to_text(&self) -> (text: String)
        ensures
            text@ == uuid_hyphenated_text(self.0),
    {
        uuid_hyphenated(self.0)
    }
}

/// The identifier of a preview session.
#[derive(Clone, Copy, Debug, PartialEq, Eq, Hash, Structural)]
pub struct PreviewSessionId(pub u128);

impl PreviewSessionId {
    /// A fresh time-ordered identifier.
    pub fn new() -> (id: Self)
        ensures
            is_time_ordered_uuid(id.0),
    {
        PreviewSessionId(uuid_now_v7())
    }

    pub fn from_uuid(value: u128) -> (id: Self)
        ensures
            id.0 == value,
    {
        PreviewSessionId(value)
    }

    pub fn as_uuid(&self) -> (value: u128)
        ensures
            value == self.0,
    {
        self.0
    }

    /// The hyphenated text of the identifier.
    pub fn to_text(&self) -> (text: String)
        ensures
            text@ == uuid_hyphenated_text(self.0),
    {
        uuid_hyphenated(self.0)
    }
}

/// A fresh time-ordered UUID for an event or a screenshot.
pub fn new_event_uuid() -> (v: u128)
    ensures
        is_time_ordered_uuid(v),
{
    uuid_now_v7()
}

/// The hyphenated text of a UUID value.
pub fn uuid_text(v: u128) -> (text: String)
    ensures
        text@ == uuid_hyphenated_text(v),
{
    uuid_hyphenated(v)
}

} // verus!
