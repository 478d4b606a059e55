//! UUIDs of users, chargers, tokens and groupings, held as 128-bit numbers.

use vstd::prelude::*;

verus! {

/// Name for what `uuid::Uuid::parse_str(s)` gives for the string `s`: the
/// 128-bit value, or nothing when `s` is not a UUID.
pub uninterp spec fn uuid_parsed(s: Seq<char>) -> Option<u128>;

/// The lower-case hexadecimal digit for `d` (below 16).
pub open spec fn hex_digit(d: int) -> char {
    if d < 10 { (48 + d) as char } else { (87 + d) as char }
}

/// The last `n` hexadecimal digits of `v`, most significant first.
pub open spec fn hex_digits(v: nat, n: nat) -> Seq<char>
    decreases n,
{
    if n == 0 {
        Seq::empty()
    } else {
        hex_digits(v / 16, (n - 1) as nat).push(hex_digit((v % 16) as int))
    }
}

/// The hyphenated lower-case form of the UUID `v`: its 32 hexadecimal
/// digits in groups of 8, 4, 4, 4 and 12.
pub open spec fn uuid_text(v: u128) -> Seq<char> {
    let h = hex_digits(v as nat, 32);
    h.subrange(0, 8) + seq!['-'] + h.subrange(8, 12) + seq!['-'] + h.subrange(12, 16) + seq!['-']
        + h.subrange(16, 20) + seq!['-'] + h.subrange(20, 32)
}

/// Calls `uuid::Uuid::parse_str`. Trusted: the result is the named parse.
#[verifier::external_body]
pub(crate) fn parse_uuid(s: &str) -> (r: Option<u128>)
    ensures
        r == uuid_parsed(s@),
{
    uuid::Uuid::parse_str(s).ok().map(|id| id.as_u128())
}

/// Calls `to_string` on `uuid::Uuid::from_u128(v)`. Trusted: the result is
/// the hyphenated lower-case form of `v` (the crate's `Display` writes
/// `Hyphenated` with lower-case digits), and parsing that text gives `v`
/// back.
#[verifier::external_body]
pub(crate) fn uuid_to_string(v: u128) -> (s: String)
    ensures
        s@ == uuid_text(v),
        uuid_parsed(s@) == Some(v),
{
    uuid::Uuid::from_u128(v).to_string()
}

/// Calls `uuid::Uuid::new_v4()` and gives its 128-bit value. Trusted for
/// nothing: the id is random, and no clause speaks of it.
#[verifier::external_body]
pub(crate) fn new_uuid() -> (id: u128) {
    uuid::Uuid::new_v4().as_u128()
}

/// The id of the user a request was authenticated for, as the 128-bit
/// value of its UUID.
#[derive(Clone, Debug)]
pub struct Uuid(pub u128);

impl Uuid {
    /// Wraps an id.
    pub fn new(id: u128) -> (r: Self)
        ensures
            r.0 == id,
    {
        Self(id)
    }

    /// The wrapped id.
    pub fn into_inner(self) -> (id: u128)
        ensures
            id == self.0,
    {
        self.0
    }
}

} // verus!
