use vstd::prelude::*;

verus! {

/// The lowercase hexadecimal digit of `d < 16`.
pub open spec fn hex_char(d: nat) -> char {
    if d < 10 {
        (d + 48) as char
    } else {
        (d + 87) as char
    }
}

/// The last `n` hexadecimal digits of `v`, most significant first.
pub open spec fn hex_fixed(v: nat, n: nat) -> Seq<char>
    decreases n,
{
    if n == 0 {
        seq![]
    } else {
        hex_fixed(v / 16, (n - 1) as nat).push(hex_char(v % 16))
    }
}

/// The hyphenated lowercase text of a UUID, `xxxxxxxx-xxxx-xxxx-xxxx-xxxxxxxxxxxx`,
/// the 128-bit value written most significant digit first.
pub open spec fn uuid_text_of(u: u128) -> Seq<char> {
    let h = hex_fixed(u as nat, 32);
    h.subrange(0, 8) + seq!['-'] + h.subrange(8, 12) + seq!['-'] + h.subrange(12, 16) + seq!['-']
        + h.subrange(16, 20) + seq!['-'] + h.subrange(20, 32)
}

/// The value `uuid::Uuid::parse_str` reads from a text, or `None` when it
/// rejects the text.
pub uninterp spec fn uuid_parsed(s: Seq<char>) -> Option<u128>;

/// `uuid::Uuid::from_u128(u).to_string()`: the hyphenated lowercase text of
/// the UUID. Claimed: the text is `uuid_text_of(u)` (the crate writes the
/// 16 bytes big-endian as lowercase hex with hyphens after the 8th, 12th, 16th
/// and 20th digit), and `Uuid::parse_str` reads that text back as `u` (its
/// documentation: every format the crate writes is accepted by the parser).
#[verifier::external_body]
pub(crate) fn uuid_to_text(u: u128) -> (s: String)
    ensures
        s@ == uuid_text_of(u),
        uuid_parsed(s@) == Some(u),
{
    uuid::Uuid::from_u128(u).to_string()
}

/// `uuid::Uuid::parse_str(s)`, the result taken as its 128-bit value.
/// Claimed: the result is the one named `uuid_parsed(s@)`; which texts the
/// crate accepts (simple, hyphenated, braced, URN, either case) is left to it.
#[verifier::external_body]
pub(crate) fn parse_uuid(s: &str) -> (r: Option<u128>)
    ensures
        r == uuid_parsed(s@),
{
    match uuid::Uuid::parse_str(s) {
        Ok(u) => Some(u.as_u128()),
        Err(_) => None,
    }
}

/// `uuid::Uuid::new_v4()`, as its 128-bit value. The value is random:
/// nothing is promised of it. It does not return when the operating
/// system's random source fails (the crate panics then); that depends on
/// the machine, not on any argument.
#[verifier::external_body]
pub(crate) fn new_uuid() -> u128 {
    uuid::Uuid::new_v4().as_u128()
}

/// The hyphenated text of a UUID, as `Uuid::to_string` writes it.
pub fn uuid_text(u: u128) -> (s: String)
    ensures
        s@ == uuid_text_of(u),
        uuid_parsed(s@) == Some(u),
{
    uuid_to_text(u)
}

/// The key under which a class is looked up from its id text: the UUID the
/// text reads as, or `None` when it is no UUID (then no class is found).
pub fn class_lookup_key(class_id: &str) -> (r: Option<u128>)
    ensures
        r == uuid_parsed(class_id@),
{
    parse_uuid(class_id)
}

} // verus!
