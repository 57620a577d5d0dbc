use vstd::prelude::*;

verus! {

/// A lower-case hexadecimal digit.
pub open spec fn hex_char(v: int) -> char {
    if v < 10 { (48 + v) as char } else { (87 + v) as char }
}

/// The last `count` hexadecimal digits of `n`, most significant first.
pub open spec fn hex_digits(n: nat, count: nat) -> Seq<char>
    decreases count,
{
    if count == 0 {
        seq![]
    } else {
        hex_digits(n / 16, (count - 1) as nat) + seq![hex_char((n % 16) as int)]
    }
}

/// The hyphenated lower-case text of a UUID: its 32 hexadecimal digits in groups of 8, 4,
/// 4, 4 and 12.
pub open spec fn uuid_text(id: u128) -> Seq<char> {
    let h = hex_digits(id as nat, 32);
    h.subrange(0, 8) + seq!['-'] + h.subrange(8, 12) + seq!['-'] + h.subrange(12, 16) + seq!['-'] + h.subrange(16, 20)
        + seq!['-'] + h.subrange(20, 32)
}

/// `uuid::Uuid::from_u128(id).to_string()`. Claims: the text is `uuid_text` of `id`, the
/// hyphenated lower-case form that `Display` writes (the 128-bit value read big-endian, as
/// `from_u128` documents).
#[verifier::external_body]
pub fn uuid_to_string(id: u128) -> (r: String)
    ensures
        r@ == uuid_text(id),
{
    uuid::Uuid::from_u128(id).to_string()
}

/// What `uuid::Uuid::parse_str` gives for a text: the UUID's 128-bit value, or the
/// `Display` text of its error.
pub uninterp spec fn uuid_parse_outcome(text: Seq<char>) -> Result<u128, Seq<char>>;

/// `uuid::Uuid::parse_str(text)`, the value as `as_u128` and the error as its `Display`
/// text. Claims: the result is the named outcome for `text`.
#[verifier::external_body]
pub fn parse_uuid(text: &str) -> (r: Result<u128, String>)
    ensures
        match uuid_parse_outcome(text@) {
            Ok(id) => r == Ok::<u128, String>(id),
            Err(m) => r matches Err(e) && e@ == m,
        },
{
    uuid::Uuid::parse_str(text).map(|u| u.as_u128()).map_err(|e| e.to_string())
}

} // verus!
