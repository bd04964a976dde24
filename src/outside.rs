//! Calls into outside crates, each with the contract the crate's source shows.
use vstd::prelude::*;

verus! {

/// The lower-case hex SHA-256 digest of a text's UTF-8 bytes.
pub uninterp spec fn sha256_hex(s: Seq<char>) -> Seq<char>;

/// A lower-case hexadecimal digit.
pub open spec fn is_hex_lower(c: char) -> bool {
    ('0' <= c && c <= '9') || ('a' <= c && c <= 'f')
}

/// The positions of the four separators in a hyphenated identifier.
pub open spec fn is_uuid_separator_pos(k: int) -> bool {
    k == 8 || k == 13 || k == 18 || k == 23
}

/// A 128-bit identifier written as 32 lower-case hex digits in groups of
/// 8-4-4-4-12 separated by `-`.
pub open spec fn is_hyphenated_uuid(s: Seq<char>) -> bool {
    &&& s.len() == 36
    &&& forall|k: int|
        0 <= k < 36 ==> if is_uuid_separator_pos(k) {
            #[trigger] s[k] == '-'
        } else {
            is_hex_lower(s[k])
        }
}

/// Relies on `sha256::digest` applied to a `&str`: it hex-encodes the 32-byte
/// SHA-256 digest of the text, so the result has 64 characters and depends on
/// the text alone.
#[verifier::external_body]
pub(crate) fn digest_text(s: &str) -> (r: String)
    ensures
        r@ == sha256_hex(s@),
        r@.len() == 64,
{
    sha256::digest(s)
}

/// Relies on `uuid::Uuid::new_v4` and the `Display` of `uuid::Uuid`: a random
/// version-4 identifier, written in the lower-case hyphenated form.
#[verifier::external_body]
pub(crate) fn new_uuid_text() -> (r: String)
    ensures
        is_hyphenated_uuid(r@),
{
    uuid::Uuid::new_v4().to_string()
}

} // verus!
