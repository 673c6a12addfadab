use vstd::prelude::*;

verus! {

/// Whether `c` is a lowercase hexadecimal digit.
pub open spec fn is_lower_hex_digit(c: char) -> bool {
    ('0' <= c && c <= '9') || ('a' <= c && c <= 'f')
}

/// Whether `s` is a random (version 4) UUID in its simple text form:
/// 32 lowercase hexadecimal digits, with version digit `4` and a variant
/// digit among `8`, `9`, `a`, `b`.
pub open spec fn is_random_uuid_text(s: Seq<char>) -> bool {
    &&& s.len() == 32
    &&& forall|i: int| 0 <= i < 32 ==> #[trigger] is_lower_hex_digit(s[i])
    &&& s[12] == '4'
    &&& (s[16] == '8' || s[16] == '9' || s[16] == 'a' || s[16] == 'b')
}

/// A fresh random UUID, written as 32 lowercase hexadecimal digits.
///
/// Calls `uuid::Uuid::new_v4` and formats it with `simple()`: the value is
/// random, so all that is claimed is its form, which the `uuid` crate fixes
/// (version and variant bits set, digits in lowercase).
#[verifier::external_body]
fn random_uuid_text() -> (s: String)
    ensures
        is_random_uuid_text(s@),
{
    uuid::Uuid::new_v4().simple().to_string()
}

/// A random token for an email verification or password reset link.
pub fn generate_verification_token() -> (s: String)
    ensures
        is_random_uuid_text(s@),
{
    random_uuid_text()
}

/// A random refresh token.
pub fn generate_refresh_token() -> (s: String)
    ensures
        is_random_uuid_text(s@),
{
    random_uuid_text()
}

/// The 128-bit value of the UUID that `text` spells, as `uuid::Uuid::parse_str`
/// reads it (hyphenated, simple, braced or URN form), or `None` where it
/// reads none.
pub uninterp spec fn uuid_from_text(text: Seq<char>) -> Option<u128>;

/// Read a UUID from text.
///
/// Calls `uuid::Uuid::parse_str`; its result is named by `uuid_from_text`,
/// since the accepted forms are those of the `uuid` crate's parser.
#[verifier::external_body]
pub(crate) fn parse_uuid(text: &str) -> (r: Option<u128>)
    ensures
        r == uuid_from_text(text@),
{
    uuid::Uuid::parse_str(text).ok().map(|u| u.as_u128())
}

} // verus!
