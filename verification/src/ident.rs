//! Identifiers of rows.

use vstd::prelude::*;

verus! {

/// A digit of lower-case hexadecimal notation.
pub open spec fn is_lower_hex(c: char) -> bool {
    c == '0' || c == '1' || c == '2' || c == '3' || c == '4' || c == '5' || c == '6' || c == '7'
        || c == '8' || c == '9' || c == 'a' || c == 'b' || c == 'c' || c == 'd' || c == 'e' || c
        == 'f'
}

/// Where the hyphens of an identifier stand.
pub open spec fn is_hyphen_position(i: int) -> bool {
    i == 8 || i == 13 || i == 18 || i == 23
}

/// The shape of an identifier: thirty-six characters in the groups 8-4-4-4-12,
/// hyphens between the groups and lower-case hexadecimal digits within them,
/// the third group opening with `4` and the fourth with `8`, `9`, `a` or `b`.
pub open spec fn is_identifier(s: Seq<char>) -> bool {
    &&& s.len() == 36
    &&& forall|i: int|
        0 <= i < 36 ==> if is_hyphen_position(i) {
            #[trigger] s[i] == '-'
        } else {
            is_lower_hex(s[i])
        }
    &&& s[14] == '4'
    &&& (s[19] == '8' || s[19] == '9' || s[19] == 'a' || s[19] == 'b')
}

/// A new random identifier.
///
/// Trusted: the body calls `uuid::Uuid::new_v4` and writes the value with the
/// `Display` of `uuid::Uuid`. `new_v4` draws 128 random bits and fixes the
/// version to 4 and the variant to the two bits `10`; `Display` writes the
/// hyphenated lower-case form. The contract claims that shape and nothing of
/// the random digits; two calls may return different texts. `new_v4` panics
/// when the operating system gives no random bytes.
#[verifier::external_body]
pub(crate) fn random_identifier() -> (id: String)
    ensures
        is_identifier(id@),
{
    uuid::Uuid::new_v4().to_string()
}

} // verus!
