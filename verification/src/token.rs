//! Session tokens: random, and of one fixed shape.

use uuid::Uuid;
use vstd::prelude::*;

verus! {

/// Number of characters of a token.
pub const TOKEN_CHARS: usize = 36;

/// A lower-case hexadecimal digit.
pub open spec fn lower_hex(c: char) -> bool {
    ('0' <= c <= '9') || ('a' <= c <= 'f')
}

/// The positions of a token that hold a hyphen.
pub open spec fn hyphen_at(i: int) -> bool {
    i == 8 || i == 13 || i == 18 || i == 23
}

/// The shape of a token: 32 lower-case hexadecimal digits in groups of
/// 8, 4, 4, 4 and 12, with a hyphen between groups.
pub open spec fn token_shaped(token: Seq<char>) -> bool {
    &&& token.len() == TOKEN_CHARS
    &&& forall|i: int|
        0 <= i < token.len() ==> if hyphen_at(i) {
            #[trigger] token[i] == '-'
        } else {
            lower_hex(token[i])
        }
}

/// Calls `Uuid::new_v4` and renders the result with `to_string`. Claimed of
/// every outcome: it has the hyphenated lower-case shape. Nothing is claimed
/// of the digits, which are random.
#[verifier::external_body]
pub(crate) fn random_token() -> (token: String)
    ensures
        token_shaped(token@),
{
    Uuid::new_v4().to_string()
}

} // verus!
