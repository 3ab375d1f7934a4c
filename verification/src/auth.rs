use vstd::prelude::*;
use vstd::string::*;
use vstd::utf8::encode_utf8_decode_utf8;

use crate::problem::{http_reason_phrase, title_from_reason, ABOUT_BLANK, ApiProblem};

verus! {

/// The scheme prefix of an `Authorization` header that carries a bearer token.
pub const BEARER_PREFIX: &'static str = "Bearer ";

/// The challenge sent in `WWW-Authenticate` with a refused request.
pub const BEARER_CHALLENGE: &'static str = "Bearer";

/// The status of a refused request.
pub const UNAUTHORIZED: u16 = 401;

/// The detail of a refused request's problem.
pub const UNAUTHORIZED_DETAIL: &'static str = "Unauthorized";

/// Compares two byte strings with `subtle`'s constant-time
/// `<[u8] as ConstantTimeEq>::ct_eq`, unwrapped with `Choice::unwrap_u8`.
///
/// Trusted: the source returns `Choice(0)` when the lengths differ and
/// otherwise the AND of the byte-wise comparisons, so the result is 1 exactly
/// when the two slices hold the same bytes, else 0.
#[verifier::external_body]
fn ct_eq_bytes(a: &[u8], b: &[u8]) -> (eq: u8)
    ensures
        eq == (if a@ == b@ { 1u8 } else { 0u8 }),
{
    subtle::ConstantTimeEq::ct_eq(a, b).unwrap_u8()
}

/// The `Authorization` header value that grants access with `token`.
pub open spec fn expected_authorization(token: Seq<char>) -> Seq<char> {
    BEARER_PREFIX@ + token
}

/// Whether a request that carried `provided` as its `Authorization` header
/// (`None` when absent or not visible ASCII) is let through: exactly when it
/// is `Bearer ` followed by the shared token. The comparison runs in
/// constant time over the bytes.
pub fn bearer_authorized(provided: Option<&str>, token: &str) -> (authorized: bool)
    ensures
        authorized == (match provided {
            Some(h) => h@ == expected_authorization(token@),
            None => false,
        }),
        authorized == (match provided {
            Some(h) => h@ == seq!['B', 'e', 'a', 'r', 'e', 'r', ' '] + token@,
            None => false,
        }),
{
    match provided {
        Some(h) => {
            let mut expected = String::from_str(BEARER_PREFIX);
            expected.append(token);
            let expected_str = expected.as_str();
            let eq = ct_eq_bytes(h.as_bytes(), expected_str.as_bytes());
            proof {
                if h.spec_bytes() == expected_str.spec_bytes() {
                    encode_utf8_decode_utf8(h@);
                    encode_utf8_decode_utf8(expected_str@);
                }
            }
            proof {
                law_header_carries_token_verbatim(token@);
                assert(expected_authorization(token@) =~= seq!['B', 'e', 'a', 'r', 'e', 'r', ' ']
                    + token@);
            }
            eq == 1
        },
        None => false,
    }
}

/// The problem sent when a request is refused: 401, detail `Unauthorized`,
/// with the request URI as its instance.
pub fn unauthorized_problem(uri: &str) -> (p: ApiProblem)
    ensures
        p.problem_type@ == ABOUT_BLANK@,
        p.title@ == title_from_reason(http_reason_phrase(UNAUTHORIZED)),
        p.status == UNAUTHORIZED,
        p.detail matches Some(d) && d@ == UNAUTHORIZED_DETAIL@,
        p.instance matches Some(i) && i@ == uri@,
{
    ApiProblem::new(
        UNAUTHORIZED,
        Some(String::from_str(UNAUTHORIZED_DETAIL)),
        Some(String::from_str(uri)),
    )
}

/// The header that grants access with a token is the seven characters
/// `Bearer ` followed by the token's characters, unchanged: nothing of the
/// token is altered (its letters keep their case), dropped or added.
pub proof fn law_header_carries_token_verbatim(token: Seq<char>)
    ensures
        expected_authorization(token).len() == 7 + token.len(),
        expected_authorization(token).take(7) == seq!['B', 'e', 'a', 'r', 'e', 'r', ' '],
        expected_authorization(token).skip(7) == token,
{
    reveal_strlit("Bearer ");
    assert(expected_authorization(token).take(7) =~= seq!['B', 'e', 'a', 'r', 'e', 'r', ' ']);
    assert(expected_authorization(token).skip(7) =~= token);
}

/// Different tokens are granted by different headers, so a header that
/// grants one token never grants another (tokens differing only in case
/// included).
pub proof fn law_distinct_tokens_distinct_headers(t1: Seq<char>, t2: Seq<char>)
    requires
        t1 != t2,
    ensures
        expected_authorization(t1) != expected_authorization(t2),
{
    law_header_carries_token_verbatim(t1);
    law_header_carries_token_verbatim(t2);
}

} // verus!
