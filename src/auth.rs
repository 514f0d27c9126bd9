//! The inbound token check. Headers and the environment are read by the
//! caller; whether a request passes is decided here.
use vstd::prelude::*;
use crate::evaluation::text_equals;

verus! {

/// The text of a header value with one leading `Bearer ` removed.
pub open spec fn strip_bearer(s: Seq<char>) -> Seq<char> {
    if s.len() >= 7 && s.take(7) == "Bearer "@ {
        s.skip(7)
    } else {
        s
    }
}

/// Whether a request passes: an absent or empty configured token disables
/// the check; otherwise the presented token must equal it.
pub open spec fn authorized(token: Option<Seq<char>>, expected: Option<Seq<char>>) -> bool {
    match expected {
        None => true,
        Some(e) => e.len() == 0 || token == Some(e),
    }
}

/// Whether the check is disabled: no configured token, or an empty one.
pub open spec fn check_disabled(expected: Option<Seq<char>>) -> bool {
    match expected {
        None => true,
        Some(e) => e.len() == 0,
    }
}

/// The token a header value presents.
pub fn bearer_token(header: &str) -> (r: String)
    ensures
        r@ == strip_bearer(header@),
{
    proof {
        reveal_strlit("Bearer ");
    }
    let prefix = "Bearer ";
    let n = header.unicode_len();
    if n < 7 {
        return header.to_string();
    }
    let mut i: usize = 0;
    while i < 7
        invariant
            n == header@.len(),
            n >= 7,
            prefix@ == "Bearer "@,
            prefix@.len() == 7,
            i <= 7,
            forall|j: int| 0 <= j < i ==> header@[j] == prefix@[j],
        decreases 7 - i,
    {
        if header.get_char(i) != prefix.get_char(i) {
            assert(header@.take(7)[i as int] != "Bearer "@[i as int]);
            return header.to_string();
        }
        i = i + 1;
    }
    assert(header@.take(7) =~= "Bearer "@);
    header.substring_char(7, n).to_string()
}

/// Whether no token check applies.
pub fn auth_disabled(expected: &Option<String>) -> (r: bool)
    ensures
        r == check_disabled(
            match expected {
                Some(e) => Some(e@),
                None => None,
            },
        ),
{
    match expected {
        None => true,
        Some(e) => e.unicode_len() == 0,
    }
}

/// Decides whether a request passes, given the presented token and the
/// configured one.
pub fn is_authorized(token: &Option<String>, expected: &Option<String>) -> (r: bool)
    ensures
        r == authorized(
            match token {
                Some(t) => Some(t@),
                None => None,
            },
            match expected {
                Some(e) => Some(e@),
                None => None,
            },
        ),
{
    match expected {
        None => true,
        Some(e) => {
            if e.unicode_len() == 0 {
                true
            } else {
                match token {
                    Some(t) => text_equals(t.as_str(), e.as_str()),
                    None => false,
                }
            }
        },
    }
}

} // verus!
