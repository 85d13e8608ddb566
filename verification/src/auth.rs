//! Authentication by API key. A service without a configured key admits
//! every request. One with a key admits a request that presents the key,
//! either as a bearer token in the `Authorization` header or in the
//! `X-API-Key` header.

use crate::text::chars_of;
use crate::text::optional_str;
use crate::text::optional_text;
use vstd::prelude::*;

verus! {

/// The configured API key, if authentication is enabled.
#[derive(Debug, Clone)]
pub struct AuthState {
    pub api_key: Option<String>,
}

/// The scheme word that precedes a bearer token, with its space.
pub open spec fn bearer_prefix() -> Seq<char> {
    seq!['B', 'e', 'a', 'r', 'e', 'r', ' ']
}

/// The token of an `Authorization` header of the bearer scheme; none where
/// the header is of another scheme.
pub open spec fn bearer_token(header: Seq<char>) -> Option<Seq<char>> {
    if header.len() >= 7 && header.take(7) == bearer_prefix() {
        Some(header.skip(7))
    } else {
        None
    }
}

/// The key that a request presents: the bearer token if it has one, else
/// the `X-API-Key` header.
pub open spec fn presented_key(
    authorization: Option<Seq<char>>,
    api_key: Option<Seq<char>>,
) -> Option<Seq<char>> {
    match authorization {
        Some(header) => match bearer_token(header) {
            Some(token) => Some(token),
            None => api_key,
        },
        None => api_key,
    }
}

/// Whether a request is admitted.
pub open spec fn admitted(
    expected: Option<Seq<char>>,
    authorization: Option<Seq<char>>,
    api_key: Option<Seq<char>>,
) -> bool {
    match expected {
        None => true,
        Some(key) => presented_key(authorization, api_key) == Some(key),
    }
}

/// Whether the characters from `from` on are exactly `expected`.
fn rest_is(chars: &Vec<char>, from: usize, expected: &Vec<char>) -> (same: bool)
    requires
        from <= chars@.len(),
    ensures
        same == (chars@.skip(from as int) == expected@),
{
    if chars.len() - from != expected.len() {
        return false;
    }
    let total = chars.len();
    let mut i: usize = 0;
    while i < expected.len()
        invariant
            from <= chars@.len(),
            total == chars@.len(),
            chars@.len() - from == expected@.len(),
            i <= expected@.len(),
            forall|j: int| 0 <= j < i ==> chars@[from + j] == expected@[j],
        decreases expected@.len() - i,
    {
        if chars[from + i] != expected[i] {
            assert(chars@.skip(from as int)[i as int] != expected@[i as int]);
            return false;
        }
        i += 1;
    }
    assert(chars@.skip(from as int) =~= expected@);
    true
}

/// Whether the header begins with the bearer scheme.
fn is_bearer(header: &Vec<char>) -> (bearer: bool)
    ensures
        bearer == (bearer_token(header@) is Some),
{
    if header.len() < 7 {
        return false;
    }
    let bearer = header[0] == 'B' && header[1] == 'e' && header[2] == 'a' && header[3] == 'r'
        && header[4] == 'e' && header[5] == 'r' && header[6] == ' ';
    proof {
        let head = header@.take(7);
        if bearer {
            assert(head =~= bearer_prefix());
        } else {
            assert(head[0] == header@[0] && head[1] == header@[1] && head[2] == header@[2]
                && head[3] == header@[3] && head[4] == header@[4] && head[5] == header@[5]
                && head[6] == header@[6]);
        }
    }
    bearer
}

impl AuthState {
    /// The state for a configured key, or for none.
    pub fn new(api_key: Option<String>) -> (state: AuthState)
        ensures
            state.api_key == api_key,
    {
        AuthState { api_key }
    }

    /// Whether authentication is enabled: whether a key is configured.
    pub fn is_enabled(&self) -> (enabled: bool)
        ensures
            enabled == self.api_key is Some,
    {
        self.api_key.is_some()
    }
}

/// Decides whether a request is admitted, from its `Authorization` header
/// and its `X-API-Key` header, each absent or given as text. A request that
/// is not admitted is answered with status 401.
pub fn auth_middleware(
    auth_state: &AuthState,
    authorization: Option<&str>,
    api_key: Option<&str>,
) -> (r: Result<(), u16>)
    ensures
        admitted(optional_text(auth_state.api_key), optional_str(authorization), optional_str(api_key))
            ==> r is Ok,
        !admitted(optional_text(auth_state.api_key), optional_str(authorization), optional_str(api_key))
            ==> r == Err::<(), u16>(401),
{
    let expected = match &auth_state.api_key {
        None => {
            return Ok(());
        },
        Some(key) => chars_of(key.as_str()),
    };
    let bearer: Option<Vec<char>> = match authorization {
        Some(header) => {
            let chars = chars_of(header);
            if is_bearer(&chars) {
                Some(chars)
            } else {
                None
            }
        },
        None => None,
    };
    let matches = match bearer {
        Some(chars) => rest_is(&chars, 7, &expected),
        None => match api_key {
            Some(key) => {
                let chars = chars_of(key);
                assert(chars@.skip(0) =~= chars@);
                rest_is(&chars, 0, &expected)
            },
            None => false,
        },
    };
    if matches {
        Ok(())
    } else {
        Err(401)
    }
}

} // verus!
