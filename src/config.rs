use crate::text::chars_of;
use vstd::prelude::*;

verus! {

/// The public base URL of the service, used in the links that are mailed out.
#[derive(Debug)]
pub struct ApplicationBaseUrl(pub String);

/// The key that signs session cookies.
#[derive(Clone, Debug)]
pub struct HmacSecret(pub String);

/// The path, under the base URL, that redeems an activation token.
pub open spec fn activation_path() -> Seq<char> {
    "/api/v1/auth/signup/activate?token="@
}

impl ApplicationBaseUrl {
    /// The link that activates the account holding `token`.
    pub fn activation_link(&self, token: &str) -> (r: String)
        ensures
            r@ == self.0@ + activation_path() + token@,
    {
        let mut link = self.0.clone();
        link.append("/api/v1/auth/signup/activate?token=");
        link.append(token);
        link
    }
}

/// Where ` at` begins in `s`.
pub open spec fn is_at_marker(s: Seq<char>, k: int) -> bool {
    0 <= k && k + 3 <= s.len() && s[k] == ' ' && s[k + 1] == 'a' && s[k + 2] == 't'
}

/// A payload error message cut before its first ` at` (where the position
/// is told), or whole where it has none.
pub open spec fn error_summary(s: Seq<char>) -> Seq<char> {
    if exists|k: int| is_at_marker(s, k) {
        let k = choose|k: int|
            is_at_marker(s, k) && forall|j: int| 0 <= j < k ==> !is_at_marker(s, j);
        s.subrange(0, k)
    } else {
        s
    }
}

/// Shapes the errors of malformed JSON payloads.
#[derive(Debug)]
pub struct ApiError;

impl ApiError {
    /// The message reported for a malformed payload whose error reads `message`.
    pub fn json_error(message: &str) -> (r: String)
        ensures
            r@ == error_summary(message@),
    {
        let cs = chars_of(message);
        let mut k: usize = 0;
        while cs.len() >= 3 && k <= cs.len() - 3
            invariant
                cs@ == message@,
                k <= cs@.len(),
                forall|j: int| 0 <= j < k ==> !is_at_marker(message@, j),
            decreases cs@.len() - k,
        {
            if cs[k] == ' ' && cs[k + 1] == 'a' && cs[k + 2] == 't' {
                assert(is_at_marker(message@, k as int));
                let ghost c = choose|c: int|
                    is_at_marker(message@, c) && forall|j: int|
                        0 <= j < c ==> !is_at_marker(message@, j);
                assert(c == k) by {
                    assert(is_at_marker(message@, k as int) && forall|j: int|
                        0 <= j < k ==> !is_at_marker(message@, j));
                    if c < k {
                        assert(!is_at_marker(message@, c));
                    } else if c > k {
                        assert(!is_at_marker(message@, k as int));
                    }
                }
                return String::from_str(message.substring_char(0, k));
            }
            k = k + 1;
        }
        assert(!exists|j: int| is_at_marker(message@, j)) by {
            assert forall|j: int| !is_at_marker(message@, j) by {
                if 0 <= j < k {
                } else if j >= k {
                    assert(!(j + 3 <= cs@.len()));
                }
            }
        }
        String::from_str(message)
    }
}

} // verus!
