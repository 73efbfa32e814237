use vstd::prelude::*;

verus! {

/// Extra information that the service attaches to a failed call.
#[derive(Clone, Copy, Debug, PartialEq, Eq, Structural)]
pub struct ResponseParameters {
    /// The group moved to a supergroup with this identifier.
    pub migrate_to_chat_id: Option<i64>,
    /// Seconds to wait before the call may be repeated (flood control).
    pub retry_after: Option<i64>,
}

/// The ways a call can fail.
#[derive(Clone, Debug)]
pub enum ApiError {
    /// The transport failed: connecting, sending, or reading the body.
    Network,
    /// A deadline elapsed, or the timer for it could not be started.
    Timeout,
    /// The body is not JSON, or not a response envelope.
    Decode,
    /// The address built from the token and method name is not a valid URI.
    InvalidUrl,
    /// The service rejected the call; both fields are passed on as received.
    Telegram { description: String, parameters: Option<ResponseParameters> },
}

/// `p` is a prefix of `s`.
pub open spec fn is_prefix(p: Seq<char>, s: Seq<char>) -> bool {
    p.len() <= s.len() && s.subrange(0, p.len() as int) == p
}

/// A description by which the service reports bad or revoked credentials.
pub open spec fn is_auth_failure(description: Seq<char>) -> bool {
    is_prefix("Unauthorized"@, description) || is_prefix("Forbidden"@, description)
}

impl ApiError {
    /// A failure after which polling must stop: the service refused the
    /// credentials. Every other failure may be retried.
    pub open spec fn spec_is_fatal(&self) -> bool {
        match self {
            ApiError::Telegram { description, .. } => is_auth_failure(description@),
            _ => false,
        }
    }

    pub fn is_fatal(&self) -> (r: bool)
        ensures
            r == self.spec_is_fatal(),
    {
        match self {
            ApiError::Telegram { description, .. } => {
                starts_with(description.as_str(), "Unauthorized") || starts_with(
                    description.as_str(),
                    "Forbidden",
                )
            },
            _ => false,
        }
    }
}

/// Whether `s` begins with `p`, compared character by character.
pub fn starts_with(s: &str, p: &str) -> (r: bool)
    ensures
        r == is_prefix(p@, s@),
{
    let n = p.unicode_len();
    let m = s.unicode_len();
    if n > m {
        return false;
    }
    let mut i: usize = 0;
    while i < n
        invariant
            n == p@.len(),
            m == s@.len(),
            n <= m,
            i <= n,
            forall|j: int| 0 <= j < i ==> s@[j] == p@[j],
        decreases n - i,
    {
        if s.get_char(i) != p.get_char(i) {
            assert(s@.subrange(0, n as int)[i as int] != p@[i as int]);
            return false;
        }
        i = i + 1;
    }
    assert(s@.subrange(0, n as int) =~= p@);
    true
}

} // verus!
