use vstd::prelude::*;

verus! {

/// The token that is always accepted.
pub const FIXED_TOKEN: &'static str = "test-token";

/// What an `Authorization` header holds before the token.
pub const BEARER_PREFIX: &'static str = "Bearer ";

/// The header text that carries `token` as a bearer credential.
pub open spec fn bearer_of(token: Seq<char>) -> Seq<char> {
    BEARER_PREFIX@ + token
}

/// Whether `header` is exactly the bearer form of `token`.
pub fn is_bearer_of(header: &str, token: &str) -> (r: bool)
    ensures
        r == (header@ == bearer_of(token@)),
{
    let n = header.unicode_len();
    let p = BEARER_PREFIX.unicode_len();
    let t = token.unicode_len();
    let ghost want = bearer_of(token@);
    if t > n || n - t != p {
        return false;
    }
    let mut i: usize = 0;
    while i < n
        invariant
            n == header@.len(),
            p == BEARER_PREFIX@.len(),
            t == token@.len(),
            n == p + t,
            want == bearer_of(token@),
            want.len() == n,
            i <= n,
            forall|k: int| 0 <= k < i ==> header@[k] == want[k],
        decreases n - i,
    {
        let c = header.get_char(i);
        let expected = if i < p {
            BEARER_PREFIX.get_char(i)
        } else {
            token.get_char(i - p)
        };
        if c != expected {
            return false;
        }
        i = i + 1;
    }
    assert(header@ =~= want);
    true
}

/// The bearer check in front of the user endpoints. It accepts the fixed
/// token and, where one was configured, an override token.
pub struct AuthGuard {
    pub override_token: Option<String>,
}

/// A service that only runs behind a passed bearer check.
pub struct AuthGuardMiddleware<S> {
    pub guard: AuthGuard,
    pub service: S,
}

impl AuthGuard {
    pub fn new(override_token: Option<String>) -> (r: AuthGuard)
        ensures
            r.override_token == override_token,
    {
        AuthGuard { override_token }
    }

    /// The header text carries an accepted token.
    pub open spec fn accepts(self, header: Seq<char>) -> bool {
        ||| header == bearer_of(FIXED_TOKEN@)
        ||| (self.override_token matches Some(t) && header == bearer_of(t@))
    }

    /// A request with this `Authorization` header (none where it is missing
    /// or not text) may pass.
    pub open spec fn passes(self, authorization: Option<&str>) -> bool {
        authorization matches Some(h) && self.accepts(h@)
    }

    pub fn authorize(&self, authorization: Option<&str>) -> (r: bool)
        ensures
            r == self.passes(authorization),
    {
        match authorization {
            None => false,
            Some(h) => {
                if is_bearer_of(h, FIXED_TOKEN) {
                    true
                } else {
                    match &self.override_token {
                        Some(t) => is_bearer_of(h, t.as_str()),
                        None => false,
                    }
                }
            },
        }
    }

    /// A copy of this guard with the same tokens.
    pub fn copy(&self) -> (r: AuthGuard)
        ensures
            r.override_token == self.override_token,
    {
        let override_token = match &self.override_token {
            Some(t) => Some(t.clone()),
            None => None,
        };
        AuthGuard { override_token }
    }

    /// Puts this guard in front of `service`.
    pub fn new_transform<S>(&self, service: S) -> (r: AuthGuardMiddleware<S>)
        ensures
            r.guard.override_token == self.override_token,
            r.service == service,
    {
        AuthGuardMiddleware { guard: self.copy(), service }
    }
}

impl<S> AuthGuardMiddleware<S> {
    /// Whether a request with this `Authorization` header reaches the service.
    pub fn forwards(&self, authorization: Option<&str>) -> (r: bool)
        ensures
            r == self.guard.passes(authorization),
    {
        self.guard.authorize(authorization)
    }
}

} // verus!
