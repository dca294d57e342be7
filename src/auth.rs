use vstd::prelude::*;

use crate::plataforma::ahora_s;

verus! {

/// The claims of an access token.
#[derive(Debug, Clone)]
pub struct Claims {
    /// Audience; `authenticated` for signed-in users.
    pub aud: String,
    /// Expiry, in seconds since the Unix epoch.
    pub exp: i64,
    /// Issue time, in seconds since the Unix epoch.
    pub iat: i64,
    pub iss: String,
    /// The user's id.
    pub sub: u128,
    pub email: Option<String>,
    pub role: Option<String>,
}

impl Claims {
    pub fn user_id(&self) -> (r: u128)
        ensures
            r == self.sub,
    {
        self.sub
    }

    /// Whether the token had expired at time `ahora` (seconds since the epoch).
    pub fn is_expired_at(&self, ahora: i64) -> (r: bool)
        ensures
            r == (self.exp < ahora),
    {
        self.exp < ahora
    }

    /// Whether the token has expired, by the clock.
    pub fn is_expired(&self) -> (r: bool) {
        self.is_expired_at(ahora_s())
    }
}

/// The user a valid token speaks for.
#[derive(Debug, Clone)]
pub struct AuthenticatedUser {
    pub id: u128,
    pub email: Option<String>,
    pub role: Option<String>,
}

/// The user named by the claims.
impl From<Claims> for AuthenticatedUser {
    fn from(claims: Claims) -> (r: AuthenticatedUser) {
        AuthenticatedUser { id: claims.sub, email: claims.email, role: claims.role }
    }
}

impl vstd::std_specs::convert::FromSpecImpl<Claims> for AuthenticatedUser {
    open spec fn obeys_from_spec() -> bool {
        true
    }

    open spec fn from_spec(claims: Claims) -> AuthenticatedUser {
        AuthenticatedUser { id: claims.sub, email: claims.email, role: claims.role }
    }
}

} // verus!
