//! The running session: base URL and the cached access token.
//!
//! One session is created at startup. The access token is set once, after
//! the one login call, and only read thereafter; there is no automatic
//! refresh, so an expired token surfaces as a failed remote call.

use vstd::prelude::*;

verus! {

/// The state a remote call needs: where the service lives, and the token
/// the session logged in with.
#[derive(Debug, Clone, PartialEq, Eq)]
pub struct Session {
    base_url: String,
    access_token: Option<String>,
}

impl Session {
    /// The base URL of the remote service.
    pub closed spec fn spec_base_url(self) -> Seq<char> {
        self.base_url@
    }

    /// The cached access token, if the session has logged in.
    pub closed spec fn spec_token(self) -> Option<Seq<char>> {
        match self.access_token {
            Some(t) => Some(t@),
            None => None,
        }
    }

    /// A fresh session that has not logged in yet.
    pub fn new(base_url: String) -> (r: Session)
        ensures
            r.spec_base_url() == base_url@,
            r.spec_token() is None,
    {
        Session { base_url, access_token: None }
    }

    /// Caches the access token a successful login returned. The token is
    /// set once per session, never overwritten.
    pub fn set_token(&mut self, token: String)
        requires
            old(self).spec_token() is None,
        ensures
            final(self).spec_base_url() == old(self).spec_base_url(),
            final(self).spec_token() == Some(token@),
    {
        self.access_token = Some(token);
    }

    /// The base URL of the remote service.
    pub fn base_url(&self) -> (r: &String)
        ensures
            r@ == self.spec_base_url(),
    {
        &self.base_url
    }

    /// The cached access token, if the session has logged in.
    pub fn token(&self) -> (r: Option<&String>)
        ensures
            match r {
                Some(t) => self.spec_token() == Some(t@),
                None => self.spec_token() is None,
            },
    {
        match &self.access_token {
            Some(t) => Some(t),
            None => None,
        }
    }
}

} // verus!
