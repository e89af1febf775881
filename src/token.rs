//! The Wacraft access-token cache: when a cached token may still be used, and
//! what a token response leaves in the cache.
use vstd::prelude::*;

verus! {

/// Seconds before expiry at which a cached token is no longer handed out.
pub const TOKEN_MARGIN_SECS: i64 = 60;

/// The tokens held for the Wacraft API.
#[derive(Debug, Clone, PartialEq, Eq)]
pub struct TokenCache {
    pub access_token: Option<String>,
    pub refresh_token: Option<String>,
    pub expires_at: Option<i64>,
}

/// A token expiring at `expires_at` may be used at `now` while more than the
/// margin is left.
pub open spec fn fresh_at(expires_at: int, now: int) -> bool {
    expires_at > now + TOKEN_MARGIN_SECS
}

/// `now + expires_in`, held within the range of `i64`.
pub open spec fn expiry_of(now: i64, expires_in: i64) -> int {
    let t = now as int + expires_in as int;
    if t > i64::MAX {
        i64::MAX as int
    } else if t < i64::MIN {
        i64::MIN as int
    } else {
        t
    }
}


/// How to ask for a new token.
#[derive(Debug, Clone, PartialEq, Eq)]
pub enum Grant {
    Refresh(String),
    Password,
}

impl TokenCache {
    /// An empty cache.
    pub fn new() -> (r: Self)
        ensures
            r.access_token is None,
            r.refresh_token is None,
            r.expires_at is None,
    {
        TokenCache { access_token: None, refresh_token: None, expires_at: None }
    }

    /// The cached access token, when there is one with an expiry still fresh at `now`.
    pub fn usable_token(&self, now: i64) -> (r: Option<String>)
        ensures
            match (self.access_token, self.expires_at) {
                (Some(t), Some(e)) => if fresh_at(e as int, now as int) {
                    r matches Some(x) && x@ == t@
                } else {
                    r is None
                },
                _ => r is None,
            },
    {
        match (&self.access_token, self.expires_at) {
            (Some(t), Some(e)) => {
                if now as i128 + TOKEN_MARGIN_SECS as i128 >= e as i128 {
                    None
                } else {
                    Some(t.clone())
                }
            },
            _ => None,
        }
    }

    /// Stores a token response received at `now`: both tokens, and an expiry
    /// `expires_in` seconds later.
    pub fn store(&mut self, access_token: String, refresh_token: String, expires_in: i64, now: i64)
        ensures
            final(self).access_token matches Some(t) && t@ == access_token@,
            final(self).refresh_token matches Some(t) && t@ == refresh_token@,
            final(self).expires_at matches Some(e) && e as int == expiry_of(now, expires_in),
    {
        let sum: i128 = now as i128 + expires_in as i128;
        let expiry: i64 = if sum > i64::MAX as i128 {
            i64::MAX
        } else if sum < i64::MIN as i128 {
            i64::MIN
        } else {
            sum as i64
        };
        self.access_token = Some(access_token);
        self.refresh_token = Some(refresh_token);
        self.expires_at = Some(expiry);
    }

    /// The grant to try when no cached token is usable: the refresh token if
    /// one is held and it has not just failed, else the password grant.
    pub fn next_grant(&self, refresh_failed: bool) -> (g: Grant)
        ensures
            match self.refresh_token {
                Some(t) => if refresh_failed {
                    g is Password
                } else {
                    g matches Grant::Refresh(x) && x@ == t@
                },
                None => g is Password,
            },
    {
        match &self.refresh_token {
            Some(t) => {
                if refresh_failed {
                    Grant::Password
                } else {
                    Grant::Refresh(t.clone())
                }
            },
            None => Grant::Password,
        }
    }
}

} // verus!
