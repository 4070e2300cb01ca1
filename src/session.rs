use crate::policy::User;
use vstd::prelude::*;

verus! {

/// How long a session lasts once issued, in seconds.
pub const SESSION_SECONDS: u64 = 3600;

/// What a session cookie carries: whose session it is, and until when.
#[derive(Clone, Debug)]
pub struct SessionCookie {
    pub username: String,
    /// Seconds since the Unix epoch.
    pub expires: u64,
}

/// An authenticated principal for the length of one request.
#[derive(Clone, Debug)]
pub struct Session {
    pub user: User,
}

impl SessionCookie {
    /// The cookie of a session for `username` issued at `now`; none where
    /// its expiry time does not fit in 64 bits.
    pub fn issue(username: String, now: u64) -> (r: Option<SessionCookie>)
        ensures
            match r {
                Some(c) => now + SESSION_SECONDS <= u64::MAX && c.username == username
                    && c.expires == now + SESSION_SECONDS,
                None => now + SESSION_SECONDS > u64::MAX,
            },
    {
        match now.checked_add(SESSION_SECONDS) {
            Some(expires) => Some(SessionCookie { username, expires }),
            None => None,
        }
    }

    /// Whether the session is still live at `now`.
    pub fn is_live(&self, now: u64) -> (r: bool)
        ensures
            r == (self.expires > now),
    {
        self.expires > now
    }
}

} // verus!
