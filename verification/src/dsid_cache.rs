//! The cached DSID cookie and its expiry.

use vstd::prelude::*;

verus! {

/// Cached DSID cookie with expiry information.
#[derive(Debug, Clone)]
pub struct DsidCache {
    pub dsid: String,
    /// Unix timestamp (seconds) when the cookie expires.
    pub expires_unix: u64,
    pub domain: String,
}

/// A cookie expiring at `expires_unix` is valid at Unix time `now`: it has
/// an expiry and `now` is before it.
pub open spec fn cookie_valid_at(expires_unix: u64, now: u64) -> bool {
    expires_unix > 0 && now < expires_unix
}

impl DsidCache {
    /// Whether the cookie is still valid at Unix time `now`.
    pub fn is_valid_at(&self, now: u64) -> (r: bool)
        ensures
            r == cookie_valid_at(self.expires_unix, now),
    {
        self.expires_unix > 0 && now < self.expires_unix
    }

    /// Returns `true` if the cached DSID has not yet expired by the system
    /// clock: the answer is the cookie's validity at the time the clock read,
    /// which the contract does not fix.
    pub fn is_valid(&self) -> (r: bool)
        ensures
            exists|now: u64| #[trigger] cookie_valid_at(self.expires_unix, now) == r,
            r ==> self.expires_unix > 0,
    {
        let now = crate::history::now_unix();
        let r = self.is_valid_at(now);
        assert(cookie_valid_at(self.expires_unix, now) == r);
        r
    }
}

} // verus!
