//! A time-expiring value cache.
//!
//! `Cached` holds one value together with the time it was last refreshed
//! and a time-to-live.  A read within the window returns the held value;
//! a read past the window refreshes first.  A failed refresh leaves the
//! held value and its timestamp unchanged, so the next read retries.
//!
//! The cache itself is a sequential state machine: the caller supplies the
//! current time, and either a refresh operation (`get`, `get_verbose`) or a
//! refresh outcome it has already produced (`apply_refresh`).  A concurrent
//! caller wraps the whole cache in one mutual-exclusion region, which is
//! what serializes the timestamp check and the refresh; that region is the
//! caller's, not the cache's.

use vstd::prelude::*;

verus! {

/// A value with the time it was last refreshed and its time-to-live,
/// both in milliseconds of a monotonic clock.
pub struct Cached<T> {
    value: T,
    last_update_ms: u64,
    expiry_ms: u64,
}

impl<T> Cached<T> {
    /// Whether a read at time `now_ms` must refresh first: the value's age
    /// strictly exceeds the time-to-live.
    pub open spec fn spec_expired(self, now_ms: u64) -> bool {
        now_ms - self.spec_last_update_ms() > self.spec_expiry_ms()
    }

    pub closed spec fn spec_value(self) -> T {
        self.value
    }

    pub closed spec fn spec_last_update_ms(self) -> u64 {
        self.last_update_ms
    }

    pub closed spec fn spec_expiry_ms(self) -> u64 {
        self.expiry_ms
    }
}

impl<T: Clone> Cached<T> {
    /// Builds the cache from the outcome of the one refresh performed at
    /// construction time: if that refresh failed, construction fails with
    /// the same error and no cache exists.
    pub fn new<E>(fetched: Result<T, E>, now_ms: u64, expiry_ms: u64) -> (r: Result<Cached<T>, E>)
        ensures
            match r {
                Ok(c) => fetched matches Ok(v) && c.spec_value() == v
                    && c.spec_last_update_ms() == now_ms && c.spec_expiry_ms() == expiry_ms,
                Err(e) => fetched matches Err(e0) && e == e0,
            },
    {
        match fetched {
            Ok(value) => Ok(Cached { value, last_update_ms: now_ms, expiry_ms }),
            Err(e) => Err(e),
        }
    }

    /// Whether a read at `now_ms` would refresh first.
    pub fn needs_refresh(&self, now_ms: u64) -> (r: bool)
        requires
            now_ms >= self.spec_last_update_ms(),
        ensures
            r == self.spec_expired(now_ms),
    {
        now_ms - self.last_update_ms > self.expiry_ms
    }

    /// The held value, without consulting the clock.  A read within the
    /// time-to-live window returns exactly this value.
    pub fn peek(&self) -> (r: T)
        ensures
            cloned(self.spec_value(), r),
    {
        self.value.clone()
    }

    /// Installs the outcome of a refresh the caller has performed.  On
    /// success the value is replaced and the timestamp set to `now_ms`;
    /// on failure both are left unchanged and the error is returned, so
    /// the next read retries.
    pub fn apply_refresh<E>(&mut self, now_ms: u64, outcome: Result<T, E>) -> (r: Result<(T, bool), E>)
        ensures
            match r {
                Ok((v, refreshed)) => refreshed && (outcome matches Ok(v0) && {
                    &&& final(self).spec_value() == v0
                    &&& cloned(v0, v)
                    &&& final(self).spec_last_update_ms() == now_ms
                    &&& final(self).spec_expiry_ms() == old(self).spec_expiry_ms()
                }),
                Err(e) => outcome matches Err(e0) && e == e0 && *final(self) == *old(self),
            },
    {
        match outcome {
            Ok(value) => {
                self.value = value;
                self.last_update_ms = now_ms;
                Ok((self.value.clone(), true))
            },
            Err(e) => Err(e),
        }
    }

    /// Returns the current value, refreshing first when its age exceeds
    /// the time-to-live, and reports whether this call refreshed.
    ///
    /// Within the window the held value is returned unchanged and
    /// `refresh` is not invoked.  Past the window `refresh` is invoked
    /// exactly once: on success the value and timestamp are replaced, on
    /// failure both are left unchanged and the error is returned.
    pub fn get_verbose<E, F: FnOnce() -> Result<T, E>>(&mut self, now_ms: u64, refresh: F) -> (r:
        Result<(T, bool), E>)
        requires
            now_ms >= old(self).spec_last_update_ms(),
            call_requires(refresh, ()),
        ensures
            !old(self).spec_expired(now_ms) ==> *final(self) == *old(self)
                && (r matches Ok((v, refreshed)) && cloned(old(self).spec_value(), v)
                    && !refreshed),
            old(self).spec_expired(now_ms) ==> match r {
                Ok((v, refreshed)) => refreshed && {
                    &&& call_ensures(refresh, (), Ok(final(self).spec_value()))
                    &&& cloned(final(self).spec_value(), v)
                    &&& final(self).spec_last_update_ms() == now_ms
                    &&& final(self).spec_expiry_ms() == old(self).spec_expiry_ms()
                },
                Err(e) => call_ensures(refresh, (), Err(e)) && *final(self) == *old(self),
            },
    {
        if self.needs_refresh(now_ms) {
            self.apply_refresh(now_ms, refresh())
        } else {
            Ok((self.peek(), false))
        }
    }

    /// Returns the current value, refreshing first when its age exceeds
    /// the time-to-live, as `get_verbose` does.
    pub fn get<E, F: FnOnce() -> Result<T, E>>(&mut self, now_ms: u64, refresh: F) -> (r: Result<
        T,
        E,
    >)
        requires
            now_ms >= old(self).spec_last_update_ms(),
            call_requires(refresh, ()),
        ensures
            !old(self).spec_expired(now_ms) ==> *final(self) == *old(self)
                && (r matches Ok(v) && cloned(old(self).spec_value(), v)),
            old(self).spec_expired(now_ms) ==> match r {
                Ok(v) => {
                    &&& call_ensures(refresh, (), Ok(final(self).spec_value()))
                    &&& cloned(final(self).spec_value(), v)
                    &&& final(self).spec_last_update_ms() == now_ms
                    &&& final(self).spec_expiry_ms() == old(self).spec_expiry_ms()
                },
                Err(e) => call_ensures(refresh, (), Err(e)) && *final(self) == *old(self),
            },
    {
        match self.get_verbose(now_ms, refresh) {
            Ok((value, _)) => Ok(value),
            Err(e) => Err(e),
        }
    }
}

/// After a successful refresh at `refreshed_at`, no read within the
/// time-to-live window refreshes again: a second read at any `later` time
/// not more than `expiry_ms` past the refresh finds the value fresh.
/// Under a mutual-exclusion region this is what bounds concurrent callers
/// to at most one refresh per window.
pub proof fn lemma_no_refresh_within_window<T>(c: Cached<T>, refreshed_at: u64, later: u64)
    requires
        c.spec_last_update_ms() == refreshed_at,
        later - refreshed_at <= c.spec_expiry_ms(),
    ensures
        !c.spec_expired(later),
{
}

/// A failed refresh leaves the cache expired: a subsequent read before any
/// successful refresh attempts the refresh again (and fails again if the
/// refresh operation still fails), while the previously cached value stays
/// held and is served once a refresh succeeds.
pub proof fn lemma_failed_refresh_retries<T>(c: Cached<T>, now_ms: u64, later: u64)
    requires
        c.spec_expired(now_ms),
        later >= now_ms,
    ensures
        c.spec_expired(later),
{
}

} // verus!
