//! Per-backend availability flag with timed retry backoff.
//!
//! Every external tool the system shells out to is guarded by one
//! `RetryableAvailability`: when a call fails the backend is marked
//! unavailable and a retry deadline is scheduled; until the deadline
//! passes, `try_acquire` refuses further attempts, and once it passes the
//! flag optimistically flips back so exactly one probe call is allowed.

use vstd::prelude::*;

verus! {

/// Availability state of one backend: a usable flag, a retry deadline
/// (`0` means no deadline is scheduled) and the fixed backoff applied
/// after each failure.
pub struct RetryableAvailability {
    pub available: bool,
    pub retry_after: u64,
    pub backoff_secs: u64,
}

/// `now + backoff`, saturating at the top of the range.
pub open spec fn spec_deadline(now: u64, backoff: u64) -> u64 {
    if now + backoff > u64::MAX {
        u64::MAX
    } else {
        (now + backoff) as u64
    }
}

impl RetryableAvailability {
    pub open spec fn spec_available(self) -> bool {
        self.available
    }

    pub open spec fn spec_retry_after(self) -> u64 {
        self.retry_after
    }

    pub open spec fn spec_backoff_secs(self) -> u64 {
        self.backoff_secs
    }

    /// State after `mark_available`.
    pub open spec fn spec_marked_available(self) -> RetryableAvailability {
        RetryableAvailability { available: true, retry_after: 0, ..self }
    }

    /// State after `mark_unavailable` at time `now`.
    pub open spec fn spec_marked_unavailable(self, now: u64) -> RetryableAvailability {
        RetryableAvailability {
            available: false,
            retry_after: spec_deadline(now, self.backoff_secs),
            ..self
        }
    }

    /// State and answer of `try_acquire` at time `now`.
    pub open spec fn spec_acquired(self, now: u64) -> (RetryableAvailability, (bool, bool)) {
        if self.available {
            (self, (true, false))
        } else if self.retry_after == 0 {
            (self, (false, false))
        } else if now >= self.retry_after {
            (self.spec_marked_available(), (true, true))
        } else {
            (self, (false, false))
        }
    }

    pub fn new(initially_available: bool, backoff_secs: u64) -> (r: RetryableAvailability)
        ensures
            r.spec_available() == initially_available,
            r.spec_retry_after() == 0,
            r.spec_backoff_secs() == backoff_secs,
    {
        RetryableAvailability { available: initially_available, retry_after: 0, backoff_secs }
    }

    /// The flag as it stands, with no side effect.
    pub fn current(&self) -> (r: bool)
        ensures
            r == self.spec_available(),
    {
        self.available
    }

    /// Asks permission for one external call at time `now`. Returns
    /// `(usable, just_recovered)`: usable at once if available; refused
    /// without side effect while the deadline has not passed; flipped
    /// optimistically to available, exactly once, when it has.
    pub fn try_acquire_at(&mut self, now: u64) -> (r: (bool, bool))
        ensures
            (*final(self), r) == old(self).spec_acquired(now),
    {
        if self.available {
            return (true, false);
        }
        if self.retry_after == 0 {
            return (false, false);
        }
        if now >= self.retry_after {
            let became_available = self.mark_available();
            return (true, became_available);
        }
        (false, false)
    }

    /// Clears the deadline; the result says whether this is a recovery
    /// transition (so a caller can log it once).
    pub fn mark_available(&mut self) -> (r: bool)
        ensures
            *final(self) == old(self).spec_marked_available(),
            r == !old(self).spec_available(),
    {
        let was_available = self.available;
        self.available = true;
        self.retry_after = 0;
        !was_available
    }

    /// Drops the flag and schedules the retry deadline `now + backoff`;
    /// the result says whether this is a new transition to unavailable.
    pub fn mark_unavailable_at(&mut self, now: u64) -> (r: bool)
        ensures
            *final(self) == old(self).spec_marked_unavailable(now),
            r == old(self).spec_available(),
    {
        let was_available = self.available;
        self.available = false;
        self.retry_after = if now > u64::MAX - self.backoff_secs {
            u64::MAX
        } else {
            now + self.backoff_secs
        };
        was_available
    }

    /// Asks permission for one external call at the current wall-clock
    /// time. Whatever the clock reads, a refusal leaves the state alone,
    /// and a grant leaves the flag available.
    pub fn try_acquire(&mut self) -> (r: (bool, bool))
        ensures
            r.1 ==> r.0,
            r.0 ==> final(self).spec_available(),
            r.0 == final(self).spec_available(),
            !r.0 ==> *final(self) == *old(self),
            old(self).spec_available() ==> r == (true, false) && *final(self) == *old(self),
            final(self).spec_backoff_secs() == old(self).spec_backoff_secs(),
    {
        let now = now_secs();
        self.try_acquire_at(now)
    }

    /// Marks unavailable with a deadline computed from the current
    /// wall-clock time.
    pub fn mark_unavailable(&mut self) -> (r: bool)
        ensures
            !final(self).spec_available(),
            r == old(self).spec_available(),
            final(self).spec_backoff_secs() == old(self).spec_backoff_secs(),
    {
        let now = now_secs();
        self.mark_unavailable_at(now)
    }
}

/// Backoff law: from any state marked unavailable at `now`, acquiring
/// before the deadline `now + backoff` is refused with `(false, false)`
/// and changes nothing; acquiring at or after the deadline yields
/// `(true, true)` and leaves the tracker available, so a second acquire
/// answers `(true, false)`: the recovery grant happens exactly once.
pub proof fn lemma_backoff_window(s: RetryableAvailability, now: u64, early: u64, late: u64)
    requires
        spec_deadline(now, s.spec_backoff_secs()) > 0,
        early < spec_deadline(now, s.spec_backoff_secs()),
        late >= spec_deadline(now, s.spec_backoff_secs()),
    ensures
        s.spec_marked_unavailable(now).spec_acquired(early)
            == (s.spec_marked_unavailable(now), (false, false)),
        s.spec_marked_unavailable(now).spec_acquired(late).1 == (true, true),
        s.spec_marked_unavailable(now).spec_acquired(late).0
            .spec_acquired(late).1 == (true, false),
{
}

/// Relies on `std::time::SystemTime::now`: seconds since the Unix epoch,
/// or `0` if the clock reads earlier than the epoch. Nothing is assumed
/// of the value.
#[verifier::external_body]
pub(crate) fn now_secs() -> u64 {
    match std::time::SystemTime::now().duration_since(std::time::UNIX_EPOCH) {
        Ok(duration) => duration.as_secs(),
        Err(_) => 0,
    }
}

} // verus!
