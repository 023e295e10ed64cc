//! The suspension window: until which second the bot stays quiet, a cell
//! that concurrent handlers share it through, and the wall clock.
use vstd::prelude::*;
use std::sync::atomic::{AtomicU64, Ordering};
use std::time::{SystemTime, UNIX_EPOCH};

verus! {

/// The end of the current suspension, in seconds since the Unix epoch.
/// The bot is suspended at every second up to and including it.
#[derive(Debug, Clone, Copy, PartialEq, Eq, Structural)]
pub struct Suspension {
    pub disabled_until: u64,
}

impl Suspension {
    /// Whether the bot is suspended at second `now`.
    pub open spec fn suspended_at(self, now: int) -> bool {
        now <= self.disabled_until
    }

    /// The state after a suspension of `cooldown` seconds from `now`: the
    /// old end is overwritten, whether it was earlier or later.
    pub open spec fn after_suspend(self, now: int, cooldown: int) -> Suspension {
        Suspension { disabled_until: (now + cooldown) as u64 }
    }

    /// A state that was never suspended.
    pub fn new() -> (r: Suspension)
        ensures
            r.disabled_until == 0,
    {
        Suspension { disabled_until: 0 }
    }

    pub fn is_suspended(&self, now: u64) -> (r: bool)
        ensures
            r == self.suspended_at(now as int),
    {
        now <= self.disabled_until
    }

    pub fn suspend(&mut self, now: u64, cooldown: u64)
        requires
            now + cooldown <= u64::MAX,
        ensures
            *final(self) == old(self).after_suspend(now as int, cooldown as int),
    {
        self.disabled_until = now + cooldown;
    }
}

/// Right after a suspension from `t` of `c` seconds, the bot is suspended at
/// `t` and at `t + c`, and no longer at `t + c + 1`.
pub proof fn lemma_suspend_window(s: Suspension, t: u64, c: u64)
    requires
        t + c <= u64::MAX,
    ensures
        s.after_suspend(t as int, c as int).suspended_at(t as int),
        s.after_suspend(t as int, c as int).suspended_at(t + c),
        !s.after_suspend(t as int, c as int).suspended_at(t + c + 1),
{
}

/// Suspending twice with the same time and cooldown leaves the same state
/// as suspending once.
pub proof fn lemma_suspend_idempotent(s: Suspension, t: u64, c: u64)
    requires
        t + c <= u64::MAX,
    ensures
        s.after_suspend(t as int, c as int).after_suspend(t as int, c as int)
            == s.after_suspend(t as int, c as int),
{
}

/// The suspension end shared by concurrent handlers: a plain atomic store
/// on suspend and a plain atomic load on check, the last writer winning.
pub struct SuspensionClock {
    disabled_until: AtomicU64,
}

impl SuspensionClock {
    /// A clock that was never suspended.
    pub fn new() -> (r: SuspensionClock) {
        SuspensionClock { disabled_until: AtomicU64::new(0) }
    }

    /// The state as the last writer left it. Another handler may write at
    /// any moment, so nothing is promised of the value.
    pub fn snapshot(&self) -> (r: Suspension) {
        Suspension { disabled_until: self.disabled_until.load(Ordering::Relaxed) }
    }

    /// Makes `s` the shared state.
    pub fn record(&self, s: Suspension) {
        self.disabled_until.store(s.disabled_until, Ordering::Relaxed);
    }
}

#[verifier::external_type_specification]
#[verifier::external_body]
pub struct ExSystemTime(SystemTime);

/// Relies on `SystemTime::now`: the wall clock, of which nothing is promised.
#[verifier::external_body]
fn clock_reading() -> (r: SystemTime) {
    SystemTime::now()
}

/// Relies on `SystemTime::duration_since`: whole seconds since the Unix
/// epoch, or nothing for a time before it.
#[verifier::external_body]
fn seconds_since_epoch(t: &SystemTime) -> (r: Option<u64>) {
    match t.duration_since(UNIX_EPOCH) {
        Ok(d) => Some(d.as_secs()),
        Err(_) => None,
    }
}

/// The current wall-clock time in whole seconds since the Unix epoch, or
/// `None` when the system clock reads earlier than the epoch.
pub fn time_now() -> (r: Option<u64>) {
    let t = clock_reading();
    seconds_since_epoch(&t)
}

} // verus!
