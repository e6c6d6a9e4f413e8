//! A restart of the application scheduled after a replace, so that the
//! replaced database file is opened afresh. The timer can be cancelled until
//! it fires.
use vstd::prelude::*;

verus! {

/// The delay used when the caller asks for none.
pub const DEFAULT_RESTART_DELAY_MS: u64 = 1000;

/// A restart that fires once its delay has elapsed, unless cancelled.
#[derive(Debug, Clone, Copy, PartialEq, Eq)]
pub struct RestartTimer {
    pub delay_ms: u64,
    pub cancelled: bool,
}

impl RestartTimer {
    /// A restart after `requested` milliseconds, or the default delay.
    pub fn schedule(requested: Option<u64>) -> (r: RestartTimer)
        ensures
            r.delay_ms == match requested {
                Some(d) => d,
                None => DEFAULT_RESTART_DELAY_MS,
            },
            !r.cancelled,
    {
        let delay_ms = match requested {
            Some(d) => d,
            None => DEFAULT_RESTART_DELAY_MS,
        };
        RestartTimer { delay_ms, cancelled: false }
    }

    /// Withdraws the restart.
    pub fn cancel(&mut self)
        ensures
            final(self).cancelled,
            final(self).delay_ms == old(self).delay_ms,
    {
        self.cancelled = true;
    }

    /// Whether the restart is due, `elapsed_ms` after it was scheduled.
    pub fn should_fire(&self, elapsed_ms: u64) -> (r: bool)
        ensures
            r == (!self.cancelled && elapsed_ms >= self.delay_ms),
    {
        !self.cancelled && elapsed_ms >= self.delay_ms
    }
}

} // verus!
