//! The decisions of a read side that ends after a stretch of idleness.
use vstd::prelude::*;

verus! {

/// What a read does first.
#[derive(Debug, Clone, Copy, PartialEq, Eq, Structural)]
pub enum IdleDecision {
    /// The stream has timed out: the read fails with a timeout and reads nothing.
    TimedOut,
    /// Read from the inner stream.
    Read,
}

/// Whether a read side has timed out for idleness. Timing out is final.
#[derive(Debug, Clone, Copy)]
pub struct IdleReadState {
    pub timed_out: bool,
}

/// Whether the stream has timed out after a read attempt that saw the timer as `expired`.
pub open spec fn idle_next(timed_out: bool, expired: bool) -> bool {
    timed_out || expired
}

impl IdleReadState {
    /// A read side that has not timed out.
    pub fn new() -> (s: Self)
        ensures
            !s.timed_out,
    {
        IdleReadState { timed_out: false }
    }

    /// Before reading: a stream whose idle timer has run out, now or at an earlier read, fails
    /// with a timeout; otherwise it reads.
    pub fn before_read(&mut self, timer_expired: bool) -> (d: IdleDecision)
        ensures
            final(self).timed_out == idle_next(old(self).timed_out, timer_expired),
            d == (if final(self).timed_out {
                IdleDecision::TimedOut
            } else {
                IdleDecision::Read
            }),
    {
        if timer_expired {
            self.timed_out = true;
        }
        if self.timed_out {
            IdleDecision::TimedOut
        } else {
            IdleDecision::Read
        }
    }
}

/// After a read that completed: the idle timer starts over, with the full timeout, exactly
/// when the read succeeded and the read buffer holds data.
pub fn restarts_idle_timer(read_ok: bool, filled: usize) -> (r: bool)
    ensures
        r == (read_ok && filled > 0),
{
    read_ok && filled > 0
}

/// Whether the stream has timed out after the first `n` read attempts, given what each saw of
/// the timer.
pub open spec fn idle_timed_out_after(start: bool, expired: Seq<bool>, n: nat) -> bool
    decreases n,
{
    if n == 0 {
        start
    } else {
        idle_next(idle_timed_out_after(start, expired, (n - 1) as nat), expired[n - 1])
    }
}

/// Timing out is final: once a read has failed with a timeout, every later read does too,
/// whatever the timer shows then.
pub proof fn law_idle_timeout_is_final(start: bool, expired: Seq<bool>, i: nat, j: nat)
    requires
        i <= j,
        idle_timed_out_after(start, expired, i),
    ensures
        idle_timed_out_after(start, expired, j),
    decreases j - i,
{
    if i < j {
        law_idle_timeout_is_final(start, expired, i, (j - 1) as nat);
    }
}

} // verus!
