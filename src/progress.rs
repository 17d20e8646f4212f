use vstd::prelude::*;

verus! {

/// Statistics of one run, shown on the status panel.
pub struct Progress {
    /// Wall-clock time at which the run started, in milliseconds since the Unix epoch.
    pub start_time_ms: u128,
    /// The skill's experience when the run started.
    pub start_exp: i32,
    /// What the script is doing, in words.
    pub status: String,
}

impl Progress {
    /// Experience gained since the start, for a current experience of `current_exp`.
    pub open spec fn gained(&self, current_exp: int) -> int {
        current_exp - self.start_exp
    }

    /// Milliseconds since the start; a clock that reads earlier than the start gives 0.
    pub open spec fn elapsed(&self, now_ms: int) -> int {
        if now_ms >= self.start_time_ms {
            now_ms - self.start_time_ms
        } else {
            0
        }
    }

    /// Statistics of a run that has not started yet.
    pub fn new() -> (r: Progress)
        ensures
            r.start_time_ms == 0,
            r.start_exp == 0,
            r.status@ == Seq::<char>::empty(),
    {
        Progress { start_time_ms: 0, start_exp: 0, status: String::new() }
    }

    /// Starts the run at `now_ms` with the skill at `current_exp`.
    pub fn start(&mut self, now_ms: u128, current_exp: i32)
        ensures
            final(self).start_time_ms == now_ms,
            final(self).start_exp == current_exp,
            final(self).status@ == "Started"@,
    {
        self.start_time_ms = now_ms;
        self.start_exp = current_exp;
        self.set_status("Started");
    }

    /// Replaces the status label; the start of the run stays as it was.
    pub fn set_status(&mut self, status: &str)
        ensures
            final(self).status@ == status@,
            final(self).start_time_ms == old(self).start_time_ms,
            final(self).start_exp == old(self).start_exp,
    {
        self.status = status.to_owned();
    }

    /// Experience gained since the start.
    pub fn experience_gained(&self, current_exp: i32) -> (r: i64)
        ensures
            r == self.gained(current_exp as int),
    {
        current_exp as i64 - self.start_exp as i64
    }

    /// Milliseconds since the start of the run.
    pub fn elapsed_ms(&self, now_ms: u128) -> (r: u128)
        ensures
            r == self.elapsed(now_ms as int),
    {
        if now_ms >= self.start_time_ms {
            now_ms - self.start_time_ms
        } else {
            0
        }
    }
}

/// The experience gained is the current experience less the starting one; while
/// the skill's experience does not fall below its starting value and does not
/// decrease, the gain is never negative and never decreases.
pub proof fn lemma_experience_gained_monotonic(p: Progress, earlier: int, later: int)
    requires
        p.start_exp <= earlier <= later,
    ensures
        p.gained(earlier) == earlier - p.start_exp,
        0 <= p.gained(earlier) <= p.gained(later),
{
}

} // verus!
