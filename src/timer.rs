use vstd::prelude::*;
use vstd::arithmetic::div_mod::{
    lemma_fundamental_div_mod, lemma_hoist_over_denominator, lemma_mod_add_multiples_vanish,
    lemma_mod_multiples_vanish,
};

verus! {

/// Nanoseconds in one second; timers and frames count time in nanoseconds.
pub const NANOS_PER_SECOND: u64 = 1_000_000_000;

/// Whether a timer fires once or every time its duration has elapsed.
#[derive(Clone, Copy, Debug, PartialEq, Eq, Structural)]
pub enum TimerMode {
    Once,
    Repeating,
}

/// What one `tick` reports.
#[derive(Clone, Copy, Debug, PartialEq, Eq, Structural)]
pub enum FireEvent {
    Idle,
    JustFinished,
}

/// The mathematical state of a timer.
pub ghost struct TimerView {
    pub mode: TimerMode,
    pub duration: nat,
    pub elapsed: nat,
}

impl TimerView {
    /// A positive duration; a one-shot timer never runs past it, a repeating
    /// one always stays below it.
    pub open spec fn wf(self) -> bool {
        &&& self.duration > 0
        &&& match self.mode {
            TimerMode::Once => self.elapsed <= self.duration,
            TimerMode::Repeating => self.elapsed < self.duration,
        }
    }

    /// The state after `d` more nanoseconds, and whether that tick finished the timer.
    pub open spec fn tick_spec(self, d: nat) -> (TimerView, bool) {
        match self.mode {
            TimerMode::Once => {
                if self.elapsed == self.duration {
                    (self, false)
                } else if self.elapsed + d >= self.duration {
                    (TimerView { elapsed: self.duration, ..self }, true)
                } else {
                    (TimerView { elapsed: self.elapsed + d, ..self }, false)
                }
            },
            TimerMode::Repeating => {
                if self.elapsed + d >= self.duration {
                    (TimerView { elapsed: (self.elapsed + d) % self.duration, ..self }, true)
                } else {
                    (TimerView { elapsed: self.elapsed + d, ..self }, false)
                }
            },
        }
    }
}

/// Runs `ticks` in order; gives the final state and how many ticks reported a finish.
pub open spec fn run_ticks(t: TimerView, ticks: Seq<nat>) -> (TimerView, nat)
    decreases ticks.len(),
{
    if ticks.len() == 0 {
        (t, 0)
    } else {
        let (t1, fired) = t.tick_spec(ticks[0]);
        let (t2, n) = run_ticks(t1, ticks.drop_first());
        (t2, n + if fired { 1nat } else { 0nat })
    }
}

/// The sum of a sequence of time steps.
pub open spec fn total_time(ticks: Seq<nat>) -> nat
    decreases ticks.len(),
{
    if ticks.len() == 0 {
        0
    } else {
        ticks[0] + total_time(ticks.drop_first())
    }
}

/// A countdown timer over nanoseconds.
#[derive(Clone, Copy, Debug)]
pub struct Timer {
    mode: TimerMode,
    duration: u64,
    elapsed: u64,
}

impl View for Timer {
    type V = TimerView;

    closed spec fn view(&self) -> TimerView {
        TimerView { mode: self.mode, duration: self.duration as nat, elapsed: self.elapsed as nat }
    }
}

impl Timer {
    pub open spec fn wf(&self) -> bool {
        self@.wf()
    }

    /// A fresh timer of `duration` nanoseconds; a zero duration is refused.
    pub fn new(duration: u64, mode: TimerMode) -> (r: Option<Timer>)
        ensures
            duration == 0 <==> r is None,
            r matches Some(t) ==> t.wf() && t@ == (TimerView {
                mode,
                duration: duration as nat,
                elapsed: 0,
            }),
    {
        if duration == 0 {
            None
        } else {
            Some(Timer::with_duration(duration, mode))
        }
    }

    /// A fresh timer of `duration` nanoseconds, which must be positive.
    pub fn with_duration(duration: u64, mode: TimerMode) -> (r: Timer)
        requires
            duration > 0,
        ensures
            r.wf(),
            r@ == (TimerView { mode, duration: duration as nat, elapsed: 0 }),
    {
        Timer { mode, duration, elapsed: 0 }
    }

    /// Advances the timer by `delta` nanoseconds. A one-shot timer reports
    /// `JustFinished` on the tick that reaches its duration and never again; a
    /// repeating one keeps the remainder and reports at most once per tick.
    pub fn tick(&mut self, delta: u64) -> (r: FireEvent)
        requires
            old(self).wf(),
        ensures
            final(self).wf(),
            (final(self)@, r == FireEvent::JustFinished) == old(self)@.tick_spec(delta as nat),
    {
        let start = self.elapsed;
        let rem = self.duration - start;
        match self.mode {
            TimerMode::Once => {
                if rem == 0 {
                    FireEvent::Idle
                } else if delta >= rem {
                    self.elapsed = self.duration;
                    FireEvent::JustFinished
                } else {
                    self.elapsed = self.elapsed + delta;
                    FireEvent::Idle
                }
            },
            TimerMode::Repeating => {
                if delta >= rem {
                    let over = delta - rem;
                    self.elapsed = over % self.duration;
                    proof {
                        lemma_mod_add_multiples_vanish(over as int, self.duration as int);
                        assert(start + delta == self.duration + over);
                    }
                    FireEvent::JustFinished
                } else {
                    self.elapsed = self.elapsed + delta;
                    FireEvent::Idle
                }
            },
        }
    }

    /// Starts the timer over from zero.
    pub fn reset(&mut self)
        requires
            old(self).wf(),
        ensures
            final(self).wf(),
            final(self)@ == (TimerView { elapsed: 0, ..old(self)@ }),
    {
        self.elapsed = 0;
    }

    /// The duration in nanoseconds.
    pub fn duration(&self) -> (r: u64)
        ensures
            r as nat == self@.duration,
    {
        self.duration
    }

    /// Nanoseconds elapsed since the start or the last finish.
    pub fn elapsed(&self) -> (r: u64)
        ensures
            r as nat == self@.elapsed,
    {
        self.elapsed
    }

    /// The timer's mode.
    pub fn mode(&self) -> (r: TimerMode)
        ensures
            r == self@.mode,
    {
        self.mode
    }
}

/// Over any run of ticks, a repeating timer of duration D reports a finish at
/// most floor((elapsed + total) / D) times, and exactly that many when no
/// single tick is longer than D; what is left over stays on the timer.
pub proof fn lemma_repeating_fire_count(t: TimerView, ticks: Seq<nat>)
    requires
        t.wf(),
        t.mode == TimerMode::Repeating,
    ensures
        run_ticks(t, ticks).1 <= (t.elapsed + total_time(ticks)) / t.duration,
        (forall|i: int| 0 <= i < ticks.len() ==> ticks[i] <= t.duration) ==> run_ticks(t, ticks).1
            == (t.elapsed + total_time(ticks)) / t.duration,
        run_ticks(t, ticks).0.elapsed == (t.elapsed + total_time(ticks)) % t.duration,
        run_ticks(t, ticks).0.wf(),
        run_ticks(t, ticks).0.mode == TimerMode::Repeating,
    decreases ticks.len(),
{
    let dur = t.duration as int;
    let e = t.elapsed as int;
    if ticks.len() == 0 {
        lemma_fundamental_div_mod(e, dur);
        assert(e / dur == 0) by (nonlinear_arith)
            requires e == dur * (e / dur) + e % dur, 0 <= e % dur < dur, 0 <= e < dur;
        assert(e % dur == e) by (nonlinear_arith)
            requires e == dur * (e / dur) + e % dur, e / dur == 0;
    } else {
        let d = ticks[0] as int;
        let rest = ticks.drop_first();
        let (t1, fired) = t.tick_spec(ticks[0]);
        lemma_repeating_fire_count(t1, rest);
        let s = total_time(rest) as int;
        let q = (e + d) / dur;
        let r = (e + d) % dur;
        lemma_fundamental_div_mod(e + d, dur);
        assert(0 <= r < dur);
        assert(q >= 0) by (nonlinear_arith)
            requires e + d == dur * q + r, 0 <= r < dur, e + d >= 0, dur > 0;
        assert(fired <==> q >= 1) by (nonlinear_arith)
            requires e + d == dur * q + r, 0 <= r < dur, dur > 0, fired <==> e + d >= dur, q >= 0;
        assert(t1.elapsed == r) by {
            if !fired {
                assert(q == 0) by (nonlinear_arith)
                    requires e + d == dur * q + r, 0 <= r < dur, dur > 0, q >= 0, e + d < dur;
                assert(r == e + d) by (nonlinear_arith)
                    requires e + d == dur * q + r, q == 0;
            }
        }
        lemma_hoist_over_denominator(r + s, q, dur as nat);
        assert(e + d + s == (r + s) + q * dur) by (nonlinear_arith)
            requires e + d == dur * q + r;
        lemma_mod_multiples_vanish(q, r + s, dur);
        assert(dur * q + (r + s) == e + d + s) by (nonlinear_arith)
            requires e + d == dur * q + r;
        if forall|i: int| 0 <= i < ticks.len() ==> ticks[i] <= t.duration {
            assert(forall|i: int| 0 <= i < rest.len() ==> rest[i] <= t1.duration) by {
                assert forall|i: int| 0 <= i < rest.len() implies rest[i] <= t1.duration by {
                    assert(rest[i] == ticks[i + 1]);
                }
            }
            assert(ticks[0] <= t.duration);
            assert(q <= 1) by (nonlinear_arith)
                requires e + d == dur * q + r, 0 <= r < dur, dur > 0, e < dur, d <= dur;
        }
    }
}

} // verus!
