//! Countdown timers, as the engine's `Timer` runs them.
//!
//! A [`TimerState`] holds, as plain integers, everything an engine timer
//! keeps between ticks: its length, how far it has run, whether it repeats,
//! and what the last tick reported. Ticking goes through the engine's own
//! `Timer::tick`; the crate states what that tick does and proves the
//! rules of the game on top of it.

use bevy::time::Timer;
use bevy::time::TimerMode as EngineTimerMode;
use vstd::arithmetic::div_mod::lemma_fundamental_div_mod;
use vstd::arithmetic::div_mod::lemma_hoist_over_denominator;
use vstd::arithmetic::div_mod::lemma_mod_multiples_vanish;
use vstd::prelude::*;

verus! {

/// Whether a timer stops at its end or starts over.
#[derive(Clone, Copy, Debug, PartialEq, Eq, Structural)]
pub enum TimerMode {
    /// Runs once and then stays finished.
    Once,
    /// Wraps around each time its length is reached.
    Repeating,
}

/// The mathematical picture of a timer; all times in nanoseconds.
pub struct TimerView {
    pub duration: nat,
    pub elapsed: nat,
    pub mode: TimerMode,
    pub finished: bool,
    pub just_finished: bool,
    pub times_finished: nat,
}

/// Sum of a sequence of tick lengths.
pub open spec fn total_time(deltas: Seq<nat>) -> nat
    decreases deltas.len(),
{
    if deltas.len() == 0 {
        0
    } else {
        deltas[0] + total_time(deltas.drop_first())
    }
}

impl TimerView {
    /// The states a timer can be in after it was made with a positive length
    /// and ticked any number of times.
    pub open spec fn wf(self) -> bool {
        &&& self.duration > 0
        &&& self.just_finished == (self.times_finished > 0)
        &&& match self.mode {
            TimerMode::Once => {
                &&& self.elapsed <= self.duration
                &&& self.finished == (self.elapsed == self.duration)
                &&& self.times_finished <= 1
            },
            TimerMode::Repeating => self.elapsed < self.duration,
        }
    }

    /// One tick of `delta` nanoseconds. A one-shot timer clamps at its end
    /// and, once finished, reports nothing more; a repeating timer wraps
    /// around and reports how many times it passed its end.
    pub open spec fn tick(self, delta: nat) -> TimerView {
        let t: nat = self.elapsed + delta;
        match self.mode {
            TimerMode::Once => if self.finished {
                TimerView { just_finished: false, times_finished: 0, ..self }
            } else if t >= self.duration {
                TimerView {
                    elapsed: self.duration,
                    finished: true,
                    just_finished: true,
                    times_finished: 1,
                    ..self
                }
            } else {
                TimerView {
                    elapsed: t,
                    finished: false,
                    just_finished: false,
                    times_finished: 0,
                    ..self
                }
            },
            TimerMode::Repeating => TimerView {
                elapsed: t % self.duration,
                finished: t >= self.duration,
                just_finished: t >= self.duration,
                times_finished: t / self.duration,
                ..self
            },
        }
    }

    /// The timer after a run of ticks, in order.
    pub open spec fn run(self, deltas: Seq<nat>) -> TimerView
        decreases deltas.len(),
    {
        if deltas.len() == 0 {
            self
        } else {
            self.tick(deltas[0]).run(deltas.drop_first())
        }
    }

    /// How many times the timer reports finishing over a run of ticks.
    pub open spec fn fired(self, deltas: Seq<nat>) -> nat
        decreases deltas.len(),
    {
        if deltas.len() == 0 {
            0
        } else {
            self.tick(deltas[0]).times_finished + self.tick(deltas[0]).fired(deltas.drop_first())
        }
    }

    /// How many ticks of a run report at least one finish (`just_finished`).
    pub open spec fn frames_fired(self, deltas: Seq<nat>) -> nat
        decreases deltas.len(),
    {
        if deltas.len() == 0 {
            0
        } else {
            (if self.tick(deltas[0]).just_finished { 1nat } else { 0nat }) + self.tick(
                deltas[0],
            ).frames_fired(deltas.drop_first())
        }
    }

    /// Whether the tick at position `k` of a run reports a finish.
    pub open spec fn reports_at(self, deltas: Seq<nat>, k: int) -> bool {
        self.run(deltas.take(k)).tick(deltas[k]).just_finished
    }
}

/// An engine timer held as plain values; all times in nanoseconds.
#[derive(Clone, Copy, Debug)]
pub struct TimerState {
    duration_nanos: u64,
    elapsed_nanos: u64,
    mode: TimerMode,
    finished: bool,
    just_finished: bool,
    times_finished_this_tick: u32,
}

impl View for TimerState {
    type V = TimerView;

    closed spec fn view(&self) -> TimerView {
        TimerView {
            duration: self.duration_nanos as nat,
            elapsed: self.elapsed_nanos as nat,
            mode: self.mode,
            finished: self.finished,
            just_finished: self.just_finished,
            times_finished: self.times_finished_this_tick as nat,
        }
    }
}

/// What a tick of `delta` nanoseconds needs: the new elapsed time fits in
/// a `u64`, and a repeating timer does not pass its end `2^32` times or more
/// in one tick (the engine would cut the count to 32 bits).
pub open spec fn tick_fits(v: TimerView, delta: nat) -> bool {
    &&& v.elapsed + delta <= u64::MAX
    &&& (v.mode == TimerMode::Repeating ==> v.elapsed + delta < v.duration * 0x1_0000_0000)
}

/// Ticks an engine `Timer` (`bevy::time::Timer::tick`) that is rebuilt from
/// `state`, and reads the result back.
///
/// Claimed of the engine, from its source: a one-shot timer that has
/// finished only clears its report; otherwise the elapsed time grows by
/// `delta`, a one-shot timer clamps at its length and reports one finish
/// when it gets there, and a repeating timer keeps the remainder modulo its
/// length and reports the quotient. `just_finished` is whether that count
/// is positive.
///
/// The rebuilt timer gets the saved length, mode and elapsed time; a first
/// tick of zero length restores the engine's finished flag, which for the
/// states allowed here is set exactly when a one-shot timer has reached its
/// end, and which is then reported as not newly finished.
#[verifier::external_body]
fn engine_tick(state: &TimerState, delta_nanos: u64) -> (next: TimerState)
    requires
        state@.wf(),
        tick_fits(state@, delta_nanos as nat),
    ensures
        next@ == state@.tick(delta_nanos as nat),
{
    let mode = match state.mode {
        TimerMode::Once => EngineTimerMode::Once,
        TimerMode::Repeating => EngineTimerMode::Repeating,
    };
    let mut timer = Timer::new(std::time::Duration::from_nanos(state.duration_nanos), mode);
    timer.set_elapsed(std::time::Duration::from_nanos(state.elapsed_nanos));
    timer.tick(std::time::Duration::ZERO);
    timer.tick(std::time::Duration::from_nanos(delta_nanos));
    TimerState {
        elapsed_nanos: timer.elapsed().as_nanos() as u64,
        finished: timer.finished(),
        just_finished: timer.just_finished(),
        times_finished_this_tick: timer.times_finished_this_tick(),
        ..*state
    }
}

impl TimerState {
    /// Every timer is in a state that ticking can reach.
    #[verifier::type_invariant]
    spec fn inv(self) -> bool {
        self@.wf()
    }

    /// A fresh timer of the given length (`Timer::new`): nothing elapsed,
    /// not finished, nothing reported.
    ///
    /// The length must be positive: the engine cannot tick a repeating timer
    /// of length zero, and a one-shot timer of length zero that has not yet
    /// been ticked cannot be told apart, in plain values, from one that has.
    pub fn new(duration_nanos: u64, mode: TimerMode) -> (timer: TimerState)
        requires
            duration_nanos > 0,
        ensures
            timer@ == (TimerView {
                duration: duration_nanos as nat,
                elapsed: 0,
                mode: mode,
                finished: false,
                just_finished: false,
                times_finished: 0,
            }),
            timer@.wf(),
    {
        TimerState {
            duration_nanos,
            elapsed_nanos: 0,
            mode,
            finished: false,
            just_finished: false,
            times_finished_this_tick: 0,
        }
    }

    /// Whether a tick of `delta_nanos` may be taken (see [`tick_fits`]).
    pub fn can_tick(&self, delta_nanos: u64) -> (ok: bool)
        ensures
            ok == tick_fits(self@, delta_nanos as nat),
    {
        if delta_nanos > u64::MAX - self.elapsed_nanos {
            return false;
        }
        match self.mode {
            TimerMode::Once => true,
            TimerMode::Repeating => {
                let t: u64 = self.elapsed_nanos + delta_nanos;
                let bound: u128 = (self.duration_nanos as u128) * 0x1_0000_0000u128;
                (t as u128) < bound
            },
        }
    }

    /// Advances the timer by `delta_nanos` nanoseconds.
    pub fn tick(&mut self, delta_nanos: u64)
        requires
            tick_fits(old(self)@, delta_nanos as nat),
        ensures
            final(self)@ == old(self)@.tick(delta_nanos as nat),
            old(self)@.wf(),
            final(self)@.wf(),
    {
        proof {
            use_type_invariant(&*self);
            lemma_tick_keeps_wf(self@, delta_nanos as nat);
        }
        *self = engine_tick(self, delta_nanos);
    }

    /// Whether the last tick reached the end of the timer.
    pub fn just_finished(&self) -> (b: bool)
        ensures
            b == self@.just_finished,
    {
        self.just_finished
    }

    /// Whether the timer has reached its end (for a repeating timer: on the
    /// last tick).
    pub fn finished(&self) -> (b: bool)
        ensures
            b == self@.finished,
    {
        self.finished
    }

    /// How many times the last tick passed the end of the timer.
    pub fn times_finished_this_tick(&self) -> (n: u32)
        ensures
            n == self@.times_finished,
    {
        self.times_finished_this_tick
    }

    /// Time run so far, in nanoseconds.
    pub fn elapsed_nanos(&self) -> (n: u64)
        ensures
            n == self@.elapsed,
    {
        self.elapsed_nanos
    }

    /// Length of the timer, in nanoseconds.
    pub fn duration_nanos(&self) -> (n: u64)
        ensures
            n == self@.duration,
    {
        self.duration_nanos
    }

    /// Whether the timer repeats.
    pub fn mode(&self) -> (m: TimerMode)
        ensures
            m == self@.mode,
    {
        self.mode
    }
}

/// A tick keeps a timer in the states that ticking can reach.
pub proof fn lemma_tick_keeps_wf(v: TimerView, delta: nat)
    requires
        v.wf(),
    ensures
        v.tick(delta).wf(),
{
    let t: nat = v.elapsed + delta;
    if v.mode == TimerMode::Repeating {
        lemma_fundamental_div_mod(t as int, v.duration as int);
        assert(t >= v.duration ==> t / v.duration > 0) by (nonlinear_arith)
            requires
                v.duration > 0,
        ;
        assert(t < v.duration ==> t / v.duration == 0) by (nonlinear_arith)
            requires
                v.duration > 0,
        ;
    }
}

/// A one-shot timer that has finished stays finished and reports nothing
/// more, however it is ticked.
pub proof fn lemma_finished_once_timer_is_silent(v: TimerView, deltas: Seq<nat>)
    requires
        v.wf(),
        v.mode == TimerMode::Once,
        v.finished,
    ensures
        v.fired(deltas) == 0,
        v.run(deltas).finished,
        v.run(deltas).elapsed == v.duration,
        v.run(deltas).mode == TimerMode::Once,
        v.run(deltas).wf(),
    decreases deltas.len(),
{
    if deltas.len() > 0 {
        lemma_tick_keeps_wf(v, deltas[0]);
        lemma_finished_once_timer_is_silent(v.tick(deltas[0]), deltas.drop_first());
    }
}

/// Splitting off the first tick of a run: the time of its first `k + 1`
/// ticks is the first tick plus the time of the next `k`.
proof fn lemma_total_time_take(deltas: Seq<nat>, k: int)
    requires
        0 <= k < deltas.len(),
    ensures
        total_time(deltas.take(k + 1)) == deltas[0] + total_time(deltas.drop_first().take(k)),
        deltas.take(k + 1).drop_first() == deltas.drop_first().take(k),
{
    assert(deltas.take(k + 1).drop_first() =~= deltas.drop_first().take(k));
}

/// Which tick of a run a one-shot timer reports its finish on: exactly the
/// first tick that takes it to its end. No tick before it reports, and none
/// after it either.
pub proof fn lemma_once_timer_reports_first_reaching_tick(v: TimerView, deltas: Seq<nat>, k: int)
    requires
        v.wf(),
        v.mode == TimerMode::Once,
        !v.finished,
        0 <= k < deltas.len(),
    ensures
        v.reports_at(deltas, k) <==> (v.elapsed + total_time(deltas.take(k)) < v.duration
            && v.elapsed + total_time(deltas.take(k + 1)) >= v.duration),
    decreases k,
{
    let d0: nat = deltas[0];
    let v1: TimerView = v.tick(d0);
    let rest: Seq<nat> = deltas.drop_first();
    lemma_tick_keeps_wf(v, d0);
    lemma_total_time_take(deltas, k);
    if k == 0 {
        assert(deltas.take(0) =~= Seq::<nat>::empty());
        assert(rest.take(0) =~= Seq::<nat>::empty());
    } else {
        lemma_total_time_take(deltas, k - 1);
        assert(deltas.take(k)[0] == d0);
        assert(v.run(deltas.take(k)) == v1.run(rest.take(k - 1)));
        assert(deltas[k] == rest[k - 1]);
        assert(v.reports_at(deltas, k) == v1.reports_at(rest, k - 1));
        if v1.finished {
            lemma_finished_once_timer_is_silent(v1, rest.take(k - 1));
        } else {
            lemma_once_timer_reports_first_reaching_tick(v1, rest, k - 1);
        }
    }
}

/// A one-shot timer that has not finished reports finishing exactly once
/// over a run of ticks if the run takes it to its end, and never otherwise;
/// it is finished at the end of the run exactly in the first case.
pub proof fn lemma_once_timer_fires_once(v: TimerView, deltas: Seq<nat>)
    requires
        v.wf(),
        v.mode == TimerMode::Once,
        !v.finished,
    ensures
        v.fired(deltas) == (if v.elapsed + total_time(deltas) >= v.duration { 1nat } else { 0nat }),
        v.run(deltas).finished == (v.elapsed + total_time(deltas) >= v.duration),
    decreases deltas.len(),
{
    if deltas.len() > 0 {
        let next: TimerView = v.tick(deltas[0]);
        lemma_tick_keeps_wf(v, deltas[0]);
        if next.finished {
            lemma_finished_once_timer_is_silent(next, deltas.drop_first());
        } else {
            lemma_once_timer_fires_once(next, deltas.drop_first());
        }
    }
}

/// A repeating timer reports, over a run of ticks, as many finishes as its
/// length fits into the time run, and keeps the rest as its elapsed time.
pub proof fn lemma_repeating_timer_counts_periods(v: TimerView, deltas: Seq<nat>)
    requires
        v.wf(),
        v.mode == TimerMode::Repeating,
    ensures
        v.fired(deltas) == (v.elapsed + total_time(deltas)) / v.duration,
        v.run(deltas).elapsed == (v.elapsed + total_time(deltas)) % v.duration,
        v.run(deltas).mode == TimerMode::Repeating,
    decreases deltas.len(),
{
    let d: int = v.duration as int;
    if deltas.len() == 0 {
        lemma_fundamental_div_mod(v.elapsed as int, d);
        assert((v.elapsed as int) / d == 0 && (v.elapsed as int) % d == v.elapsed as int) by (nonlinear_arith)
            requires
                0 <= v.elapsed < d,
        {
            vstd::arithmetic::div_mod::lemma_fundamental_div_mod_converse(v.elapsed as int, d, 0, v.elapsed as int);
        }
    } else {
        let next: TimerView = v.tick(deltas[0]);
        let rest: Seq<nat> = deltas.drop_first();
        lemma_tick_keeps_wf(v, deltas[0]);
        lemma_repeating_timer_counts_periods(next, rest);
        let a: int = (v.elapsed + deltas[0]) as int;
        let q: int = a / d;
        let r: int = a % d;
        let big_r: int = total_time(rest) as int;
        lemma_fundamental_div_mod(a, d);
        lemma_hoist_over_denominator(r + big_r, q, d as nat);
        lemma_mod_multiples_vanish(q, r + big_r, d);
        assert(r + big_r + q * d == a + big_r) by (nonlinear_arith)
            requires
                a == d * q + r,
        ;
        assert(d * q + (r + big_r) == a + big_r) by (nonlinear_arith)
            requires
                a == d * q + r,
        ;
    }
}

/// Over a run of ticks of a repeating timer, the ticks that report a finish
/// are no more than the finishes it reports, and at least one if it reports
/// any; when every tick is shorter than the timer, each such tick reports
/// exactly one finish, so the two counts agree.
pub proof fn lemma_repeating_frames_fired(v: TimerView, deltas: Seq<nat>)
    requires
        v.wf(),
        v.mode == TimerMode::Repeating,
    ensures
        v.frames_fired(deltas) <= v.fired(deltas),
        v.fired(deltas) > 0 ==> v.frames_fired(deltas) >= 1,
        (forall|i: int| 0 <= i < deltas.len() ==> #[trigger] deltas[i] < v.duration) ==> v.frames_fired(
            deltas,
        ) == v.fired(deltas),
    decreases deltas.len(),
{
    if deltas.len() > 0 {
        let d0: nat = deltas[0];
        let v1: TimerView = v.tick(d0);
        let rest: Seq<nat> = deltas.drop_first();
        lemma_tick_keeps_wf(v, d0);
        lemma_repeating_frames_fired(v1, rest);
        if forall|i: int| 0 <= i < deltas.len() ==> #[trigger] deltas[i] < v.duration {
            assert forall|i: int| 0 <= i < rest.len() implies #[trigger] rest[i] < v1.duration by {
                assert(rest[i] == deltas[i + 1]);
            }
            assert(d0 < v.duration);
            assert((v.elapsed + d0) / v.duration <= 1) by (nonlinear_arith)
                requires
                    v.elapsed < v.duration,
                    d0 < v.duration,
            ;
        }
    }
}

} // verus!
