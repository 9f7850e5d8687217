//! Targets: their starting health, when they spawn and when they die.

use crate::common::Health;
use crate::timer::{
    lemma_repeating_frames_fired, lemma_repeating_timer_counts_periods, tick_fits, total_time,
    TimerMode, TimerState, TimerView,
};
use vstd::prelude::*;

verus! {

/// Health a target starts with.
pub const TARGET_HEALTH: i32 = 3i32;

/// Time between two target spawns: 2 seconds, in nanoseconds.
pub const TARGET_SPAWN_PERIOD_NANOS: u64 = 2_000_000_000u64;

/// The health of a freshly spawned target.
pub fn target_health() -> (h: Health)
    ensures
        h.value == TARGET_HEALTH,
{
    Health { value: TARGET_HEALTH }
}

/// The timer a fresh spawner starts with.
pub open spec fn fresh_spawn_timer() -> TimerView {
    TimerView {
        duration: TARGET_SPAWN_PERIOD_NANOS as nat,
        elapsed: 0,
        mode: TimerMode::Repeating,
        finished: false,
        just_finished: false,
        times_finished: 0,
    }
}

/// The spawner's timer: repeating, every [`TARGET_SPAWN_PERIOD_NANOS`].
pub fn target_spawn_timer() -> (timer: TimerState)
    ensures
        timer@ == fresh_spawn_timer(),
{
    TimerState::new(TARGET_SPAWN_PERIOD_NANOS, TimerMode::Repeating)
}

/// One frame of the spawner: its timer runs on by `delta_nanos`, and a
/// target is to be spawned exactly when that tick reached the timer's end.
pub fn spawn_target(timer: &mut TimerState, delta_nanos: u64) -> (spawn: bool)
    requires
        tick_fits(old(timer)@, delta_nanos as nat),
    ensures
        final(timer)@ == old(timer)@.tick(delta_nanos as nat),
        spawn == final(timer)@.just_finished,
{
    timer.tick(delta_nanos);
    timer.just_finished()
}

/// The positions in `healths` of the targets that are dead, in increasing
/// order: exactly those whose health is zero or below.
pub fn target_death(healths: &Vec<Health>) -> (dead: Vec<usize>)
    ensures
        forall|k: int| 0 <= k < dead.len() ==> #[trigger] dead[k] < healths.len() && healths[dead[k] as int].value <= 0,
        forall|k: int, l: int| 0 <= k < l < dead.len() ==> dead[k] < dead[l],
        forall|i: int| 0 <= i < healths.len() && #[trigger] healths[i].value <= 0 ==> dead@.contains(i as usize),
        forall|i: int| 0 <= i < healths.len() && #[trigger] healths[i].value > 0 ==> !dead@.contains(i as usize),
{
    let mut dead: Vec<usize> = Vec::new();
    let mut i: usize = 0;
    while i < healths.len()
        invariant
            i <= healths.len(),
            forall|k: int| 0 <= k < dead.len() ==> #[trigger] dead[k] < i && healths[dead[k] as int].value <= 0,
            forall|k: int, l: int| 0 <= k < l < dead.len() ==> dead[k] < dead[l],
            forall|j: int| 0 <= j < i && #[trigger] healths[j].value <= 0 ==> dead@.contains(j as usize),
        decreases healths.len() - i,
    {
        let ghost before: Seq<usize> = dead@;
        if healths[i].value <= 0 {
            dead.push(i);
        }
        assert forall|j: int| 0 <= j <= i && #[trigger] healths[j].value <= 0 implies dead@.contains(
            j as usize,
        ) by {
            if j < i {
                let k: int = choose|k: int| 0 <= k < before.len() && before[k] == j as usize;
                assert(dead@[k] == j as usize);
            } else {
                assert(dead@[dead.len() - 1] == j as usize);
            }
        }
        i = i + 1;
    }
    dead
}


/// Over any run of frames from a fresh spawner, targets spawn in at most as
/// many frames as whole periods have run, in at least one once a period has
/// run, and in exactly as many when every frame is shorter than a period.
pub proof fn lemma_spawner_over_frames(deltas: Seq<nat>)
    ensures
        fresh_spawn_timer().frames_fired(deltas) <= total_time(deltas) / (TARGET_SPAWN_PERIOD_NANOS as nat),
        total_time(deltas) >= TARGET_SPAWN_PERIOD_NANOS ==> fresh_spawn_timer().frames_fired(deltas) >= 1,
        (forall|i: int| 0 <= i < deltas.len() ==> #[trigger] deltas[i] < TARGET_SPAWN_PERIOD_NANOS) ==> fresh_spawn_timer().frames_fired(
            deltas,
        ) == total_time(deltas) / (TARGET_SPAWN_PERIOD_NANOS as nat),
{
    lemma_repeating_timer_counts_periods(fresh_spawn_timer(), deltas);
    lemma_repeating_frames_fired(fresh_spawn_timer(), deltas);
}

} // verus!
