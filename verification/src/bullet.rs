//! Bullets: how long they live.

use crate::common::Lifetime;
use crate::timer::{tick_fits, TimerMode, TimerState, TimerView};
use vstd::prelude::*;

verus! {

/// How long a bullet lives: 1000.5 seconds, in nanoseconds.
pub const BULLET_LIFETIME_NANOS: u64 = 1_000_500_000_000u64;

/// The timer a fresh bullet starts with.
pub open spec fn fresh_bullet_timer() -> TimerView {
    TimerView {
        duration: BULLET_LIFETIME_NANOS as nat,
        elapsed: 0,
        mode: TimerMode::Once,
        finished: false,
        just_finished: false,
        times_finished: 0,
    }
}

/// The lifetime a fresh bullet gets: a one-shot timer of
/// [`BULLET_LIFETIME_NANOS`].
pub fn bullet_lifetime() -> (lifetime: Lifetime)
    ensures
        lifetime.timer@ == fresh_bullet_timer(),
{
    Lifetime { timer: TimerState::new(BULLET_LIFETIME_NANOS, TimerMode::Once) }
}

/// One frame of a bullet's life: its lifetime runs on by `delta_nanos`, and
/// the bullet is to be despawned exactly when that tick reached its end.
pub fn bullet_despawn(lifetime: &mut Lifetime, delta_nanos: u64) -> (despawn: bool)
    requires
        tick_fits(old(lifetime).timer@, delta_nanos as nat),
    ensures
        final(lifetime).timer@ == old(lifetime).timer@.tick(delta_nanos as nat),
        despawn == final(lifetime).timer@.just_finished,
{
    lifetime.timer.tick(delta_nanos);
    lifetime.timer.just_finished()
}

/// Over any run of frames, a fresh bullet is despawned once if the frames
/// add up to its lifetime, and never otherwise.
pub proof fn lemma_bullet_despawned_once(deltas: Seq<nat>)
    ensures
        fresh_bullet_timer().fired(deltas) == (if crate::timer::total_time(deltas)
            >= BULLET_LIFETIME_NANOS { 1nat } else { 0nat }),
{
    crate::timer::lemma_once_timer_fires_once(fresh_bullet_timer(), deltas);
}


/// Over any run of frames, a fresh bullet is despawned in frame `k` exactly
/// when frame `k` is the first whose end reaches its lifetime: no frame
/// before it despawns the bullet, and no frame after it does.
pub proof fn lemma_bullet_despawned_in_first_reaching_frame(deltas: Seq<nat>, k: int)
    requires
        0 <= k < deltas.len(),
    ensures
        fresh_bullet_timer().reports_at(deltas, k) <==> (crate::timer::total_time(deltas.take(k))
            < BULLET_LIFETIME_NANOS && crate::timer::total_time(deltas.take(k + 1))
            >= BULLET_LIFETIME_NANOS),
{
    crate::timer::lemma_once_timer_reports_first_reaching_tick(fresh_bullet_timer(), deltas, k);
}

} // verus!
