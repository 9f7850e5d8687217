//! Towers: when they shoot, and at which target.
//!
//! A tower aims at the target closest to where its bullet appears. The
//! distances are floating-point numbers, compared as the engine's
//! `FloatOrd` compares them: every NaN below every number, all NaNs equal,
//! `-0.0` equal to `0.0`, and numbers otherwise in their usual order. This
//! module works on the 32-bit patterns of those distances: it maps each
//! pattern to an integer rank in that order and picks the first smallest
//! rank, as `Iterator::min_by_key` picks the first smallest key.

use crate::timer::{
    lemma_repeating_frames_fired, lemma_repeating_timer_counts_periods, tick_fits, total_time,
    TimerMode, TimerState, TimerView,
};
use vstd::prelude::*;

verus! {

/// Time between two shots of a tower: 1 second, in nanoseconds.
pub const TOWER_SHOT_PERIOD_NANOS: u64 = 1_000_000_000u64;

/// The timer a fresh tower starts with.
pub open spec fn fresh_tower_timer() -> TimerView {
    TimerView {
        duration: TOWER_SHOT_PERIOD_NANOS as nat,
        elapsed: 0,
        mode: TimerMode::Repeating,
        finished: false,
        just_finished: false,
        times_finished: 0,
    }
}

/// The shooting timer a tower starts with: repeating, every
/// [`TOWER_SHOT_PERIOD_NANOS`].
pub fn tower_shooting_timer() -> (timer: TimerState)
    ensures
        timer@ == fresh_tower_timer(),
{
    TimerState::new(TOWER_SHOT_PERIOD_NANOS, TimerMode::Repeating)
}

/// Whether the sign bit of a 32-bit float pattern is set.
pub open spec fn sign_bit(bits: u32) -> bool {
    bits >= 0x8000_0000
}

/// The pattern without its sign bit.
pub open spec fn magnitude(bits: u32) -> int {
    (bits % 0x8000_0000) as int
}

/// Whether a 32-bit float pattern is a NaN: all exponent bits set and a
/// non-zero fraction, i.e. a magnitude above that of infinity.
pub open spec fn is_nan(bits: u32) -> bool {
    magnitude(bits) > 0x7f80_0000
}

/// The rank of a float pattern: 0 for every NaN; otherwise the magnitude
/// counted down from `2^31` for negative numbers and up from `2^31` for
/// positive ones, so that both zeros share the rank `2^31`.
pub open spec fn float_rank(bits: u32) -> int {
    if is_nan(bits) {
        0
    } else if sign_bit(bits) {
        0x8000_0000 - magnitude(bits)
    } else {
        0x8000_0000 + magnitude(bits)
    }
}

/// Whether `i` is the position of the first smallest rank in `ranks`.
pub open spec fn is_first_min(ranks: Seq<u64>, i: int) -> bool {
    &&& 0 <= i < ranks.len()
    &&& forall|j: int| 0 <= j < ranks.len() ==> ranks[i] <= #[trigger] ranks[j]
    &&& forall|j: int| 0 <= j < i ==> ranks[i] < #[trigger] ranks[j]
}

/// The rank of a distance, given as the bit pattern of an `f32`.
pub fn distance_rank(bits: u32) -> (rank: u64)
    ensures
        rank == float_rank(bits),
        rank == 0 <==> bits % 0x8000_0000 > 0x7f80_0000,
        bits % 0x8000_0000 <= 0x7f80_0000 && bits < 0x8000_0000 ==> rank == 0x8000_0000 + bits,
        bits % 0x8000_0000 <= 0x7f80_0000 && bits >= 0x8000_0000 ==> rank == 0x1_0000_0000 - bits,
{
    let mag: u32 = bits % 0x8000_0000;
    if mag > 0x7f80_0000 {
        0
    } else if bits >= 0x8000_0000 {
        0x8000_0000u64 - mag as u64
    } else {
        0x8000_0000u64 + mag as u64
    }
}

/// The position of the target to aim at: the first of the smallest ranks,
/// or none when there are no targets.
pub fn closest_target(ranks: &Vec<u64>) -> (closest: Option<usize>)
    ensures
        closest.is_none() <==> ranks.len() == 0,
        closest matches Some(i) ==> is_first_min(ranks@, i as int),
        closest matches Some(i) ==> i < ranks.len() && (forall|j: int|
            0 <= j < ranks.len() ==> ranks[i as int] <= #[trigger] ranks[j]) && (forall|j: int|
            0 <= j < i ==> ranks[i as int] < #[trigger] ranks[j]),
{
    if ranks.len() == 0 {
        return None;
    }
    let mut best: usize = 0;
    let mut i: usize = 1;
    while i < ranks.len()
        invariant
            1 <= i <= ranks.len(),
            best < i,
            forall|j: int| 0 <= j < i ==> ranks[best as int] <= #[trigger] ranks[j],
            forall|j: int| 0 <= j < best ==> ranks[best as int] < #[trigger] ranks[j],
        decreases ranks.len() - i,
    {
        if ranks[i] < ranks[best] {
            best = i;
        }
        i = i + 1;
    }
    Some(best)
}

/// One frame of a tower: its timer runs on by `delta_nanos`; when that tick
/// reached the timer's end and there is a target, the tower shoots at the
/// first closest one, whose position is returned.
pub fn tower_shooting(timer: &mut TimerState, delta_nanos: u64, ranks: &Vec<u64>) -> (shot: Option<usize>)
    requires
        tick_fits(old(timer)@, delta_nanos as nat),
    ensures
        final(timer)@ == old(timer)@.tick(delta_nanos as nat),
        shot.is_some() <==> (final(timer)@.just_finished && ranks.len() > 0),
        shot matches Some(i) ==> is_first_min(ranks@, i as int),
        shot matches Some(i) ==> i < ranks.len() && (forall|j: int|
            0 <= j < ranks.len() ==> ranks[i as int] <= #[trigger] ranks[j]) && (forall|j: int|
            0 <= j < i ==> ranks[i as int] < #[trigger] ranks[j]),
{
    timer.tick(delta_nanos);
    if timer.just_finished() {
        closest_target(ranks)
    } else {
        None
    }
}

/// The ranks order float patterns as `FloatOrd` orders the floats: NaNs
/// lowest and equal among themselves, both zeros equal, non-negative
/// numbers in increasing pattern order, negative numbers in decreasing
/// pattern order, and negative numbers below positive ones.
pub proof fn lemma_rank_order(a: u32, b: u32)
    ensures
        is_nan(a) && is_nan(b) ==> float_rank(a) == float_rank(b),
        is_nan(a) && !is_nan(b) ==> float_rank(a) < float_rank(b),
        magnitude(a) == 0 && magnitude(b) == 0 ==> float_rank(a) == float_rank(b),
        !is_nan(a) && !is_nan(b) && !sign_bit(a) && !sign_bit(b) ==> (float_rank(a) <= float_rank(b)
            <==> a <= b),
        !is_nan(a) && !is_nan(b) && sign_bit(a) && sign_bit(b) ==> (float_rank(a) <= float_rank(b)
            <==> a >= b),
        !is_nan(a) && !is_nan(b) && sign_bit(a) && !sign_bit(b) ==> (float_rank(a) <= float_rank(b)
            && (float_rank(a) == float_rank(b) <==> magnitude(a) == 0 && magnitude(b) == 0)),
{
}


/// Over any run of frames from a fresh tower, the tower is ready to shoot
/// (and shoots, when there is a target) in at most as many frames as whole
/// periods have run, in at least one once a period has run, and in exactly
/// as many when every frame is shorter than a period.
pub proof fn lemma_tower_ready_over_frames(deltas: Seq<nat>)
    ensures
        fresh_tower_timer().frames_fired(deltas) <= total_time(deltas) / (TOWER_SHOT_PERIOD_NANOS as nat),
        total_time(deltas) >= TOWER_SHOT_PERIOD_NANOS ==> fresh_tower_timer().frames_fired(deltas) >= 1,
        (forall|i: int| 0 <= i < deltas.len() ==> #[trigger] deltas[i] < TOWER_SHOT_PERIOD_NANOS) ==> fresh_tower_timer().frames_fired(
            deltas,
        ) == total_time(deltas) / (TOWER_SHOT_PERIOD_NANOS as nat),
{
    lemma_repeating_timer_counts_periods(fresh_tower_timer(), deltas);
    lemma_repeating_frames_fired(fresh_tower_timer(), deltas);
}


/// Ranks stated on the bit patterns themselves: a pattern has rank 0
/// exactly when it is an IEEE NaN (all exponent bits set and a non-zero
/// fraction, i.e. more than `0x7f80_0000` once the sign bit is dropped);
/// non-negative numbers up to infinity (patterns up to `0x7f80_0000`) rank
/// strictly in the order of their patterns, which is their numeric order;
/// negative numbers (the same patterns with the sign bit) rank strictly in
/// the reverse order; every negative number ranks below every positive one,
/// and the two zeros share a rank.
pub proof fn lemma_rank_on_patterns(a: u32, b: u32)
    ensures
        float_rank(a) == 0 <==> a % 0x8000_0000 > 0x7f80_0000,
        a < b <= 0x7f80_0000 ==> 0 < float_rank(a) < float_rank(b),
        0x8000_0000 <= a < b <= 0xff80_0000 ==> 0 < float_rank(b) < float_rank(a),
        0x8000_0000 < a <= 0xff80_0000 && 0 < b <= 0x7f80_0000 ==> float_rank(a) < float_rank(b),
        float_rank(0) == float_rank(0x8000_0000),
{
}

} // verus!
