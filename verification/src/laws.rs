//! What holds of every run of the simulation.

use vstd::prelude::*;
use crate::config::{MARGIN, WORM_SEGMENTS};
use crate::fixed::UNIT;
use crate::trig::{single_valued, Trig};
use crate::world::{founds, hue_of, seed_of, start_x, start_y, ticks, WorldState};
use crate::worm::{creates, remembered, updates, wrapped, WormState};

verus! {

/// A trail after each of `points` has been put at its front, the first of them first.
pub open spec fn remembered_all(trail: Seq<(int, int)>, points: Seq<(int, int)>) -> Seq<(int, int)>
    decreases points.len(),
{
    if points.len() == 0 {
        trail
    } else {
        remembered(remembered_all(trail, points.drop_last()), points.last())
    }
}

/// The smaller of two numbers.
pub open spec fn smaller(a: int, b: int) -> int {
    if a <= b {
        a
    } else {
        b
    }
}

/// However many points a trail that fits its capacity has taken up, it still fits, and
/// its length is the capacity or the points it had and took up, whichever is smaller.
pub proof fn lemma_trail_length_after(trail: Seq<(int, int)>, points: Seq<(int, int)>)
    requires
        trail.len() <= WORM_SEGMENTS,
    ensures
        remembered_all(trail, points).len() <= WORM_SEGMENTS,
        remembered_all(trail, points).len() == smaller(
            WORM_SEGMENTS as int,
            (trail.len() + points.len()) as int,
        ),
    decreases points.len(),
{
    if points.len() > 0 {
        lemma_trail_length_after(trail, points.drop_last());
    }
}

/// A well-formed worm keeps a full trail through every tick.
pub proof fn lemma_trail_stays_full(worm: WormState, width: int, height: int, wobble: Trig, heading: Trig)
    requires
        worm.wf(),
    ensures
        worm.steered(wobble).advanced(width, height, heading).trail.len() == WORM_SEGMENTS,
{
}

/// After a tick the head lies on the surface or within the margin around it, on both
/// axes, wherever it was before.
pub proof fn lemma_head_within_margin(worm: WormState, width: int, height: int, heading: Trig)
    requires
        0 <= width,
        0 <= height,
    ensures
        -MARGIN <= worm.advanced(width, height, heading).x <= width * UNIT + MARGIN,
        -MARGIN <= worm.advanced(width, height, heading).y <= height * UNIT + MARGIN,
{
}

/// A head that moved past the far margin re-enters at the near one, one that moved
/// past the near margin re-enters at the far one, and one between them stays.
pub proof fn lemma_wrap_reenters(coordinate: int, dimension: int)
    requires
        0 <= dimension,
    ensures
        coordinate > dimension * UNIT + MARGIN ==> wrapped(coordinate, dimension) == -MARGIN,
        coordinate < -MARGIN ==> wrapped(coordinate, dimension) == dimension * UNIT + MARGIN,
        -MARGIN <= coordinate <= dimension * UNIT + MARGIN ==> wrapped(coordinate, dimension)
            == coordinate,
{
}

/// After a tick the first point of the trail is the head, and the points behind it are
/// the trail of before, in their order.
pub proof fn lemma_head_leads_trail(worm: WormState, width: int, height: int, heading: Trig)
    ensures
        ({
            let after = worm.advanced(width, height, heading);
            &&& after.trail[0] == (after.x, after.y)
            &&& forall|i: int| 1 <= i < after.trail.len() ==> after.trail[i] == worm.trail[i - 1]
        }),
{
}

/// A tick leaves what a worm was made with as it was: its speeds, its hue, its wobble.
pub proof fn lemma_tick_keeps_constants(worm: WormState, width: int, height: int, wobble: Trig, heading: Trig)
    ensures
        ({
            let after = worm.steered(wobble).advanced(width, height, heading);
            &&& after.turn_speed == worm.turn_speed
            &&& after.speed == worm.speed
            &&& after.hue == worm.hue
            &&& after.wobble_phase == worm.wobble_phase
            &&& after.wobble_rate == worm.wobble_rate
        }),
{
}

/// With a `trig` that gives one answer to each angle, the same arguments make the same
/// worm.
pub proof fn lemma_new_deterministic<F: Fn(i64) -> Trig>(
    trig: F,
    x: int,
    y: int,
    hue: int,
    seed: int,
    first: WormState,
    second: WormState,
)
    requires
        single_valued(trig),
        creates(trig, x, y, hue, seed, first),
        creates(trig, x, y, hue, seed, second),
    ensures
        first == second,
{
}

/// With a `trig` that gives one answer to each angle, a tick at the same time on the
/// same surface makes the same worm of the same worm.
pub proof fn lemma_update_deterministic<F: Fn(i64) -> Trig>(
    trig: F,
    before: WormState,
    width: int,
    height: int,
    time: int,
    first: WormState,
    second: WormState,
)
    requires
        single_valued(trig),
        updates(trig, before, width, height, time, first),
        updates(trig, before, width, height, time, second),
    ensures
        first == second,
{
}

/// `path` is a run of a worm: each of its states comes from the one before by a tick at
/// the time that `times` gives for that step.
pub open spec fn follows<F: Fn(i64) -> Trig>(
    trig: F,
    width: int,
    height: int,
    times: Seq<int>,
    path: Seq<WormState>,
) -> bool {
    &&& path.len() == times.len() + 1
    &&& forall|k: int|
        0 <= k < times.len() ==> updates(trig, path[k], width, height, times[k], #[trigger] path[k + 1])
}

/// With a `trig` that gives one answer to each angle, two runs that start from the same
/// worm and go through the same times are the same run.
pub proof fn lemma_run_deterministic<F: Fn(i64) -> Trig>(
    trig: F,
    width: int,
    height: int,
    times: Seq<int>,
    first: Seq<WormState>,
    second: Seq<WormState>,
)
    requires
        single_valued(trig),
        follows(trig, width, height, times, first),
        follows(trig, width, height, times, second),
        first[0] == second[0],
    ensures
        first == second,
{
    assert forall|k: int| 0 <= k < first.len() implies first[k] == second[k] by {
        lemma_run_agrees(trig, width, height, times, first, second, k);
    }
    assert(first =~= second);
}

/// Two such runs agree at every step.
proof fn lemma_run_agrees<F: Fn(i64) -> Trig>(
    trig: F,
    width: int,
    height: int,
    times: Seq<int>,
    first: Seq<WormState>,
    second: Seq<WormState>,
    k: int,
)
    requires
        single_valued(trig),
        follows(trig, width, height, times, first),
        follows(trig, width, height, times, second),
        first[0] == second[0],
        0 <= k < first.len(),
    ensures
        first[k] == second[k],
    decreases k,
{
    if k > 0 {
        lemma_run_agrees(trig, width, height, times, first, second, k - 1);
        assert(updates(trig, first[k - 1], width, height, times[k - 1], first[k - 1 + 1]));
        assert(updates(trig, second[k - 1], width, height, times[k - 1], second[k - 1 + 1]));
        lemma_update_deterministic(
            trig,
            first[k - 1],
            width,
            height,
            times[k - 1],
            first[k],
            second[k],
        );
    }
}

/// With a `trig` that gives one answer to each angle, the same surface gets the same
/// world.
pub proof fn lemma_found_deterministic<F: Fn(i64) -> Trig>(
    trig: F,
    width: int,
    height: int,
    first: WorldState,
    second: WorldState,
)
    requires
        single_valued(trig),
        founds(trig, width, height, first),
        founds(trig, width, height, second),
    ensures
        first == second,
{
    assert forall|i: int| 0 <= i < first.worms.len() implies first.worms[i] == second.worms[i] by {
        lemma_new_deterministic(
            trig,
            start_x(i, width),
            start_y(i, height),
            hue_of(i),
            seed_of(i),
            first.worms[i],
            second.worms[i],
        );
    }
    assert(first.worms =~= second.worms);
}

/// With a `trig` that gives one answer to each angle, a tick makes the same world of
/// the same world.
pub proof fn lemma_tick_deterministic<F: Fn(i64) -> Trig>(
    trig: F,
    before: WorldState,
    first: WorldState,
    second: WorldState,
)
    requires
        single_valued(trig),
        ticks(trig, before, first),
        ticks(trig, before, second),
    ensures
        first == second,
{
    assert forall|i: int| 0 <= i < first.worms.len() implies first.worms[i] == second.worms[i] by {
        lemma_update_deterministic(
            trig,
            before.worms[i],
            before.width,
            before.height,
            before.time + 1,
            first.worms[i],
            second.worms[i],
        );
    }
    assert(first.worms =~= second.worms);
}

/// Through a run of ticks the time counts them: after `k` ticks it is `k` more than at
/// the start, so it grows by one with each tick and never falls back.
pub proof fn lemma_time_counts_ticks<F: Fn(i64) -> Trig>(trig: F, history: Seq<WorldState>, k: int)
    requires
        forall|j: int| 0 <= j < history.len() - 1 ==> ticks(trig, history[j], #[trigger] history[j + 1]),
        0 <= k < history.len(),
    ensures
        history[k].time == history[0].time + k,
    decreases k,
{
    if k > 0 {
        lemma_time_counts_ticks(trig, history, k - 1);
        assert(ticks(trig, history[k - 1], history[k - 1 + 1]));
    }
}

} // verus!
