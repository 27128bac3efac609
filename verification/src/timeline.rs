//! The timeline: spans, elements and the playhead, the plugin that manages
//! them, and the integer geometry behind the timeline's ruler and clip
//! drawing — which grid step to use at a zoom level, which ticks carry grid
//! lines, and which clips fall into the visible range.

use vstd::prelude::*;

use crate::error::CoreError;
use crate::plugin::{Plugin, PluginReport, Schedule};
use crate::render::RawImage;
use crate::world::{EntityId, WorldState};

verus! {

/// A half-open placement on the timeline, in ticks.
#[derive(Clone, Copy, Debug, PartialEq, Eq, Structural)]
pub struct TimelineSpan {
    pub start: u64,
    pub end: u64,
}

/// The playhead: the tick the world is currently at.
#[derive(Clone, Copy, Debug, PartialEq, Eq, Structural)]
pub struct Playhead {
    pub current: u64,
}

/// A clip on the timeline: its track (the z-order) and its placement.
#[derive(Clone, Copy, Debug, PartialEq, Eq, Structural)]
pub struct TimelineElement {
    /// Track number of the element; also its z-index.
    pub track_num: u64,
    pub position: TimelineSpan,
}

/// Binds one entity to another.
#[derive(Clone, Copy, Debug, PartialEq, Eq, Structural)]
pub struct BindTo {
    pub id: EntityId,
}

/// The outcome of rendering an entity.
#[derive(Debug)]
pub struct Renderable {
    pub render_result: Result<RawImage, CoreError>,
}

/// The grid-step candidates, in milliseconds, from finest to coarsest.
pub open spec fn spec_grid_candidates() -> Seq<u64> {
    seq![1u64, 2, 5, 10, 20, 50, 100, 200, 500, 1000, 2000, 5000, 10000]
}

/// The grid step in ticks for one candidate: its milliseconds at `tps`
/// ticks per second.
pub open spec fn candidate_ticks(tps: u64, ms: u64) -> u64 {
    ((tps * ms) / 1000) as u64
}

/// Picks the grid step for the ruler: the finest candidate whose tick count
/// is at least `min_step_ticks` (the number of ticks a line spacing of the
/// target width covers at the current zoom), falling back to one second.
pub fn choose_grid_step(min_step_ticks: u64, tps: u64) -> (step: u64)
    requires
        tps <= u64::MAX / 10000,
    ensures
        ({
            let cands = spec_grid_candidates();
            ||| exists|i: int|
                {
                    &&& 0 <= i < cands.len()
                    &&& step == candidate_ticks(tps, cands[i])
                    &&& candidate_ticks(tps, cands[i]) >= min_step_ticks
                    &&& forall|j: int|
                        0 <= j < i ==> candidate_ticks(tps, #[trigger] cands[j]) < min_step_ticks
                }
            ||| {
                &&& step == tps
                &&& forall|j: int|
                    0 <= j < cands.len() ==> candidate_ticks(tps, #[trigger] cands[j])
                        < min_step_ticks
            }
        }),
{
    let mut i: usize = 0;
    #[verifier::loop_isolation(false)]
    while i < 13
        invariant
            i <= 13,
            forall|j: int|
                0 <= j < i ==> candidate_ticks(tps, #[trigger] spec_grid_candidates()[j])
                    < min_step_ticks,
        decreases 13 - i,
    {
        let ms = candidate_ms(i);
        proof {
            assert((tps as int) * (ms as int) <= ((u64::MAX as int) / 10000) * 10000)
                by (nonlinear_arith)
                requires
                    0 <= tps as int <= (u64::MAX as int) / 10000,
                    0 <= ms as int <= 10000,
            ;
        }
        let ticks = (tps * ms) / 1000;
        if ticks >= min_step_ticks {
            return ticks;
        }
        i = i + 1;
    }
    tps
}

/// The grid-step candidate at one position of the fixed list.
fn candidate_ms(i: usize) -> (ms: u64)
    requires
        i < 13,
    ensures
        ms == spec_grid_candidates()[i as int],
        1 <= ms <= 10000,
{
    match i {
        0 => 1,
        1 => 2,
        2 => 5,
        3 => 10,
        4 => 20,
        5 => 50,
        6 => 100,
        7 => 200,
        8 => 500,
        9 => 1000,
        10 => 2000,
        11 => 5000,
        _ => 10000,
    }
}

/// Whether a span overlaps the visible tick range `[start_tick, end_tick]`.
pub open spec fn spec_span_visible(span: TimelineSpan, start_tick: u64, end_tick: u64) -> bool {
    !(span.end < start_tick || span.start > end_tick)
}

/// Whether a span overlaps the visible tick range: a clip entirely before
/// or entirely after the range is culled.
#[verifier::when_used_as_spec(spec_span_visible)]
pub fn span_visible(span: TimelineSpan, start_tick: u64, end_tick: u64) -> (r: bool)
    ensures
        r == spec_span_visible(span, start_tick, end_tick),
{
    !(span.end < start_tick || span.start > end_tick)
}

/// The clips of the store that fall into the visible range, in entity
/// order: what the canvas draws.
pub open spec fn spec_visible_clips(
    entities: Seq<crate::world::EntityRecord>,
    start_tick: u64,
    end_tick: u64,
) -> Seq<(EntityId, TimelineElement)>
    decreases entities.len(),
{
    if entities.len() == 0 {
        Seq::empty()
    } else {
        let rest = spec_visible_clips(entities.drop_last(), start_tick, end_tick);
        let last = entities.last();
        match last.element {
            Some(el) => {
                if spec_span_visible(el.position, start_tick, end_tick) {
                    rest.push((last.id, el))
                } else {
                    rest
                }
            },
            None => rest,
        }
    }
}

/// Collects the clips visible in `[start_tick, end_tick]`, in entity order.
pub fn visible_clips(world: &WorldState, start_tick: u64, end_tick: u64) -> (r: Vec<
    (EntityId, TimelineElement),
>)
    ensures
        r@ == spec_visible_clips(world@.entities, start_tick, end_tick),
{
    let mut out: Vec<(EntityId, TimelineElement)> = Vec::new();
    let mut i: usize = 0;
    let n = world.entity_count();
    #[verifier::loop_isolation(false)]
    while i < n
        invariant
            i <= n,
            n == world@.entities.len(),
            out@ == spec_visible_clips(world@.entities.subrange(0, i as int), start_tick, end_tick),
        decreases n - i,
    {
        proof {
            assert(world@.entities.subrange(0, i + 1).drop_last() =~= world@.entities.subrange(
                0,
                i as int,
            ));
            assert(world@.entities.subrange(0, i + 1).last() == world@.entities[i as int]);
        }
        let rec = world.entity_at(i);
        match &rec.element {
            Option::Some(el) => {
                if span_visible(el.position, start_tick, end_tick) {
                    out.push((rec.id, *el));
                }
            },
            Option::None => {},
        }
        i = i + 1;
    }
    proof {
        assert(world@.entities.subrange(0, n as int) =~= world@.entities);
    }
    out
}

/// The ruler's grid lines: every multiple of `step` from the first at or
/// after the range's rounded-down start up to `end_tick`.
pub fn grid_ticks(start_tick: u64, end_tick: u64, step: u64) -> (r: Vec<u64>)
    requires
        step >= 1,
        end_tick <= u64::MAX - step,
    ensures
        forall|k: int|
            0 <= k < r@.len() ==> #[trigger] r@[k] == (start_tick / step) * step + k * step,
        forall|k: int| 0 <= k < r@.len() ==> #[trigger] r@[k] <= end_tick,
        (start_tick / step) * step <= end_tick ==> r@.len() == (end_tick - (start_tick / step)
            * step) / (step as int) + 1,
        (start_tick / step) * step > end_tick ==> r@.len() == 0,
{
    proof {
        assert(((start_tick as int) / (step as int)) * (step as int) <= start_tick as int)
            by (nonlinear_arith)
            requires
                step >= 1,
                start_tick >= 0,
        ;
    }
    let first = (start_tick / step) * step;
    let mut out: Vec<u64> = Vec::new();
    if first > end_tick {
        return out;
    }
    let mut t = first;
    proof {
        assert(out@.len() * step == 0) by (nonlinear_arith)
            requires
                out@.len() == 0,
        ;
    }
    #[verifier::loop_isolation(false)]
    loop
        invariant
            first <= t,
            t <= end_tick + step,
            t == first + out@.len() * step,
            forall|k: int| 0 <= k < out@.len() ==> #[trigger] out@[k] == first + k * step,
            forall|k: int| 0 <= k < out@.len() ==> #[trigger] out@[k] <= end_tick,
        decreases end_tick + step - t,
    {
        if t > end_tick {
            break ;
        }
        out.push(t);
        proof {
            let l = out@.len() as int;
            assert(l * (step as int) == (l - 1) * (step as int) + (step as int))
                by (nonlinear_arith);
        }
        t = t + step;
    }
    proof {
        let l = out@.len() as int;
        if l == 0 {
            assert(l * step == 0) by (nonlinear_arith)
                requires
                    l == 0,
            ;
            assert(t == first);
            assert(false);
        }
        assert(out@[l - 1] == first + (l - 1) * step);
        assert((end_tick - first) / (step as int) == l - 1) by (nonlinear_arith)
            requires
                step >= 1,
                l >= 1,
                first + (l - 1) * step <= end_tick,
                end_tick < first + l * step,
                t == first + l * step,
                first <= end_tick,
        ;
    }
    out
}

/// The number of whole seconds and leftover milliseconds a tick count
/// stands for at `tps` ticks per second: what the ruler's labels show.
pub fn time_parts(t: u64, tps: u64) -> (r: (u64, u64))
    requires
        tps >= 1,
        tps <= u64::MAX / 1000,
    ensures
        r.0 == t / tps,
        r.1 == ((t % tps) * 1000) / (tps as int),
        r.1 < 1000,
{
    let secs = t / tps;
    let ms = ((t % tps) * 1000) / tps;
    proof {
        assert(((t % tps) * 1000) / (tps as int) < 1000) by (nonlinear_arith)
            requires
                tps >= 1,
                t % tps < tps,
        ;
    }
    (secs, ms)
}

/// The timeline plugin: owns the tick frequency and keeps the timeline's
/// UI state resource alive in the world.
pub struct Timeline {
    /// Ticks per second of the timeline.
    pub tick_freq: u64,
}

/// The fixed tick frequency of the timeline.
pub const TICKS_PER_SECOND: u64 = 60000;

impl Timeline {
    /// The timeline plugin's per-tick work: its UI state lives with the
    /// front end, so the store is returned exactly as it came and the hook
    /// never fails.
    pub fn run_update(&mut self, world: &mut WorldState) -> (r: Result<(), CoreError>)
        ensures
            final(world)@ == old(world)@,
            r is Ok,
    {
        Ok(())
    }
}

impl Plugin for Timeline {
    fn new() -> (p: Timeline) {
        Timeline { tick_freq: TICKS_PER_SECOND }
    }

    fn name(&self) -> &'static str {
        "Timeline"
    }

    fn init(&mut self, world: &mut WorldState) -> Result<(), CoreError> {
        Ok(())
    }

    fn add_schedule(&mut self, schedule: &mut Schedule) -> Result<(), CoreError> {
        Ok(())
    }

    fn update_world(&mut self, world: &mut WorldState) -> Result<(), CoreError> {
        self.run_update(world)
    }

    fn report(&self) -> PluginReport {
        PluginReport::Operational
    }

    fn shutdown(&mut self, world: &mut WorldState) {
    }

    fn reset(&mut self, world: &mut WorldState) {
    }

    fn take_ui_state(&mut self) -> Option<crate::bridge::UiValue> {
        Option::None
    }
}

} // verus!
