use vstd::prelude::*;

verus! {

/// What came of intersecting a ray with the scene and scattering it.
#[derive(Clone, Copy, Debug, PartialEq, Eq, Structural)]
pub enum PathEvent {
    /// The ray left the scene: its color is the sky's.
    Missed,
    /// The surface took the ray in.
    Absorbed,
    /// The surface sent out a new ray.
    Scattered,
}

/// How a light path ends.
#[derive(Clone, Copy, Debug, PartialEq, Eq, Structural)]
pub enum PathEnd {
    /// No light: the path was absorbed or ran out of bounces.
    Black,
    /// The sky gradient, times the attenuation gathered on the way.
    Sky,
}

/// The next thing to do for a light path.
#[derive(Clone, Copy, Debug, PartialEq, Eq, Structural)]
pub enum PathStep {
    /// Intersect the current ray with the scene; `depth` bounces are left, this one included.
    Trace { depth: i32 },
    /// The path's color is settled.
    Done { end: PathEnd },
}

pub open spec fn begin_spec(depth: int) -> PathStep {
    if depth <= 0 {
        PathStep::Done { end: PathEnd::Black }
    } else {
        PathStep::Trace { depth: depth as i32 }
    }
}

pub open spec fn advance_spec(depth: int, event: PathEvent) -> PathStep {
    match event {
        PathEvent::Missed => PathStep::Done { end: PathEnd::Sky },
        PathEvent::Absorbed => PathStep::Done { end: PathEnd::Black },
        PathEvent::Scattered => begin_spec(depth - 1),
    }
}

/// Number of scene intersections a path makes from `step`, when the scene answers
/// with `events` in turn (a path stops asking once it is done or the answers run out).
pub open spec fn intersections(step: PathStep, events: Seq<PathEvent>) -> nat
    decreases events.len(),
{
    match step {
        PathStep::Done { .. } => 0,
        PathStep::Trace { depth } => if events.len() == 0 {
            1
        } else {
            1 + intersections(advance_spec(depth as int, events[0]), events.drop_first())
        },
    }
}

/// First step of a path with `depth` bounces allowed: with none left the path is
/// black at once, without touching the scene.
pub fn begin(depth: i32) -> (r: PathStep)
    ensures
        r == begin_spec(depth as int),
        depth <= 0 ==> r == (PathStep::Done { end: PathEnd::Black }),
{
    if depth <= 0 {
        PathStep::Done { end: PathEnd::Black }
    } else {
        PathStep::Trace { depth }
    }
}

/// Step after an intersection made with `depth` bounces left: a miss shows the sky,
/// an absorption is black, and a scattered ray goes on with one bounce fewer.
pub fn advance(depth: i32, event: PathEvent) -> (r: PathStep)
    requires
        depth > 0,
    ensures
        r == advance_spec(depth as int, event),
{
    match event {
        PathEvent::Missed => PathStep::Done { end: PathEnd::Sky },
        PathEvent::Absorbed => PathStep::Done { end: PathEnd::Black },
        PathEvent::Scattered => begin(depth - 1),
    }
}

proof fn lemma_trace_bound(depth: int, events: Seq<PathEvent>)
    requires
        0 < depth <= i32::MAX,
    ensures
        intersections(PathStep::Trace { depth: depth as i32 }, events) <= depth,
    decreases events.len(),
{
    if events.len() > 0 {
        let next = advance_spec(depth, events[0]);
        assert(depth as i32 as int == depth);
        if let PathStep::Trace { depth: d } = next {
            assert(d == depth - 1);
            lemma_trace_bound(d as int, events.drop_first());
        } else {
            assert(intersections(next, events.drop_first()) == 0);
        }
    }
}

/// A path that starts with `max_depth` bounces makes at most `max_depth` scene
/// intersections, and none when `max_depth` is zero or less, whatever the scene answers.
pub proof fn lemma_bounded_recursion(max_depth: i32, events: Seq<PathEvent>)
    ensures
        intersections(begin_spec(max_depth as int), events) <= if max_depth <= 0 {
            0
        } else {
            max_depth as int
        },
{
    if max_depth > 0 {
        lemma_trace_bound(max_depth as int, events);
    }
}

} // verus!
