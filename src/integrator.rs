use vstd::prelude::*;

verus! {

/// What tracing one ray against the scene produced.
#[derive(Clone, Copy, Debug, PartialEq, Eq, Structural)]
pub enum Event {
    /// The ray left the scene without hitting anything.
    Miss,
    /// The ray hit a surface whose material absorbed it.
    Absorbed,
    /// The ray hit a surface and the material sent out a new ray.
    Scattered,
}

/// How a light path ends.
#[derive(Clone, Copy, Debug, PartialEq, Eq, Structural)]
pub enum Ending {
    /// No light arrives: the path was absorbed or ran out of bounces.
    Dark,
    /// The last ray escaped and picks up the sky's radiance.
    Sky,
}

/// The next thing a path tracer must do for one camera sample.
#[derive(Clone, Copy, Debug, PartialEq, Eq, Structural)]
pub enum Step {
    /// Trace the current ray; `depth` bounces (this one included) remain.
    Trace { depth: u32 },
    /// The path is finished.
    Done(Ending),
}

pub open spec fn start_spec(depth: nat) -> Step {
    if depth == 0 {
        Step::Done(Ending::Dark)
    } else {
        Step::Trace { depth: depth as u32 }
    }
}

/// Begins a path with a budget of `depth` bounces.
pub fn start(depth: u32) -> (r: Step)
    ensures
        r == start_spec(depth as nat),
{
    if depth == 0 {
        Step::Done(Ending::Dark)
    } else {
        Step::Trace { depth }
    }
}

pub open spec fn resume_spec(depth: nat, event: Event) -> Step {
    if depth == 0 {
        Step::Done(Ending::Dark)
    } else {
        match event {
            Event::Miss => Step::Done(Ending::Sky),
            Event::Absorbed => Step::Done(Ending::Dark),
            Event::Scattered => start_spec((depth - 1) as nat),
        }
    }
}

/// Decides what follows once the ray traced with `depth` bounces left has
/// produced `event`: an escaped ray ends in the sky, an absorbed one in the
/// dark, and a scattered one goes on with one bounce fewer. With no bounce
/// left the path is dark whatever happened.
pub fn resume(depth: u32, event: Event) -> (r: Step)
    ensures
        r == resume_spec(depth as nat, event),
{
    if depth == 0 {
        return Step::Done(Ending::Dark);
    }
    match event {
        Event::Miss => Step::Done(Ending::Sky),
        Event::Absorbed => Step::Done(Ending::Dark),
        Event::Scattered => start(depth - 1),
    }
}

/// Where a path in state `s` goes when the scene produces `events` in turn:
/// the number of scattering bounces taken and how the path ends. A path
/// still tracing when the events run out is counted as dark.
pub open spec fn follow(s: Step, events: Seq<Event>) -> (nat, Ending)
    decreases events.len(),
{
    match s {
        Step::Done(e) => (0, e),
        Step::Trace { depth } => {
            if events.len() == 0 {
                (0, Ending::Dark)
            } else {
                let next = resume_spec(depth as nat, events[0]);
                let rest = follow(next, events.drop_first());
                (if depth > 0 && events[0] == Event::Scattered { rest.0 + 1 } else { rest.0 }, rest.1)
            }
        },
    }
}

/// A path whose events all came from the scene before its budget ran out.
pub open spec fn path_of(depth: nat, events: Seq<Event>) -> (nat, Ending) {
    follow(start_spec(depth), events)
}

/// With a budget of zero bounces no ray is traced and the path is dark,
/// whatever the scene would do.
pub proof fn zero_budget_is_dark(events: Seq<Event>)
    ensures
        path_of(0, events) == (0nat, Ending::Dark),
{
}

/// With a budget of one bounce, a ray that misses everything ends in the sky
/// at once, with no further ray traced.
pub proof fn single_bounce_miss_is_sky(events: Seq<Event>)
    requires
        events.len() >= 1,
        events[0] == Event::Miss,
    ensures
        path_of(1, events) == (0nat, Ending::Sky),
{
    reveal_with_fuel(follow, 2);
}

/// A path with a budget of `depth` bounces takes `b` scattering bounces, one
/// for each leading `Scattered` event, and stops at the first other event or
/// when the budget is spent. It ends in the sky exactly when it stopped at a
/// miss, and in the dark otherwise.
pub proof fn path_shape(depth: nat, events: Seq<Event>)
    requires
        depth <= u32::MAX,
        events.len() >= depth,
    ensures
        ({
            let (b, ending) = path_of(depth, events);
            &&& b <= depth
            &&& forall|i: int| 0 <= i < b ==> events[i] == Event::Scattered
            &&& b < depth ==> events[b as int] != Event::Scattered
            &&& (ending == Ending::Sky <==> (b < depth && events[b as int] == Event::Miss))
        }),
    decreases depth,
{
    if depth > 0 {
        let rest = events.drop_first();
        let next = resume_spec(depth, events[0]);
        assert(start_spec(depth) == Step::Trace { depth: depth as u32 });
        assert(path_of(depth, events) == (if events[0] == Event::Scattered {
            follow(next, rest).0 + 1
        } else {
            follow(next, rest).0
        }, follow(next, rest).1));
        if events[0] == Event::Scattered {
            path_shape((depth - 1) as nat, rest);
            let (b, ending) = path_of((depth - 1) as nat, rest);
            assert forall|i: int| 0 <= i < b + 1 implies events[i] == Event::Scattered by {
                if i > 0 {
                    assert(events[i] == rest[i - 1]);
                }
            }
            if b + 1 < depth {
                assert(events[b + 1 as int] == rest[b as int]);
            }
        }
    }
}

} // verus!
