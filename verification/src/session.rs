//! The render loop's control decisions, and a step-by-step model of a whole
//! session over a finite event trace.
//!
//! The loop itself lives with the terminal and the async runtime, outside
//! this crate; each iteration it drains the pollers, draws one frame, awaits
//! one event and acts on [`handle_event`]'s decision. [`run_model`] replays
//! that skeleton over a given trace so its guarantees — one frame per
//! iteration, exit in bounded time on a quit, restoration of the terminal on
//! exit — are stated and checked here.

use vstd::prelude::*;
use crate::events::Event;
use crate::model::Project;
use crate::projection::SingleProjection;

verus! {

/// What the loop does after one event.
#[derive(Clone, Copy, Debug, PartialEq, Eq, Structural)]
pub enum LoopAction {
    /// Keep looping (a tick).
    Continue,
    /// Reflow the viewport, then keep looping.
    Resize(u16, u16),
    /// Leave the loop and restore the terminal.
    Exit,
}

/// The decision the loop takes for each event: ticks continue, any key or an
/// explicit quit ends the session, a resize reflows and continues.
pub open spec fn spec_handle(e: Event) -> LoopAction {
    match e {
        Event::Tick => LoopAction::Continue,
        Event::Quit => LoopAction::Exit,
        Event::Key(_) => LoopAction::Exit,
        Event::Resize(w, h) => LoopAction::Resize(w, h),
    }
}

/// Whether an event ends the session.
pub open spec fn quits(e: Event) -> bool {
    spec_handle(e) is Exit
}

/// Decide the loop's next action for one event.
pub fn handle_event(e: &Event) -> (a: LoopAction)
    ensures
        a == spec_handle(*e),
{
    match e {
        Event::Tick => LoopAction::Continue,
        Event::Quit => LoopAction::Exit,
        Event::Key(_) => LoopAction::Exit,
        Event::Resize(w, h) => LoopAction::Resize(*w, *h),
    }
}

/// Index of the first session-ending event in `s`, or `s.len()` if none.
pub open spec fn first_quit(s: Seq<Event>) -> int
    decreases s.len(),
{
    if s.len() == 0 {
        0
    } else if quits(s[0]) {
        0
    } else {
        1 + first_quit(s.drop_first())
    }
}

/// `first_quit` points at the first session-ending event.
pub proof fn lemma_first_quit(s: Seq<Event>)
    ensures
        0 <= first_quit(s) <= s.len(),
        forall|j: int| 0 <= j < first_quit(s) ==> !quits(s[j]),
        first_quit(s) < s.len() ==> quits(s[first_quit(s)]),
    decreases s.len(),
{
    if s.len() != 0 && !quits(s[0]) {
        lemma_first_quit(s.drop_first());
        assert forall|j: int| 0 <= j < first_quit(s) implies !quits(s[j]) by {
            if j > 0 {
                assert(s.drop_first()[j - 1] == s[j]);
            }
        }
    }
}

/// If nothing before `i` quits and `s[i]` does, then `i` is the first quit.
proof fn lemma_first_quit_is(s: Seq<Event>, i: int)
    requires
        0 <= i < s.len(),
        forall|j: int| 0 <= j < i ==> !quits(s[j]),
        quits(s[i]),
    ensures
        first_quit(s) == i,
    decreases s.len(),
{
    if i > 0 {
        assert forall|j: int| 0 <= j < i - 1 implies !quits(s.drop_first()[j]) by {
            assert(s.drop_first()[j] == s[j + 1]);
        }
        assert(s.drop_first()[i - 1] == s[i]);
        lemma_first_quit_is(s.drop_first(), i - 1);
    }
}

/// If no event of `s` quits, the first quit is at `s.len()`.
proof fn lemma_first_quit_none(s: Seq<Event>)
    requires
        forall|j: int| 0 <= j < s.len() ==> !quits(s[j]),
    ensures
        first_quit(s) == s.len(),
    decreases s.len(),
{
    if s.len() != 0 {
        assert forall|j: int| 0 <= j < s.drop_first().len() implies !quits(s.drop_first()[j]) by {
            assert(s.drop_first()[j] == s[j + 1]);
        }
        lemma_first_quit_none(s.drop_first());
    }
}

/// A trace that ends in a quit shortcut quits within the trace.
pub proof fn lemma_trace_ending_in_quit(s: Seq<Event>)
    requires
        s.len() > 0,
        quits(s.last()),
    ensures
        first_quit(s) < s.len(),
{
    lemma_first_quit(s);
    if first_quit(s) == s.len() {
        assert(!quits(s[s.len() - 1]));
    }
}

/// What a finite session did: how often it looped and drew, whether it
/// exited, and whether the terminal is still in raw mode afterwards.
#[derive(Clone, Copy, Debug, PartialEq, Eq, Structural)]
pub struct SessionLog {
    /// Loop iterations taken.
    pub iterations: usize,
    /// Frames drawn; the loop draws before it awaits, so this counts one per
    /// iteration.
    pub frames: usize,
    /// Whether the loop exited (rather than running out of trace).
    pub exited: bool,
    /// Whether the terminal is still in raw mode; restoration runs on every
    /// exit path.
    pub raw_mode: bool,
}

/// Replay the render loop's skeleton over a finite event trace: acquire raw
/// mode, then per iteration draw one frame and act on one event; on exit
/// restore the terminal.
///
/// The contract carries the loop's guarantees: exactly one frame per
/// iteration; a trace whose events include a quit shortcut ends the session
/// right at the first one — bounded time — with the terminal restored; a
/// trace without one never exits and draws once per event.
pub fn run_model(events: &Vec<Event>) -> (log: SessionLog)
    ensures
        log.frames == log.iterations,
        log.exited == (first_quit(events@) < events@.len()),
        log.iterations == if log.exited {
            first_quit(events@) + 1
        } else {
            events@.len() as int
        },
        log.raw_mode == !log.exited,
{
    let mut iterations: usize = 0;
    let mut frames: usize = 0;
    let mut exited = false;
    let mut raw_mode = true;
    let n = events.len();
    let mut i: usize = 0;
    proof {
        lemma_first_quit(events@);
    }
    while i < n && !exited
        invariant
            0 <= i <= n,
            n == events@.len(),
            frames == iterations,
            iterations == i,
            raw_mode == !exited,
            !exited ==> forall|j: int| 0 <= j < i ==> !quits(events@[j]),
            exited ==> i >= 1 && first_quit(events@) == i - 1,
        decreases n - i,
    {
        // One iteration: drain the pollers, draw one frame, act on one event.
        frames = frames + 1;
        iterations = iterations + 1;
        match handle_event(&events[i]) {
            LoopAction::Continue => {},
            LoopAction::Resize(_, _) => {},
            LoopAction::Exit => {
                proof {
                    lemma_first_quit_is(events@, i as int);
                }
                exited = true;
                raw_mode = false;
            },
        }
        i = i + 1;
    }
    proof {
        if !exited {
            lemma_first_quit_none(events@);
        }
    }
    SessionLog { iterations, frames, exited, raw_mode }
}

/// The project the single-pipeline view holds after draining the given
/// per-iteration batches, starting from nothing: the last published value of
/// the last non-empty batch.
pub open spec fn fold_drain(batches: Seq<Seq<Project>>) -> Option<Project>
    decreases batches.len(),
{
    if batches.len() == 0 {
        None
    } else if batches.last().len() == 0 {
        fold_drain(batches.drop_last())
    } else {
        Some(batches.last().last())
    }
}

/// Replay the single-pipeline view's whole loop: per iteration drain one
/// batch of poller updates into the projection, draw one frame from it, and
/// act on one event. `batches[i]` is what the poller channel held when
/// iteration `i` drained it.
///
/// On top of [`run_model`]'s guarantees, the contract ties the projection
/// in: after the session it holds exactly the last value published before
/// the loop stopped looking — never a stale one.
pub fn run_single_view_model(events: &Vec<Event>, batches: Vec<Vec<Project>>) -> (r: (
    SessionLog,
    SingleProjection,
))
    requires
        events@.len() <= batches@.len(),
    ensures
        r.0.frames == r.0.iterations,
        r.0.exited == (first_quit(events@) < events@.len()),
        r.0.iterations == if r.0.exited {
            first_quit(events@) + 1
        } else {
            events@.len() as int
        },
        r.0.raw_mode == !r.0.exited,
        r.1.project == fold_drain(batches@.map_values(|b: Vec<Project>| b@).take(
            r.0.iterations as int,
        )),
{
    let ghost all = batches@.map_values(|b: Vec<Project>| b@);
    let mut projection = SingleProjection::new();
    let mut rest = batches;
    let mut iterations: usize = 0;
    let mut frames: usize = 0;
    let mut exited = false;
    let mut raw_mode = true;
    let n = events.len();
    let mut i: usize = 0;
    proof {
        lemma_first_quit(events@);
        assert(all.take(0) =~= Seq::<Seq<Project>>::empty());
        assert forall|k: int| 0 <= k < rest@.len() implies (#[trigger] rest@[k])@ == all[k] by {
            assert(all[k] == batches@[k]@);
        }
    }
    while i < n && !exited
        invariant
            0 <= i <= n,
            n == events@.len(),
            n <= all.len(),
            i + rest@.len() == all.len(),
            forall|k: int| 0 <= k < rest@.len() ==> (#[trigger] rest@[k])@ == all[i + k],
            frames == iterations,
            iterations == i,
            raw_mode == !exited,
            projection.project == fold_drain(all.take(i as int)),
            !exited ==> forall|j: int| 0 <= j < i ==> !quits(events@[j]),
            exited ==> i >= 1 && first_quit(events@) == i - 1,
        decreases n - i,
    {
        let ghost prev = rest@;
        let batch = rest.remove(0);
        proof {
            assert(batch == prev[0]);
            assert(batch@ == all[i as int]);
        }
        projection.drain(batch);
        frames = frames + 1;
        iterations = iterations + 1;
        proof {
            assert forall|k: int| 0 <= k < rest@.len() implies (#[trigger] rest@[k])@ == all[
                i + 1 + k
            ] by {
                assert(rest@[k] == prev[k + 1]);
                assert(prev[k + 1]@ == all[i + (k + 1)]);
            }
            assert(all.take(i + 1).drop_last() =~= all.take(i as int));
            assert(all.take(i + 1).last() == all[i as int]);
        }
        match handle_event(&events[i]) {
            LoopAction::Continue => {},
            LoopAction::Resize(_, _) => {},
            LoopAction::Exit => {
                proof {
                    lemma_first_quit_is(events@, i as int);
                }
                exited = true;
                raw_mode = false;
            },
        }
        i = i + 1;
    }
    proof {
        if !exited {
            lemma_first_quit_none(events@);
        }
    }
    (SessionLog { iterations, frames, exited, raw_mode }, projection)
}

} // verus!
