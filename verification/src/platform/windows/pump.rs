//! The blocking message pump of a window.

use super::message::{spec_decode, Message};
use super::router::{next, public_window_callback, route, RouterAction, WindowTable};
use super::{InitData, Window, WindowError};
use vstd::prelude::*;

verus! {

/// The status by which a fetch reports the quit signal.
pub const QUIT: i32 = 0;

/// The status by which a fetch reports an error that it cannot recover from.
pub const FAILURE: i32 = -1;

/// The status by which the recorded queue reports a message.
pub const MESSAGE: i32 = 1;

/// What one fetch from a recorded message queue brings, as long as no quit
/// signal is posted.
#[derive(Debug, Clone, Copy, PartialEq, Eq, Structural)]
pub enum Fetched {
    /// A message for a window.
    Message { window: isize, id: u32 },
    /// The fetch failed.
    Failure,
}

/// How a pump over a recorded queue ended.
#[derive(Debug, Clone, PartialEq, Eq)]
pub struct Pumped {
    /// What the pump returned; none where the queue ran dry and the pump
    /// would block.
    pub outcome: Option<Result<(), WindowError>>,
    /// The number of messages that were dispatched to the router.
    pub dispatched: usize,
}

/// What the pump does on a fetch with the given status: return with success
/// on the quit signal, return the error on a failure, and else go on after
/// the message is dispatched.
pub open spec fn spec_pump(status: i32) -> Option<Result<(), WindowError>> {
    if status == QUIT {
        Some(Ok(()))
    } else if status == FAILURE {
        Some(Err(WindowError::CreationError("Window error")))
    } else {
        None
    }
}

/// The status of a fetch from the recorded queue. A posted quit signal is
/// delivered by the very next fetch, before anything that is queued.
pub open spec fn spec_status(quit_posted: bool, head: Fetched) -> i32 {
    if quit_posted {
        QUIT
    } else {
        match head {
            Fetched::Message { .. } => MESSAGE,
            Fetched::Failure => FAILURE,
        }
    }
}

/// What the pump returns on the queue from position `from` on, where
/// `bound` lists the windows with a data block and `quit_posted` says
/// whether the quit signal is pending.
pub open spec fn spec_run(bound: Seq<isize>, queue: Seq<Fetched>, from: int, quit_posted: bool)
    -> Option<Result<(), WindowError>>
    decreases queue.len() - from,
{
    if quit_posted {
        Some(Ok(()))
    } else if from < 0 || from >= queue.len() {
        None
    } else {
        match queue[from] {
            Fetched::Failure => Some(Err(WindowError::CreationError("Window error"))),
            Fetched::Message { window, id } => spec_run(
                next(bound, window, id),
                queue,
                from + 1,
                route(bound, window, id) == RouterAction::PostQuit,
            ),
        }
    }
}

/// The number of messages that the pump dispatches on the queue from
/// position `from` on.
pub open spec fn spec_dispatched(
    bound: Seq<isize>,
    queue: Seq<Fetched>,
    from: int,
    quit_posted: bool,
) -> nat
    decreases queue.len() - from,
{
    if quit_posted || from < 0 || from >= queue.len() {
        0
    } else {
        match queue[from] {
            Fetched::Failure => 0,
            Fetched::Message { window, id } => 1 + spec_dispatched(
                next(bound, window, id),
                queue,
                from + 1,
                route(bound, window, id) == RouterAction::PostQuit,
            ),
        }
    }
}

/// The windows with a data block when the pump on the queue from position
/// `from` on has ended.
pub open spec fn spec_bound_after(
    bound: Seq<isize>,
    queue: Seq<Fetched>,
    from: int,
    quit_posted: bool,
) -> Seq<isize>
    decreases queue.len() - from,
{
    if quit_posted || from < 0 || from >= queue.len() {
        bound
    } else {
        match queue[from] {
            Fetched::Failure => bound,
            Fetched::Message { window, id } => spec_bound_after(
                next(bound, window, id),
                queue,
                from + 1,
                route(bound, window, id) == RouterAction::PostQuit,
            ),
        }
    }
}

/// The status of a fetch that brings `head`, with no quit signal posted.
fn status(head: Fetched) -> (status: i32)
    ensures
        status == spec_status(false, head),
{
    match head {
        Fetched::Message { .. } => MESSAGE,
        Fetched::Failure => FAILURE,
    }
}

impl Window {
    /// One turn of the pump, on the status of the fetch: the value to
    /// return with, or none where the message is to be handed on and
    /// dispatched and the pump goes on.
    pub fn pump(&self, status: i32) -> (step: Option<Result<(), WindowError>>)
        ensures
            step == spec_pump(status),
    {
        if status == QUIT {
            return Some(Ok(()));
        }
        if status == FAILURE {
            return Some(Err(WindowError::CreationError("Window error")));
        }
        None
    }

    /// Pumps a recorded message queue: fetches, dispatches each message to
    /// the router, and returns on the quit signal or on a failed fetch. The
    /// quit signal that the router posts ends the pump at the next fetch.
    pub fn run(&self, table: &mut WindowTable, initdata: &mut InitData, queue: &Vec<Fetched>) -> (pumped:
        Pumped)
        ensures
            pumped.outcome == spec_run(old(table).bound(), queue@, 0, false),
            pumped.dispatched == spec_dispatched(old(table).bound(), queue@, 0, false),
            final(table).bound() == spec_bound_after(old(table).bound(), queue@, 0, false),
            final(table).wf(),
    {
        let ghost start = table.bound();
        let mut quit_posted = false;
        let mut i: usize = 0;
        proof {
            use_type_invariant(&*table);
        }
        loop
            invariant
                i <= queue@.len(),
                table.wf(),
                start == old(table).bound(),
                spec_run(start, queue@, 0, false) == spec_run(
                    table.bound(),
                    queue@,
                    i as int,
                    quit_posted,
                ),
                spec_dispatched(start, queue@, 0, false) == i + spec_dispatched(
                    table.bound(),
                    queue@,
                    i as int,
                    quit_posted,
                ),
                spec_bound_after(start, queue@, 0, false) == spec_bound_after(
                    table.bound(),
                    queue@,
                    i as int,
                    quit_posted,
                ),
            decreases queue@.len() - i,
        {
            if !quit_posted && i >= queue.len() {
                return Pumped { outcome: None, dispatched: i };
            }
            let fetched = if quit_posted {
                QUIT
            } else {
                status(queue[i])
            };
            match self.pump(fetched) {
                Some(result) => {
                    return Pumped { outcome: Some(result), dispatched: i };
                },
                None => {},
            }
            match queue[i] {
                Fetched::Message { window, id } => {
                    let action = public_window_callback(table, initdata, window, id);
                    quit_posted = match action {
                        RouterAction::PostQuit => true,
                        _ => false,
                    };
                    i += 1;
                },
                Fetched::Failure => {},
            }
        }
    }
}

/// Once the router has seen the destroy notification of a bound window, the
/// pump returns `Ok(())` at its next fetch: it dispatches that one message
/// and nothing of what the queue holds behind it.
pub proof fn lemma_destroy_ends_pump(
    bound: Seq<isize>,
    queue: Seq<Fetched>,
    from: int,
    window: isize,
    id: u32,
)
    requires
        0 <= from < queue.len(),
        queue[from] == (Fetched::Message { window, id }),
        spec_decode(id) == Message::Destroy,
        bound.contains(window),
    ensures
        route(bound, window, id) == RouterAction::PostQuit,
        spec_status(true, queue[from]) == QUIT,
        spec_pump(QUIT) == Some(Ok::<(), WindowError>(())),
        spec_run(bound, queue, from, false) == Some(Ok::<(), WindowError>(())),
        spec_dispatched(bound, queue, from, false) == 1,
        spec_bound_after(bound, queue, from, false) == bound,
{
    assert(spec_run(bound, queue, from + 1, true) == Some(Ok::<(), WindowError>(())));
    assert(spec_dispatched(bound, queue, from + 1, true) == 0);
    assert(spec_bound_after(bound, queue, from + 1, true) == bound);
}

} // verus!
