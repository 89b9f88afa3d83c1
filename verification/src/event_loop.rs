//! The event loop driver: raw platform events in, application events out.

use vstd::prelude::*;

verus! {

/// The error of an event loop operation that the loop's state does not allow.
#[derive(Debug, Clone, Copy, PartialEq, Eq, Structural)]
pub struct EventLoopError {}

/// What the driver hands to the application shell.
#[derive(Debug, Clone, Copy, PartialEq, Eq, Structural)]
pub enum Event {
    /// The tracked window was asked to close.
    CloseRequested,
    /// The tracked window should be drawn again.
    RedrawRequested,
    /// The loop has ended.
    Exit,
}

/// How the loop waits between two events.
#[derive(Debug, Clone, Copy, PartialEq, Eq, Structural)]
pub enum WaitPolicy {
    /// Block until the next event arrives.
    Wait,
    /// Return at once and spin.
    Poll,
}

/// What the platform loop is told to do after an event.
#[derive(Debug, Clone, Copy, PartialEq, Eq, Structural)]
pub enum ControlFlow {
    /// Block until the next event arrives.
    Wait,
    /// Return at once and spin.
    Poll,
    /// Leave the loop.
    Exit,
}

impl WaitPolicy {
    /// The control flow that keeps the loop going under this policy.
    pub open spec fn spec_flow(self) -> ControlFlow {
        match self {
            WaitPolicy::Wait => ControlFlow::Wait,
            WaitPolicy::Poll => ControlFlow::Poll,
        }
    }

    /// The control flow that keeps the loop going under this policy.
    #[verifier::when_used_as_spec(spec_flow)]
    pub fn flow(self) -> (flow: ControlFlow)
        ensures
            flow == self.spec_flow(),
    {
        match self {
            WaitPolicy::Wait => ControlFlow::Wait,
            WaitPolicy::Poll => ControlFlow::Poll,
        }
    }
}


/// Where the loop stands in its life.
#[derive(Debug, Clone, Copy, PartialEq, Eq, Structural)]
pub enum LoopState {
    /// Made, with no window yet.
    Created,
    /// A window is bound; events have not been dispatched since.
    Resumed,
    /// Events are being dispatched.
    Running,
    /// The tracked window was asked to close; nothing is dispatched any
    /// more.
    ExitRequested,
    /// The loop has ended.
    Terminated,
}

/// An event as the platform delivers it, as far as the driver tells events
/// apart. A window is known by its identity, a number.
#[derive(Debug, Clone, Copy, PartialEq, Eq, Structural)]
pub enum RawEvent {
    /// The window of this identity was asked to close.
    CloseRequested { window: u64 },
    /// A window should be drawn again.
    RedrawRequested,
    /// Anything else.
    Other,
}

/// What the driver makes of one raw event.
#[derive(Debug, Clone, Copy, PartialEq, Eq, Structural)]
pub struct Dispatch {
    /// The event for the application shell, if the raw event is not dropped.
    pub event: Option<Event>,
    /// What the platform loop does next.
    pub flow: ControlFlow,
    /// Whether the window is to be asked for another redraw.
    pub rearm: bool,
}

/// What the shell does when the platform resumes the application.
#[derive(Debug, Clone, Copy, PartialEq, Eq, Structural)]
pub enum ResumeAction {
    /// No window is bound: create one and bind it.
    CreateWindow,
    /// The window of this identity is bound already: none is to be created.
    AlreadyBound(u64),
}

/// Whether the loop dispatches events in this state.
pub open spec fn dispatching(state: LoopState) -> bool {
    state == LoopState::Resumed || state == LoopState::Running
}

/// Whether the loop is over, or about to be, in this state.
pub open spec fn ending(state: LoopState) -> bool {
    state == LoopState::ExitRequested || state == LoopState::Terminated
}

/// Whether the raw event asks the tracked window to close while the loop
/// dispatches events.
pub open spec fn closes(state: LoopState, current: Option<u64>, raw: RawEvent) -> bool {
    &&& dispatching(state)
    &&& raw matches RawEvent::CloseRequested { window }
    &&& current == Some(window)
}

/// The state of the loop after a raw event.
pub open spec fn state_after(state: LoopState, current: Option<u64>, raw: RawEvent) -> LoopState {
    if closes(state, current, raw) {
        LoopState::ExitRequested
    } else if dispatching(state) {
        LoopState::Running
    } else {
        state
    }
}

/// What the driver makes of a raw event: a close request for the tracked
/// window becomes `CloseRequested` and ends the loop, a redraw request
/// becomes `RedrawRequested`, and every other event is dropped. Before a
/// window is bound, and once the loop is ending, every event is dropped.
pub open spec fn dispatch_of(
    state: LoopState,
    current: Option<u64>,
    policy: WaitPolicy,
    raw: RawEvent,
) -> Dispatch {
    if ending(state) {
        Dispatch { event: None, flow: ControlFlow::Exit, rearm: false }
    } else if closes(state, current, raw) {
        Dispatch { event: Some(Event::CloseRequested), flow: ControlFlow::Exit, rearm: false }
    } else if dispatching(state) && raw == RawEvent::RedrawRequested {
        Dispatch {
            event: Some(Event::RedrawRequested),
            flow: policy.spec_flow(),
            rearm: policy == WaitPolicy::Poll,
        }
    } else {
        Dispatch { event: None, flow: policy.spec_flow(), rearm: false }
    }
}

/// The driver of the event loop. It tracks one window and turns the raw
/// events of the platform into the events of the application shell.
#[derive(Debug, Clone, Copy, PartialEq, Eq, Structural)]
pub struct EventLoopDriver {
    state: LoopState,
    window: Option<u64>,
    policy: WaitPolicy,
}

impl EventLoopDriver {
    /// Where the loop stands.
    pub closed spec fn spec_state(&self) -> LoopState {
        self.state
    }

    /// The identity of the tracked window.
    pub closed spec fn spec_window(&self) -> Option<u64> {
        self.window
    }

    /// How the loop waits.
    pub closed spec fn spec_policy(&self) -> WaitPolicy {
        self.policy
    }

    /// What holds of every driver: a window is tracked from the moment the
    /// loop is resumed, and none before.
    #[verifier::type_invariant]
    pub open spec fn wf(&self) -> bool {
        &&& self.spec_state() == LoopState::Created ==> self.spec_window() is None
        &&& dispatching(self.spec_state()) || self.spec_state() == LoopState::ExitRequested
            ==> self.spec_window() is Some
    }

    /// A driver that has no window yet.
    pub fn new(policy: WaitPolicy) -> (driver: EventLoopDriver)
        ensures
            driver.spec_state() == LoopState::Created,
            driver.spec_window() is None,
            driver.spec_policy() == policy,
            driver.wf(),
    {
        EventLoopDriver { state: LoopState::Created, window: None, policy }
    }

    /// Where the loop stands.
    #[verifier::when_used_as_spec(spec_state)]
    pub fn state(&self) -> (state: LoopState)
        ensures
            state == self.spec_state(),
            self.wf(),
    {
        proof {
            use_type_invariant(self);
        }
        self.state
    }

    /// The identity of the tracked window.
    #[verifier::when_used_as_spec(spec_window)]
    pub fn window(&self) -> (window: Option<u64>)
        ensures
            window == self.spec_window(),
    {
        self.window
    }

    /// How the loop waits.
    #[verifier::when_used_as_spec(spec_policy)]
    pub fn policy(&self) -> (policy: WaitPolicy)
        ensures
            policy == self.spec_policy(),
    {
        self.policy
    }

    /// The platform resumes the application. Where no window is bound the
    /// shell is to create one; where one is bound the loop counts as
    /// resumed again and the shell is told so, and whether it keeps that
    /// window or takes the resumption for a fault is the shell's to decide.
    /// A loop that is ending is not resumed.
    pub fn resumed(&mut self) -> (action: Result<ResumeAction, EventLoopError>)
        ensures
            final(self).wf(),
            final(self).spec_window() == old(self).spec_window(),
            final(self).spec_policy() == old(self).spec_policy(),
            ending(old(self).spec_state()) ==> action is Err && final(self).spec_state() == old(self).spec_state(),
            old(self).spec_state() == LoopState::Created ==> action == Ok::<
                ResumeAction,
                EventLoopError,
            >(ResumeAction::CreateWindow) && final(self).spec_state() == LoopState::Created,
            dispatching(old(self).spec_state()) ==> old(self).spec_window() is Some && action
                == Ok::<ResumeAction, EventLoopError>(
                ResumeAction::AlreadyBound(old(self).spec_window()->0),
            ) && final(self).spec_state() == LoopState::Resumed,
    {
        proof {
            use_type_invariant(&*self);
        }
        match self.state {
            LoopState::Created => Ok(ResumeAction::CreateWindow),
            LoopState::Resumed | LoopState::Running => {
                match self.window {
                    Some(window) => {
                        self.state = LoopState::Resumed;
                        Ok(ResumeAction::AlreadyBound(window))
                    },
                    None => Err(EventLoopError {}),
                }
            },
            LoopState::ExitRequested | LoopState::Terminated => Err(EventLoopError {}),
        }
    }

    /// Binds the window that the shell created. Only a loop without a
    /// window takes one: a second window is refused, and so is one for a
    /// loop that is ending.
    pub fn bind_window(&mut self, window: u64) -> (bound: Result<(), EventLoopError>)
        ensures
            final(self).wf(),
            final(self).spec_policy() == old(self).spec_policy(),
            bound is Ok <==> old(self).spec_state() == LoopState::Created,
            bound is Ok ==> final(self).spec_state() == LoopState::Resumed && final(self).spec_window() == Some(window),
            bound is Err ==> *final(self) == *old(self),
    {
        proof {
            use_type_invariant(&*self);
        }
        match self.state {
            LoopState::Created => {
                *self = EventLoopDriver {
                    state: LoopState::Resumed,
                    window: Some(window),
                    policy: self.policy,
                };
                Ok(())
            },
            _ => Err(EventLoopError {}),
        }
    }

    /// Takes one raw event of a window and says what the shell gets and
    /// what the platform loop does next.
    pub fn window_event(&mut self, raw: RawEvent) -> (dispatch: Dispatch)
        ensures
            final(self).wf(),
            dispatch == dispatch_of(
                old(self).spec_state(),
                old(self).spec_window(),
                old(self).spec_policy(),
                raw,
            ),
            final(self).spec_state() == state_after(
                old(self).spec_state(),
                old(self).spec_window(),
                raw,
            ),
            final(self).spec_window() == old(self).spec_window(),
            final(self).spec_policy() == old(self).spec_policy(),
    {
        proof {
            use_type_invariant(&*self);
        }
        match self.state {
            LoopState::ExitRequested | LoopState::Terminated => {
                return Dispatch { event: None, flow: ControlFlow::Exit, rearm: false };
            },
            LoopState::Created => {
                return Dispatch { event: None, flow: self.policy.flow(), rearm: false };
            },
            LoopState::Resumed | LoopState::Running => {},
        }
        match raw {
            RawEvent::CloseRequested { window } => {
                let ours = match self.window {
                    Some(current) => current == window,
                    None => false,
                };
                if ours {
                    self.state = LoopState::ExitRequested;
                    Dispatch {
                        event: Some(Event::CloseRequested),
                        flow: ControlFlow::Exit,
                        rearm: false,
                    }
                } else {
                    self.state = LoopState::Running;
                    Dispatch { event: None, flow: self.policy.flow(), rearm: false }
                }
            },
            RawEvent::RedrawRequested => {
                self.state = LoopState::Running;
                let rearm = match self.policy {
                    WaitPolicy::Poll => true,
                    WaitPolicy::Wait => false,
                };
                Dispatch { event: Some(Event::RedrawRequested), flow: self.policy.flow(), rearm }
            },
            RawEvent::Other => {
                self.state = LoopState::Running;
                Dispatch { event: None, flow: self.policy.flow(), rearm: false }
            },
        }
    }

    /// The platform loop has returned after an exit was requested: the loop
    /// is over, and the shell gets `Exit` as its last event. At any other
    /// time this is an error and changes nothing.
    pub fn finish(&mut self) -> (last: Result<Event, EventLoopError>)
        ensures
            final(self).wf(),
            last is Ok <==> old(self).spec_state() == LoopState::ExitRequested,
            last is Ok ==> last == Ok::<Event, EventLoopError>(Event::Exit) && final(self).spec_state() == LoopState::Terminated && final(self).spec_window() == old(self).spec_window() && final(self).spec_policy() == old(self).spec_policy(),
            last is Err ==> *final(self) == *old(self),
    {
        proof {
            use_type_invariant(&*self);
        }
        match self.state {
            LoopState::ExitRequested => {
                self.state = LoopState::Terminated;
                Ok(Event::Exit)
            },
            _ => Err(EventLoopError {}),
        }
    }
}


/// The state of the loop before the event at position `n` of `trace` is
/// dispatched, where `state` is the state at first and `current` the window
/// that the loop is bound to.
pub open spec fn state_before(
    state: LoopState,
    current: Option<u64>,
    trace: Seq<RawEvent>,
    n: int,
) -> LoopState
    decreases n,
{
    if n <= 0 {
        state
    } else {
        state_after(state_before(state, current, trace, n - 1), current, trace[n - 1])
    }
}

/// A loop in which an exit is requested stays so under every event.
proof fn lemma_exit_stays(state: LoopState, current: Option<u64>, trace: Seq<RawEvent>, i: int, j: int)
    requires
        0 <= i <= j <= trace.len(),
        state_before(state, current, trace, i) == LoopState::ExitRequested,
    ensures
        state_before(state, current, trace, j) == LoopState::ExitRequested,
    decreases j,
{
    if i < j {
        lemma_exit_stays(state, current, trace, i, j - 1);
    }
}

/// A close request for the window that the loop is bound to is handed to
/// the shell, requests the exit and tells the platform loop to leave; of
/// the events that follow it none is handed to the shell any more.
pub proof fn lemma_close_request_ends_dispatch(
    state: LoopState,
    current: Option<u64>,
    policy: WaitPolicy,
    trace: Seq<RawEvent>,
    i: int,
    j: int,
)
    requires
        0 <= i < j < trace.len(),
        closes(state_before(state, current, trace, i), current, trace[i]),
    ensures
        dispatch_of(state_before(state, current, trace, i), current, policy, trace[i]) == (Dispatch {
            event: Some(Event::CloseRequested),
            flow: ControlFlow::Exit,
            rearm: false,
        }),
        state_before(state, current, trace, i + 1) == LoopState::ExitRequested,
        state_before(state, current, trace, j) == LoopState::ExitRequested,
        dispatch_of(state_before(state, current, trace, j), current, policy, trace[j]) == (Dispatch {
            event: None,
            flow: ControlFlow::Exit,
            rearm: false,
        }),
{
    lemma_exit_stays(state, current, trace, i + 1, j);
}

/// A close request for a window that the loop is not bound to is ignored:
/// the shell gets nothing, and the loop keeps running.
pub proof fn lemma_close_request_for_other_window(
    state: LoopState,
    current: Option<u64>,
    policy: WaitPolicy,
    window: u64,
)
    requires
        dispatching(state),
        current != Some(window),
    ensures
        dispatch_of(state, current, policy, RawEvent::CloseRequested { window }) == (Dispatch {
            event: None,
            flow: policy.spec_flow(),
            rearm: false,
        }),
        policy.spec_flow() != ControlFlow::Exit,
        state_after(state, current, RawEvent::CloseRequested { window }) == LoopState::Running,
{
}

} // verus!
