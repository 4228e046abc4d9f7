use vstd::prelude::*;
use crate::error::Error;
use crate::modify::{rewrite_request, Modify};

verus! {

/// Where the dispatch loop of a ready connection stands.
#[derive(PartialEq, Eq, Structural, Clone, Copy, Debug)]
pub enum Stage {
    /// Asking the service whether it can take a request.
    Probe,
    /// Waiting for the engine's next inbound stream.
    Accept,
    /// A request was handed out for dispatch; waiting to hear whether its
    /// responder was accepted by the executor.
    Submit,
}

/// The state of a connection. It only moves forward:
/// `Init` to `Ready` to `GoAway` to `Done`, or from any state to `Done`.
pub enum State<S> {
    /// Waiting on the join of the handshake and the service instantiation.
    Init,
    /// Both the HTTP/2.0 connection and the service are ready.
    Ready { stage: Stage },
    /// The service has failed with `error`; the connection is shutting down
    /// gracefully. `signaled` tells whether the shutdown was sent.
    GoAway { error: S, signaled: bool },
    /// Everything is closed up.
    Done,
}

/// What the driver observed when it performed the last action.
#[verifier::reject_recursive_types(B)]
#[verifier::reject_recursive_types(P)]
#[verifier::reject_recursive_types(I)]
pub enum Event<B, P, I, S> {
    /// The awaited operation is not ready yet.
    Pending,
    /// The handshake and the service instantiation both succeeded.
    Initialized,
    /// The handshake (left) or the service instantiation (right) failed.
    InitFailed(futures::future::Either<P, I>),
    /// The service can take a request.
    ServiceReady,
    /// The service reported an unrecoverable readiness error.
    ServiceFailed(S),
    /// The engine yielded a new stream with this request.
    Request(http::Request<B>),
    /// The engine has no more streams.
    StreamsEnd,
    /// The engine failed while yielding the next stream.
    StreamFailed(P),
    /// The responder of the dispatched request was accepted by the executor.
    Submitted,
    /// The executor refused the responder of the dispatched request.
    Rejected,
    /// The graceful shutdown was sent to the engine.
    Signaled,
    /// The engine reports the connection fully closed.
    Closed,
    /// The engine reports an error while closing.
    CloseFailed(P),
}

/// What the driver is to do next.
#[verifier::reject_recursive_types(B)]
pub enum Action<B, P, I, S> {
    /// Poll the join of the handshake and the service instantiation.
    AwaitInit,
    /// Poll the service's readiness.
    ProbeService,
    /// Poll the engine for its next inbound stream.
    AcceptStream,
    /// Call the service with this (rewritten) request and submit a responder
    /// for the stream to the executor.
    Dispatch(http::Request<B>),
    /// Start the graceful shutdown of the engine connection.
    CloseConnection,
    /// Poll the engine until the connection is closed.
    AwaitClose,
    /// Return "not ready": the driver is woken when there is progress.
    Suspend,
    /// Return this result: the connection has finished.
    Finish(Result<(), Error<P, I, S>>),
}

/// The events that a connection in state `s` can be handed.
pub open spec fn expects<B, P, I, S>(s: State<S>, e: Event<B, P, I, S>) -> bool {
    match s {
        State::Init => e is Pending || e is Initialized || e is InitFailed,
        State::Ready { stage: Stage::Probe } => e is Pending || e is ServiceReady || e is ServiceFailed,
        State::Ready { stage: Stage::Accept } => e is Pending || e is Request || e is StreamsEnd
            || e is StreamFailed,
        State::Ready { stage: Stage::Submit } => e is Submitted || e is Rejected,
        State::GoAway { signaled, .. } => if signaled {
            e is Pending || e is Closed || e is CloseFailed
        } else {
            e is Signaled
        },
        State::Done => false,
    }
}

/// The error that a failed join becomes.
pub open spec fn init_error<P, I, S>(e: futures::future::Either<P, I>) -> Error<P, I, S> {
    match e {
        futures::future::Either::A(h) => Error::Handshake(h),
        futures::future::Either::B(n) => Error::NewService(n),
    }
}

/// The state after event `e` in state `s`.
pub open spec fn next_state<B, P, I, S>(s: State<S>, e: Event<B, P, I, S>) -> State<S> {
    match e {
        Event::Pending => s,
        Event::Initialized => State::Ready { stage: Stage::Probe },
        Event::ServiceReady => State::Ready { stage: Stage::Accept },
        Event::ServiceFailed(err) => State::GoAway { error: err, signaled: false },
        Event::Request(_) => State::Ready { stage: Stage::Submit },
        Event::Submitted => State::Ready { stage: Stage::Probe },
        Event::Signaled => match s {
            State::GoAway { error, .. } => State::GoAway { error, signaled: true },
            _ => State::Done,
        },
        _ => State::Done,
    }
}

/// The action after event `e` in state `s`: exact for every event but a
/// request, whose action is a dispatch of the rewritten request.
pub open spec fn next_action<B, P, I, S>(
    s: State<S>,
    e: Event<B, P, I, S>,
    a: Action<B, P, I, S>,
) -> bool {
    match e {
        Event::Pending => a is Suspend,
        Event::Initialized => a is ProbeService,
        Event::InitFailed(f) => a == Action::<B, P, I, S>::Finish(Err(init_error(f))),
        Event::ServiceReady => a is AcceptStream,
        Event::ServiceFailed(_) => a is CloseConnection,
        Event::Request(_) => a is Dispatch,
        Event::StreamsEnd => a == Action::<B, P, I, S>::Finish(Ok(())),
        Event::StreamFailed(p) => a == Action::<B, P, I, S>::Finish(Err(Error::Protocol(p))),
        Event::Submitted => a is ProbeService,
        Event::Rejected => a == Action::<B, P, I, S>::Finish(Err(Error::Execute)),
        Event::Signaled => a is AwaitClose,
        Event::Closed | Event::CloseFailed(_) => match s {
            State::GoAway { error, .. } => a == Action::<B, P, I, S>::Finish(
                Err(Error::Service(error)),
            ),
            _ => false,
        },
    }
}

/// The action that a connection in state `s` resumes with.
pub open spec fn resume_action<B, P, I, S>(s: State<S>) -> Action<B, P, I, S> {
    match s {
        State::Init => Action::AwaitInit,
        State::Ready { stage: Stage::Probe } => Action::ProbeService,
        State::Ready { .. } => Action::AcceptStream,
        State::GoAway { signaled, .. } => if signaled {
            Action::AwaitClose
        } else {
            Action::CloseConnection
        },
        State::Done => Action::Finish(Ok(())),
    }
}

/// Drives one HTTP/2.0 connection: holds its state and its request-rewrite
/// hook, and decides each next step from what the driver observed.
pub struct Connection<F, S> {
    state: State<S>,
    modify: F,
}

impl<F: Modify, S> Connection<F, S> {
    /// The current state.
    pub closed spec fn state_of(&self) -> State<S> {
        self.state
    }

    /// The request-rewrite hook, as it stands now.
    pub closed spec fn hook_of(&self) -> F {
        self.modify
    }

    /// A connection that waits on its handshake and service instantiation.
    pub fn new(modify: F) -> (r: Self)
        ensures
            r.state_of() is Init,
            r.hook_of() == modify,
    {
        Connection { state: State::Init, modify }
    }

    /// The current state.
    pub fn state(&self) -> (r: &State<S>)
        ensures
            *r == self.state_of(),
    {
        &self.state
    }

    /// Whether the connection has finished.
    pub fn is_done(&self) -> (r: bool)
        ensures
            r == (self.state_of() is Done),
    {
        matches!(self.state, State::Done)
    }

    /// Whether the connection, in its current state, can be handed `event`.
    pub fn expects<B, P, I>(&self, event: &Event<B, P, I, S>) -> (r: bool)
        ensures
            r == expects(self.state_of(), *event),
    {
        match &self.state {
            State::Init => matches!(event, Event::Pending | Event::Initialized | Event::InitFailed(_)),
            State::Ready { stage: Stage::Probe } => matches!(
                event,
                Event::Pending | Event::ServiceReady | Event::ServiceFailed(_)
            ),
            State::Ready { stage: Stage::Accept } => matches!(
                event,
                Event::Pending | Event::Request(_) | Event::StreamsEnd | Event::StreamFailed(_)
            ),
            State::Ready { stage: Stage::Submit } => matches!(event, Event::Submitted | Event::Rejected),
            State::GoAway { signaled, .. } => if *signaled {
                matches!(event, Event::Pending | Event::Closed | Event::CloseFailed(_))
            } else {
                matches!(event, Event::Signaled)
            },
            State::Done => false,
        }
    }

    /// The action to perform when the connection is driven again. A finished
    /// connection finishes successfully, as often as it is driven.
    pub fn resume<B, P, I>(&self) -> (r: Action<B, P, I, S>)
        requires
            !(self.state_of() matches State::Ready { stage: Stage::Submit }),
        ensures
            r == resume_action::<B, P, I, S>(self.state_of()),
    {
        match &self.state {
            State::Init => Action::AwaitInit,
            State::Ready { stage: Stage::Probe } => Action::ProbeService,
            State::Ready { .. } => Action::AcceptStream,
            State::GoAway { signaled, .. } => if *signaled {
                Action::AwaitClose
            } else {
                Action::CloseConnection
            },
            State::Done => Action::Finish(Ok(())),
        }
    }

    /// Takes what the driver observed and moves to the next state, returning
    /// the next action. A request is rewritten by the hook, once, before it is
    /// handed out for dispatch.
    pub fn step<B, P, I>(&mut self, event: Event<B, P, I, S>) -> (r: Action<B, P, I, S>)
        requires
            expects(old(self).state_of(), event),
        ensures
            final(self).state_of() == next_state(old(self).state_of(), event),
            next_action(old(self).state_of(), event, r),
            event is Request ==> exists|before: http::Request<()>, after: http::Request<()>|
                #[trigger] old(self).hook_of().rewrites(&final(self).hook_of(), before, after),
            !(event is Request) ==> final(self).hook_of() == old(self).hook_of(),
    {
        let mut state = State::Done;
        std::mem::swap(&mut self.state, &mut state);
        match event {
            Event::Pending => {
                self.state = state;
                Action::Suspend
            },
            Event::Initialized => {
                self.state = State::Ready { stage: Stage::Probe };
                Action::ProbeService
            },
            Event::InitFailed(f) => Action::Finish(Err(Error::from_init(f))),
            Event::ServiceReady => {
                self.state = State::Ready { stage: Stage::Accept };
                Action::AcceptStream
            },
            Event::ServiceFailed(err) => {
                self.state = State::GoAway { error: err, signaled: false };
                Action::CloseConnection
            },
            Event::Request(request) => {
                let ghost hook = self.modify;
                let request = rewrite_request(&mut self.modify, request);
                self.state = State::Ready { stage: Stage::Submit };
                assert(hook == old(self).hook_of());
                let ghost (before, after) = choose|before: http::Request<()>, after: http::Request<()>|
                    #[trigger] hook.rewrites(&self.modify, before, after);
                assert(old(self).hook_of().rewrites(&self.hook_of(), before, after));
                Action::Dispatch(request)
            },
            Event::StreamsEnd => Action::Finish(Ok(())),
            Event::StreamFailed(p) => Action::Finish(Err(Error::Protocol(p))),
            Event::Submitted => {
                self.state = State::Ready { stage: Stage::Probe };
                Action::ProbeService
            },
            Event::Rejected => Action::Finish(Err(Error::Execute)),
            Event::Signaled => {
                match state {
                    State::GoAway { error, .. } => {
                        self.state = State::GoAway { error, signaled: true };
                    },
                    _ => {},
                }
                Action::AwaitClose
            },
            Event::Closed | Event::CloseFailed(_) => match state {
                State::GoAway { error, .. } => Action::Finish(Err(Error::Service(error))),
                _ => Action::Finish(Ok(())),
            },
        }
    }
}

} // verus!
