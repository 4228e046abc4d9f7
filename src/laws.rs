//! Laws of the two state machines, over whole runs of events.
use vstd::prelude::*;
use crate::background::{accepts, advance, resume_task, Outcome, Phase, Task, INTERNAL_ERROR};
use crate::connection::{
    expects, next_action, next_state, resume_action, Action, Event, Stage, State,
};
use crate::error::Error;

verus! {

/// How far a connection state stands in the order `Init`, `Ready`, `GoAway`,
/// `Done`.
pub open spec fn rank<S>(s: State<S>) -> nat {
    match s {
        State::Init => 0,
        State::Ready { .. } => 1,
        State::GoAway { .. } => 2,
        State::Done => 3,
    }
}

/// Whether each event of `evs`, handed in turn to a connection in state `s`,
/// is one that it expects.
pub open spec fn valid_run<B, P, I, S>(s: State<S>, evs: Seq<Event<B, P, I, S>>) -> bool
    decreases evs.len(),
{
    if evs.len() == 0 {
        true
    } else {
        expects(s, evs[0]) && valid_run(next_state(s, evs[0]), evs.drop_first())
    }
}

/// The state that a connection in state `s` reaches after the events `evs`.
pub open spec fn run<B, P, I, S>(s: State<S>, evs: Seq<Event<B, P, I, S>>) -> State<S>
    decreases evs.len(),
{
    if evs.len() == 0 {
        s
    } else {
        run(next_state(s, evs[0]), evs.drop_first())
    }
}

/// Whether some event of `evs`, handed in turn from state `s`, arrives while
/// the connection is in a state that satisfies `p`.
pub open spec fn visits<B, P, I, S>(
    s: State<S>,
    evs: Seq<Event<B, P, I, S>>,
    p: spec_fn(State<S>) -> bool,
) -> bool
    decreases evs.len(),
{
    if evs.len() == 0 {
        p(s)
    } else {
        p(s) || visits(next_state(s, evs[0]), evs.drop_first(), p)
    }
}

/// A connection only moves forward: no expected event lowers its rank, and
/// none brings a connection past `Init` back to it.
pub proof fn lemma_step_forward<B, P, I, S>(s: State<S>, e: Event<B, P, I, S>)
    requires
        expects(s, e),
    ensures
        rank(next_state(s, e)) >= rank(s),
        !(s is Init) ==> !(next_state(s, e) is Init),
{
}

/// A connection only moves forward: over any run of expected events, the rank
/// of its state never decreases.
pub proof fn lemma_run_forward<B, P, I, S>(s: State<S>, evs: Seq<Event<B, P, I, S>>)
    requires
        valid_run(s, evs),
    ensures
        rank(run(s, evs)) >= rank(s),
    decreases evs.len(),
{
    if evs.len() > 0 {
        lemma_step_forward(s, evs[0]);
        lemma_run_forward(next_state(s, evs[0]), evs.drop_first());
    }
}

/// Once the handshake and the service are both ready, a connection moves from
/// `Init` to `Ready` and, whatever follows, is never in `Init` again.
pub proof fn lemma_init_once<B, P, I, S>(evs: Seq<Event<B, P, I, S>>)
    requires
        valid_run(State::Ready { stage: Stage::Probe }, evs),
    ensures
        next_state(State::<S>::Init, Event::<B, P, I, S>::Initialized) == (State::<S>::Ready {
            stage: Stage::Probe,
        }),
        next_action(
            State::<S>::Init,
            Event::<B, P, I, S>::Initialized,
            Action::<B, P, I, S>::ProbeService,
        ),
        !visits(State::Ready { stage: Stage::Probe }, evs, |t: State<S>| t is Init),
{
    lemma_never_init(State::Ready { stage: Stage::Probe }, evs);
}

/// A run of expected events from a state past `Init` never visits `Init`.
pub proof fn lemma_never_init<B, P, I, S>(s: State<S>, evs: Seq<Event<B, P, I, S>>)
    requires
        !(s is Init),
        valid_run(s, evs),
    ensures
        !visits(s, evs, |t: State<S>| t is Init),
    decreases evs.len(),
{
    if evs.len() > 0 {
        lemma_step_forward(s, evs[0]);
        lemma_never_init(next_state(s, evs[0]), evs.drop_first());
    }
}

/// A failed service instantiation with cause `e` finishes the connection with
/// `NewService(e)` and leaves it `Done`; a `Done` connection expects no event
/// at all, so no request is ever dispatched, and driving it again only
/// finishes successfully.
pub proof fn lemma_new_service_failure<B, P, I, S>(e: I, evs: Seq<Event<B, P, I, S>>)
    requires
        valid_run(State::<S>::Done, evs),
    ensures
        ({
            let ev = Event::<B, P, I, S>::InitFailed(futures::future::Either::B(e));
            &&& next_state(State::<S>::Init, ev) is Done
            &&& next_action(
                State::<S>::Init,
                ev,
                Action::<B, P, I, S>::Finish(Err(Error::NewService(e))),
            )
        }),
        evs.len() == 0,
        resume_action::<B, P, I, S>(State::<S>::Done) == Action::<B, P, I, S>::Finish(Ok(())),
{
}

/// A request is handed out for dispatch only on the event that brings it,
/// once, and the connection accepts no other stream before it learns whether
/// that dispatch's responder was submitted.
pub proof fn lemma_dispatch_once<B, P, I, S>(
    s: State<S>,
    e: Event<B, P, I, S>,
    a: Action<B, P, I, S>,
    f: Event<B, P, I, S>,
)
    requires
        expects(s, e),
        next_action(s, e, a),
        expects(next_state(s, e), f),
    ensures
        a is Dispatch <==> e is Request,
        e is Request ==> s == (State::<S>::Ready { stage: Stage::Accept }),
        e is Request ==> next_state(s, e) == (State::<S>::Ready { stage: Stage::Submit }),
        e is Request ==> (f is Submitted || f is Rejected),
{
}

/// A readiness error `err` of the service starts the graceful shutdown and
/// stores `err`.
pub proof fn lemma_service_failure<B, P, I, S>(err: S)
    ensures
        next_state(
            State::Ready { stage: Stage::Probe },
            Event::<B, P, I, S>::ServiceFailed(err),
        ) == (State::GoAway { error: err, signaled: false }),
        next_action(
            State::Ready { stage: Stage::Probe },
            Event::<B, P, I, S>::ServiceFailed(err),
            Action::<B, P, I, S>::CloseConnection,
        ),
{
}

/// The shutdown is asked for only on a readiness error of the service, or on
/// resuming a connection that has not yet sent it.
pub proof fn lemma_close_only_on_service_failure<B, P, I, S>(
    s: State<S>,
    e: Event<B, P, I, S>,
    a: Action<B, P, I, S>,
)
    requires
        expects(s, e),
        next_action(s, e, a),
    ensures
        a is CloseConnection <==> e is ServiceFailed,
        resume_action::<B, P, I, S>(s) is CloseConnection <==> (s matches State::GoAway {
            signaled: false,
            ..
        }),
{
}

/// Once the shutdown is sent, over any run of expected events the connection
/// stays shutting down with the same stored error (asking for no second
/// shutdown) until it is `Done`, and no event of the run brings a request.
pub proof fn lemma_goaway_run<B, P, I, S>(err: S, evs: Seq<Event<B, P, I, S>>)
    requires
        valid_run(State::GoAway { error: err, signaled: true }, evs),
    ensures
        run(State::GoAway { error: err, signaled: true }, evs) == (State::GoAway {
            error: err,
            signaled: true,
        }) || run(State::GoAway { error: err, signaled: true }, evs) is Done,
        forall|i: int| 0 <= i < evs.len() ==> !(#[trigger] evs[i] is Request),
    decreases evs.len(),
{
    if evs.len() > 0 {
        let s = State::GoAway { error: err, signaled: true };
        assert(!(evs[0] is Request));
        if next_state(s, evs[0]) is Done {
            let rest = evs.drop_first();
            assert(valid_run(next_state(s, evs[0]), rest));
            assert(valid_run(State::<S>::Done, rest));
            if rest.len() > 0 {
                assert(!expects(State::<S>::Done, rest[0]));
            }
            assert(rest.len() == 0);
            assert(run(State::<S>::Done, rest) is Done);
            assert(evs.len() == 1);
        } else {
            lemma_goaway_run(err, evs.drop_first());
            assert(forall|i: int| 1 <= i < evs.len() ==> evs[i] == evs.drop_first()[i - 1]);
        }
    }
}

/// A connection shutting down after the service error `err` finishes with
/// `Service(err)` when the engine reports it closed, and also when the engine
/// reports an error `p` while closing.
pub proof fn lemma_goaway_result<B, P, I, S>(err: S, p: P)
    ensures
        next_action(
            State::GoAway { error: err, signaled: true },
            Event::<B, P, I, S>::Closed,
            Action::<B, P, I, S>::Finish(Err(Error::Service(err))),
        ),
        next_action(
            State::GoAway { error: err, signaled: true },
            Event::<B, P, I, S>::CloseFailed(p),
            Action::<B, P, I, S>::Finish(Err(Error::Service(err))),
        ),
        next_state(State::GoAway { error: err, signaled: true }, Event::<B, P, I, S>::Closed) is Done,
        next_state(
            State::GoAway { error: err, signaled: true },
            Event::<B, P, I, S>::CloseFailed(p),
        ) is Done,
{
}

/// Running the events `a` and then the events `b` is running `a + b`.
pub proof fn lemma_run_concat<B, P, I, S>(
    s: State<S>,
    a: Seq<Event<B, P, I, S>>,
    b: Seq<Event<B, P, I, S>>,
)
    ensures
        valid_run(s, a + b) == (valid_run(s, a) && valid_run(run(s, a), b)),
        run(s, a + b) == run(run(s, a), b),
    decreases a.len(),
{
    if a.len() == 0 {
        assert(a + b =~= b);
    } else {
        lemma_run_concat(next_state(s, a[0]), a.drop_first(), b);
        assert((a + b).drop_first() =~= a.drop_first() + b);
        assert((a + b)[0] == a[0]);
    }
}

/// Whether every event of `evs` is `Pending`.
pub open spec fn all_pending<B, P, I, S>(evs: Seq<Event<B, P, I, S>>) -> bool {
    forall|i: int| 0 <= i < evs.len() ==> #[trigger] evs[i] is Pending
}

/// However many times the engine answers "not closed yet", a connection
/// that has sent its shutdown stays as it is, and resumes by waiting for the
/// close again: it never asks for a second shutdown.
pub proof fn lemma_pending_close<B, P, I, S>(err: S, pend: Seq<Event<B, P, I, S>>)
    requires
        all_pending(pend),
    ensures
        valid_run(State::GoAway { error: err, signaled: true }, pend),
        run(State::GoAway { error: err, signaled: true }, pend) == (State::GoAway {
            error: err,
            signaled: true,
        }),
        resume_action::<B, P, I, S>(State::GoAway { error: err, signaled: true }) is AwaitClose,
    decreases pend.len(),
{
    if pend.len() > 0 {
        assert(pend[0] is Pending);
        let rest = pend.drop_first();
        assert forall|i: int| 0 <= i < rest.len() implies #[trigger] rest[i] is Pending by {
            assert(rest[i] == pend[i + 1]);
        }
        lemma_pending_close(err, rest);
    }
}

/// A readiness error `err` of the service: the shutdown is asked for once,
/// after any number of "not closed yet" answers the connection still waits
/// for the close, and when the engine reports it closed, or reports an error
/// while closing, the connection finishes with `Service(err)` and is `Done`.
pub proof fn lemma_shutdown_run<B, P, I, S>(
    err: S,
    pend: Seq<Event<B, P, I, S>>,
    last: Event<B, P, I, S>,
)
    requires
        all_pending(pend),
        last is Closed || last is CloseFailed,
    ensures
        ({
            let evs = seq![Event::<B, P, I, S>::ServiceFailed(err), Event::Signaled] + pend + seq![
                last,
            ];
            let s = State::<S>::Ready { stage: Stage::Probe };
            &&& valid_run(s, evs)
            &&& run(s, evs) is Done
            &&& forall|i: int|
                1 <= i < evs.len() ==> !(#[trigger] evs[i] is ServiceFailed)
        }),
        next_action(
            State::Ready { stage: Stage::Probe },
            Event::<B, P, I, S>::ServiceFailed(err),
            Action::<B, P, I, S>::CloseConnection,
        ),
        next_action(
            State::GoAway { error: err, signaled: true },
            last,
            Action::<B, P, I, S>::Finish(Err(Error::Service(err))),
        ),
{
    let s = State::<S>::Ready { stage: Stage::Probe };
    let g = State::GoAway { error: err, signaled: true };
    let head = seq![Event::<B, P, I, S>::ServiceFailed(err), Event::Signaled];
    let tail = seq![last];
    lemma_pending_close(err, pend);
    assert(valid_run(s, head) && run(s, head) == g) by {
        reveal_with_fuel(valid_run, 3);
        reveal_with_fuel(run, 3);
        assert(head.drop_first() =~= seq![Event::<B, P, I, S>::Signaled]);
        assert(head.drop_first().drop_first() =~= Seq::<Event<B, P, I, S>>::empty());
    }
    lemma_run_concat(s, head, pend);
    assert(valid_run(g, tail) && run(g, tail) is Done) by {
        reveal_with_fuel(valid_run, 2);
        reveal_with_fuel(run, 2);
        assert(tail.drop_first() =~= Seq::<Event<B, P, I, S>>::empty());
    }
    lemma_run_concat(s, head + pend, tail);
    let evs = head + pend + tail;
    assert forall|i: int| 1 <= i < evs.len() implies !(#[trigger] evs[i] is ServiceFailed) by {
        if 2 <= i < 2 + pend.len() {
            assert(evs[i] == pend[i - 2]);
        }
    }
}

/// The service takes a request `r`, then fails its next readiness check with
/// `err`: the request is dispatched and its responder submitted before the
/// shutdown is asked for, no other stream is accepted, and after any number
/// of "not closed yet" answers the connection finishes with `Service(err)`.
pub proof fn lemma_readiness_failure_after_request<B, P, I, S>(
    r: http::Request<B>,
    err: S,
    pend: Seq<Event<B, P, I, S>>,
    last: Event<B, P, I, S>,
)
    requires
        all_pending(pend),
        last is Closed || last is CloseFailed,
    ensures
        ({
            let first = seq![
                Event::<B, P, I, S>::ServiceReady,
                Event::Request(r),
                Event::Submitted,
            ];
            let evs = first + (seq![Event::ServiceFailed(err), Event::Signaled] + pend + seq![last]);
            let s = State::<S>::Ready { stage: Stage::Probe };
            &&& valid_run(s, first)
            &&& run(s, first) == s
            &&& valid_run(s, evs)
            &&& run(s, evs) is Done
            &&& forall|i: int| 1 < i < evs.len() ==> !(#[trigger] evs[i] is Request)
        }),
        next_action(
            State::GoAway { error: err, signaled: true },
            last,
            Action::<B, P, I, S>::Finish(Err(Error::Service(err))),
        ),
{
    let s = State::<S>::Ready { stage: Stage::Probe };
    let first = seq![Event::<B, P, I, S>::ServiceReady, Event::Request(r), Event::Submitted];
    let rest = seq![Event::ServiceFailed(err), Event::Signaled] + pend + seq![last];
    assert(valid_run(s, first) && run(s, first) == s) by {
        reveal_with_fuel(valid_run, 4);
        reveal_with_fuel(run, 4);
        assert(first.drop_first() =~= seq![Event::<B, P, I, S>::Request(r), Event::Submitted]);
        assert(first.drop_first().drop_first() =~= seq![Event::<B, P, I, S>::Submitted]);
        assert(first.drop_first().drop_first().drop_first() =~= Seq::<Event<B, P, I, S>>::empty());
    }
    lemma_shutdown_run(err, pend, last);
    lemma_run_concat(s, first, rest);
    let g = State::GoAway { error: err, signaled: true };
    assert(valid_run(g, seq![last])) by {
        reveal_with_fuel(valid_run, 2);
        assert(seq![last].drop_first() =~= Seq::<Event<B, P, I, S>>::empty());
    }
    lemma_pending_close(err, pend);
    lemma_run_concat(g, pend, seq![last]);
    lemma_goaway_run(err, pend + seq![last]);
    let evs = first + rest;
    assert forall|i: int| 1 < i < evs.len() implies !(#[trigger] evs[i] is Request) by {
        if 5 <= i {
            assert(evs[i] == (pend + seq![last])[i - 5]);
        }
    }
}

/// A refused responder finishes the connection at once with `Execute`,
/// whatever was dispatched before.
pub proof fn lemma_rejected<B, P, I, S>()
    ensures
        next_state(
            State::<S>::Ready { stage: Stage::Submit },
            Event::<B, P, I, S>::Rejected,
        ) is Done,
        next_action(
            State::<S>::Ready { stage: Stage::Submit },
            Event::<B, P, I, S>::Rejected,
            Action::<B, P, I, S>::Finish(Err(Error::Execute)),
        ),
{
}

/// A responder whose response fails resets the stream once, with
/// `INTERNAL_ERROR`, and completes: it is then handed nothing more, and
/// resuming it only completes.
pub proof fn lemma_response_failure()
    ensures
        advance(Phase::Respond, Outcome::ResponseFailed) == (
            Phase::Finished,
            Task::Reset { reason: INTERNAL_ERROR },
        ),
        forall|o: Outcome| !accepts(Phase::Finished, o),
        resume_task(Phase::Finished) == Task::Complete,
{
}

/// A responder whose response body is already exhausted sends one response
/// head, with end-of-stream set, and completes without a flush, whether the
/// send succeeds or fails.
pub proof fn lemma_end_stream_no_flush(sent: Outcome)
    requires
        accepts(Phase::Sending { end_stream: true }, sent),
    ensures
        advance(Phase::Respond, Outcome::Response { end_stream: true }) == (
            Phase::Sending { end_stream: true },
            Task::SendHeaders { end_stream: true },
        ),
        advance(Phase::Sending { end_stream: true }, sent) == (Phase::Finished, Task::Complete),
{
}

} // verus!
