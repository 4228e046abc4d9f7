use futures::future::Either;
use http::header::HeaderValue;
use http::Request;
use tower_h2_server::{
    Action, Background, Connection, Error, ErrorKind, Event, Modify, Outcome, Phase, Stage, State,
    Task,
};

struct Tag;

impl Modify for Tag {
    fn modify(&mut self, request: &mut Request<()>) {
        request.headers_mut().insert("x-modified", HeaderValue::from_static("yes"));
    }
}

struct Count(usize);

impl Modify for Count {
    fn modify(&mut self, _request: &mut Request<()>) {
        self.0 += 1;
    }
}

type Ev = Event<&'static str, String, String, String>;
type Act = Action<&'static str, String, String, String>;

fn request(body: &'static str) -> Ev {
    Event::Request(Request::builder().uri("/a").body(body).unwrap())
}

fn drive_to_ready<F: Modify>(conn: &mut Connection<F, String>) {
    assert!(matches!(conn.resume::<&'static str, String, String>(), Action::AwaitInit));
    assert!(matches!(conn.step(Ev::Initialized), Act::ProbeService));
}

#[test]
fn new_connection_waits_on_init() {
    let conn: Connection<(), String> = Connection::new(());
    assert!(matches!(conn.state(), State::Init));
    assert!(!conn.is_done());
}

#[test]
fn pending_init_suspends() {
    let mut conn: Connection<(), String> = Connection::new(());
    assert!(matches!(conn.step(Ev::Pending), Act::Suspend));
    assert!(matches!(conn.state(), State::Init));
    assert!(matches!(conn.resume::<&'static str, String, String>(), Action::AwaitInit));
}

#[test]
fn init_success_moves_to_ready_once() {
    let mut conn: Connection<(), String> = Connection::new(());
    drive_to_ready(&mut conn);
    assert!(matches!(conn.state(), State::Ready { stage: Stage::Probe }));
    assert!(!conn.expects(&Ev::Initialized));
}

#[test]
fn handshake_failure_is_handshake_error() {
    let mut conn: Connection<(), String> = Connection::new(());
    let act = conn.step(Ev::InitFailed(Either::A("bad preface".to_string())));
    match act {
        Action::Finish(Err(Error::Handshake(e))) => assert_eq!(e, "bad preface"),
        _ => panic!("expected a handshake error"),
    }
    assert!(conn.is_done());
}

#[test]
fn instantiation_failure_is_new_service_error() {
    let mut conn: Connection<(), String> = Connection::new(());
    let act = conn.step(Ev::InitFailed(Either::B("no service".to_string())));
    match act {
        Action::Finish(Err(Error::NewService(e))) => assert_eq!(e, "no service"),
        _ => panic!("expected a new-service error"),
    }
    assert!(conn.is_done());
    assert!(!conn.expects(&request("x")));
    assert!(matches!(
        conn.resume::<&'static str, String, String>(),
        Action::Finish(Ok(()))
    ));
}

#[test]
fn one_request_is_modified_and_dispatched() {
    let mut conn = Connection::new(Tag);
    drive_to_ready(&mut conn);
    assert!(matches!(conn.step(Ev::ServiceReady), Act::AcceptStream));
    match conn.step(request("empty")) {
        Action::Dispatch(req) => {
            assert_eq!(req.headers()["x-modified"], "yes");
            assert_eq!(req.uri(), "/a");
            assert_eq!(*req.body(), "empty");
        }
        _ => panic!("expected a dispatch"),
    }
    assert!(matches!(conn.state(), State::Ready { stage: Stage::Submit }));
    assert!(matches!(conn.step(Ev::Submitted), Act::ProbeService));
    assert!(matches!(conn.step(Ev::ServiceReady), Act::AcceptStream));
    assert!(matches!(conn.step(Ev::Pending), Act::Suspend));
    assert!(matches!(conn.state(), State::Ready { stage: Stage::Accept }));
}

#[test]
fn hook_runs_once_per_request() {
    let mut conn = Connection::new(Count(0));
    drive_to_ready(&mut conn);
    for _ in 0..3 {
        assert!(matches!(conn.step(Ev::ServiceReady), Act::AcceptStream));
        assert!(matches!(conn.step(request("b")), Act::Dispatch(_)));
        assert!(!conn.expects(&request("c")));
        assert!(matches!(conn.step(Ev::Submitted), Act::ProbeService));
    }
    assert!(matches!(conn.step(Ev::ServiceReady), Act::AcceptStream));
    assert!(matches!(conn.step(Ev::StreamsEnd), Act::Finish(Ok(()))));
    assert!(conn.is_done());
}

#[test]
fn service_failure_shuts_down_gracefully() {
    let mut conn: Connection<(), String> = Connection::new(());
    drive_to_ready(&mut conn);
    assert!(matches!(conn.step(Ev::ServiceReady), Act::AcceptStream));
    assert!(matches!(conn.step(request("first")), Act::Dispatch(_)));
    assert!(matches!(conn.step(Ev::Submitted), Act::ProbeService));
    assert!(matches!(
        conn.step(Ev::ServiceFailed("overloaded".to_string())),
        Act::CloseConnection
    ));
    assert!(!conn.expects(&request("third")));
    assert!(matches!(conn.resume::<&'static str, String, String>(), Action::CloseConnection));
    assert!(matches!(conn.step(Ev::Signaled), Act::AwaitClose));
    assert!(!conn.expects(&Ev::Signaled));
    assert!(!conn.expects(&request("third")));
    assert!(matches!(conn.step(Ev::Pending), Act::Suspend));
    assert!(matches!(conn.resume::<&'static str, String, String>(), Action::AwaitClose));
    match conn.step(Ev::Closed) {
        Action::Finish(Err(Error::Service(e))) => assert_eq!(e, "overloaded"),
        _ => panic!("expected the service error"),
    }
    assert!(conn.is_done());
}

#[test]
fn close_error_is_replaced_by_service_error() {
    let mut conn: Connection<(), String> = Connection::new(());
    drive_to_ready(&mut conn);
    assert!(matches!(conn.step(Ev::ServiceFailed("gone".to_string())), Act::CloseConnection));
    assert!(matches!(conn.step(Ev::Signaled), Act::AwaitClose));
    match conn.step(Ev::CloseFailed("reset by peer".to_string())) {
        Action::Finish(Err(e)) => {
            assert_eq!(e.kind(), ErrorKind::Service);
            assert!(matches!(e, Error::Service(ref s) if s == "gone"));
        }
        _ => panic!("expected the service error"),
    }
}

#[test]
fn rejected_submission_fails_connection() {
    let mut conn: Connection<(), String> = Connection::new(());
    drive_to_ready(&mut conn);
    assert!(matches!(conn.step(Ev::ServiceReady), Act::AcceptStream));
    assert!(matches!(conn.step(request("one")), Act::Dispatch(_)));
    assert!(matches!(conn.step(Ev::Submitted), Act::ProbeService));
    assert!(matches!(conn.step(Ev::ServiceReady), Act::AcceptStream));
    assert!(matches!(conn.step(request("two")), Act::Dispatch(_)));
    match conn.step(Ev::Rejected) {
        Action::Finish(Err(e)) => assert_eq!(e.kind(), ErrorKind::Execute),
        _ => panic!("expected an execute error"),
    }
    assert!(conn.is_done());
}

#[test]
fn stream_error_is_protocol_error() {
    let mut conn: Connection<(), String> = Connection::new(());
    drive_to_ready(&mut conn);
    assert!(matches!(conn.step(Ev::ServiceReady), Act::AcceptStream));
    match conn.step(Ev::StreamFailed("frame size".to_string())) {
        Action::Finish(Err(Error::Protocol(e))) => assert_eq!(e, "frame size"),
        _ => panic!("expected a protocol error"),
    }
    assert!(conn.is_done());
}

#[test]
fn not_ready_service_suspends_and_resumes_probe() {
    let mut conn: Connection<(), String> = Connection::new(());
    drive_to_ready(&mut conn);
    assert!(matches!(conn.step(Ev::Pending), Act::Suspend));
    assert!(matches!(conn.resume::<&'static str, String, String>(), Action::ProbeService));
}

#[test]
fn noop_hook_keeps_request() {
    let mut hook = ();
    let req = Request::builder().method("POST").uri("/x").header("a", "1").body(7u8).unwrap();
    let out = tower_h2_server::rewrite_request(&mut hook, req);
    assert_eq!(out.method(), "POST");
    assert_eq!(out.uri(), "/x");
    assert_eq!(out.headers()["a"], "1");
    assert_eq!(*out.body(), 7u8);
}

#[test]
fn scenario_one_request_empty_body() {
    let mut conn = Connection::new(Tag);
    drive_to_ready(&mut conn);
    assert!(matches!(conn.step(Ev::ServiceReady), Act::AcceptStream));
    let dispatched = match conn.step(request("")) {
        Action::Dispatch(req) => req,
        _ => panic!("expected a dispatch"),
    };
    assert_eq!(dispatched.headers()["x-modified"], "yes");
    let mut responder = Background::new();
    assert_eq!(responder.resume(), Task::AwaitResponse);
    assert_eq!(
        responder.step(Outcome::Response { end_stream: true }),
        Task::SendHeaders { end_stream: true }
    );
    assert_eq!(responder.step(Outcome::HeadersSent), Task::Complete);
    assert_eq!(responder.phase(), Phase::Finished);
    assert!(matches!(conn.step(Ev::Submitted), Act::ProbeService));
    assert!(matches!(conn.step(Ev::ServiceReady), Act::AcceptStream));
    assert!(matches!(conn.step(Ev::Pending), Act::Suspend));
    assert!(matches!(conn.state(), State::Ready { .. }));
}

#[test]
fn scenario_second_readiness_check_fails() {
    let mut conn: Connection<Count, String> = Connection::new(Count(0));
    drive_to_ready(&mut conn);
    assert!(matches!(conn.step(Ev::ServiceReady), Act::AcceptStream));
    assert!(matches!(conn.step(request("first")), Act::Dispatch(_)));
    assert!(matches!(conn.step(Ev::Submitted), Act::ProbeService));
    assert!(matches!(
        conn.step(Ev::ServiceFailed("second check".to_string())),
        Act::CloseConnection
    ));
    assert!(matches!(conn.step(Ev::Signaled), Act::AwaitClose));
    assert!(!conn.expects(&request("third")));
    for _ in 0..3 {
        assert!(matches!(conn.step(Ev::Pending), Act::Suspend));
        assert!(matches!(conn.resume::<&'static str, String, String>(), Action::AwaitClose));
    }
    match conn.step(Ev::Closed) {
        Action::Finish(Err(Error::Service(e))) => assert_eq!(e, "second check"),
        _ => panic!("expected the service error"),
    }
    assert!(conn.is_done());
    assert!(matches!(
        conn.resume::<&'static str, String, String>(),
        Action::Finish(Ok(()))
    ));
}

#[test]
fn protocol_error_can_be_an_h2_error() {
    let mut conn: Connection<(), u8> = Connection::new(());
    assert!(matches!(
        conn.step(Event::<(), h2::Error, u8, u8>::Initialized),
        Action::ProbeService
    ));
    assert!(matches!(
        conn.step(Event::<(), h2::Error, u8, u8>::ServiceReady),
        Action::AcceptStream
    ));
    let err = h2::Error::from(h2::Reason::PROTOCOL_ERROR);
    match conn.step(Event::<(), h2::Error, u8, u8>::StreamFailed(err)) {
        Action::Finish(Err(Error::Protocol(e))) => {
            assert_eq!(e.reason(), Some(h2::Reason::PROTOCOL_ERROR))
        }
        _ => panic!("expected a protocol error"),
    }
}
