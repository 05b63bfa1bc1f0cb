use rust_streamer::client::StreamingClientError;
use rust_streamer::command::{Command, SessionState, SetupError};
use rust_streamer::server::StreamingServerError;
use rust_streamer::streaming::{SessionController, Streaming, StreamingError};

#[test]
fn start_without_role_is_refused() {
    let mut c = SessionController::new();
    assert!(c.start_commands().is_empty());
    assert_eq!(c.start(Ok(())), (Err(StreamingError::NoSessionConfigured), vec![]));
    assert!(c.stop().is_empty());
    assert_eq!(c.state(), SessionState::Idle);
}

#[test]
fn caster_role_starts_and_stops() {
    let mut c = SessionController::new();
    assert_eq!(c.ensure_caster(1280, 720), Ok(()));
    assert_eq!(c.start_commands().len(), 5);
    assert_eq!(c.start(Ok(())).0, Ok(()));
    assert_eq!(c.state(), SessionState::Casting);
    assert_eq!(c.ensure_caster(1280, 720), Ok(()));
    assert_eq!(c.state(), SessionState::Casting);
    assert_eq!(c.ensure_receiver("10.0.0.5", false), Err(StreamingError::Busy));
    assert_eq!(c.stop(), vec![Command::Stop { drain: true }, Command::CloseEndpoint]);
    assert_eq!(c.state(), SessionState::Idle);
    assert!(c.stop().is_empty());
}

#[test]
fn receiver_role_checks_address() {
    let mut c = SessionController::new();
    assert_eq!(
        c.ensure_receiver("10.0.0", false),
        Err(StreamingError::Client(StreamingClientError::InvalidAddress))
    );
    assert!(c.session.is_none());
    assert_eq!(c.ensure_receiver("10.0.0.5", true), Ok(()));
    assert_eq!(c.start(Ok(())).0, Ok(()));
    assert_eq!(c.state(), SessionState::Receiving);
    assert_eq!(c.ensure_caster(1280, 720), Err(StreamingError::Busy));
    if let Some(Streaming::Client(r)) = &mut c.session {
        r.on_disconnect();
    }
    assert_eq!(c.state(), SessionState::Idle);
    assert_eq!(c.ensure_caster(1280, 720), Ok(()));
    assert!(matches!(c.session, Some(Streaming::Server(_))));
}

#[test]
fn controller_surfaces_role_errors() {
    let mut c = SessionController::new();
    c.ensure_caster(1280, 720).unwrap();
    let (r, cleanup) = c.start(Err(SetupError::Bind("in use".to_string())));
    assert_eq!(
        r,
        Err(StreamingError::Server(StreamingServerError::Setup(SetupError::Bind("in use".to_string()))))
    );
    assert_eq!(cleanup.len(), 2);
    assert_eq!(c.state(), SessionState::Idle);
}

#[test]
fn streaming_constructors() {
    assert!(matches!(Streaming::new_client("1.2.3", false), Err(StreamingClientError::InvalidAddress)));
    let mut s = Streaming::new_client("1.2.3.4", false).unwrap();
    assert_eq!(s.state(), SessionState::Idle);
    assert_eq!(s.start(Ok(())).0, Ok(()));
    assert_eq!(s.state(), SessionState::Receiving);
    assert_eq!(s.stop().len(), 2);
    let mut t = Streaming::new_server(800, 600);
    assert_eq!(t.start_commands()[0], Command::OpenListener);
    assert_eq!(t.start(Ok(())).0, Ok(()));
    assert_eq!(t.state(), SessionState::Casting);
}
