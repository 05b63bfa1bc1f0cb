use rust_streamer::client::{StreamingClient, StreamingClientError};
use rust_streamer::command::{Command, SessionState, SetupError};

#[test]
fn invalid_address_is_refused_before_anything_opens() {
    for a in ["", "10.0.0", "10.0.0.256", "host.local", "10.0.0.5:9000"] {
        assert!(matches!(StreamingClient::new(a, false), Err(StreamingClientError::InvalidAddress)));
        assert!(matches!(StreamingClient::new(a, true), Err(StreamingClientError::InvalidAddress)));
    }
}

#[test]
fn start_then_caster_drops() {
    let mut c = StreamingClient::new("10.0.0.5", true).unwrap();
    assert_eq!(
        c.start_commands(),
        vec![
            Command::Dial("10.0.0.5".to_string()),
            Command::OpenPlayback { record: true },
            Command::Play,
        ]
    );
    assert_eq!(c.start(Ok(())), (Ok(()), vec![]));
    assert_eq!(c.state(), SessionState::Receiving);
    assert!(c.is_connected());
    assert_eq!(c.on_disconnect(), vec![Command::Stop { drain: true }, Command::CloseEndpoint]);
    assert!(!c.is_connected());
    assert_eq!(c.state(), SessionState::Idle);
}

#[test]
fn disconnect_reported_twice_goes_idle_once() {
    let mut c = StreamingClient::new("192.168.0.3", false).unwrap();
    c.start(Ok(()));
    assert_eq!(c.on_disconnect().len(), 2);
    assert!(c.on_disconnect().is_empty());
    assert_eq!(c.state(), SessionState::Idle);
}

#[test]
fn refused_connection_stays_idle() {
    let mut c = StreamingClient::new("10.0.0.5", false).unwrap();
    let (r, cleanup) = c.start(Err(SetupError::ConnectRefused));
    assert_eq!(r, Err(StreamingClientError::Setup(SetupError::ConnectRefused)));
    assert_eq!(cleanup, vec![Command::Stop { drain: false }, Command::CloseEndpoint]);
    assert_eq!(c.state(), SessionState::Idle);
    assert!(!c.is_connected());
}

#[test]
fn receiver_stop_twice() {
    let mut c = StreamingClient::new("10.0.0.5", false).unwrap();
    c.start(Ok(()));
    assert_eq!(c.stop().len(), 2);
    assert_eq!(c.state(), SessionState::Idle);
    assert!(c.stop().is_empty());
    assert_eq!(c.state(), SessionState::Idle);
}

#[test]
fn receiver_keeps_its_settings() {
    let c = StreamingClient::new("10.0.0.5", true).unwrap();
    assert_eq!(c.address(), "10.0.0.5");
    assert!(c.save_stream());
    assert!(c.start_commands().contains(&Command::OpenPlayback { record: true }));
}
