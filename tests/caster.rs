use rust_streamer::command::{CaptureRegion, Command, ScreenSource, SessionState, SetupError};
use rust_streamer::server::{StreamingServer, StreamingServerError};

fn casting() -> StreamingServer {
    let mut s = StreamingServer::new(1920, 1080);
    let (r, cleanup) = s.start(Ok(()));
    assert_eq!(r, Ok(()));
    assert!(cleanup.is_empty());
    s
}

#[test]
fn start_without_region_captures_full_screen_then_region_applies_at_once() {
    let mut s = StreamingServer::new(1920, 1080);
    let plan = s.start_commands();
    assert_eq!(
        plan,
        vec![
            Command::OpenListener,
            Command::OpenCapture,
            Command::SetCaptureRegion(None),
            Command::SetSource(ScreenSource::Live),
            Command::Play,
        ]
    );
    assert_eq!(s.start(Ok(())).0, Ok(()));
    assert_eq!(s.state(), SessionState::Casting);
    s.on_connect("10.0.0.7".to_string());
    let region = CaptureRegion { start_x: 0, start_y: 0, end_x: 800, end_y: 600 };
    let cmds = s.set_capture_region(Some(region)).unwrap();
    assert_eq!(cmds, vec![Command::SetCaptureRegion(Some(region))]);
    assert_eq!(s.region(), Some(region));
    assert_eq!(s.viewer_count(), 1);
    assert!(s.has_viewer(&"10.0.0.7".to_string()));
}

#[test]
fn viewers_counted_through_connects_and_disconnects() {
    let mut s = casting();
    let addrs = ["10.0.0.2", "10.0.0.3", "10.0.0.4"];
    for a in addrs {
        assert_eq!(s.on_connect(a.to_string()), vec![Command::AddTarget(a.to_string())]);
    }
    assert_eq!(s.viewer_count(), 3);
    assert_eq!(
        s.on_disconnect("10.0.0.3".to_string()),
        vec![Command::RemoveTarget("10.0.0.3".to_string())]
    );
    assert_eq!(s.viewer_count(), 2);
    assert_eq!(s.state(), SessionState::Casting);
    s.on_disconnect("10.0.0.2".to_string());
    s.on_disconnect("10.0.0.4".to_string());
    assert_eq!(s.viewer_count(), 0);
    assert_eq!(s.state(), SessionState::Casting);
}

#[test]
fn repeated_connect_and_unknown_disconnect_change_nothing() {
    let mut s = casting();
    s.on_connect("10.0.0.2".to_string());
    assert!(s.on_connect("10.0.0.2".to_string()).is_empty());
    assert_eq!(s.viewer_count(), 1);
    assert!(s.on_disconnect("10.0.0.9".to_string()).is_empty());
    assert_eq!(s.viewer_count(), 1);
}

#[test]
fn connect_while_idle_is_ignored() {
    let mut s = StreamingServer::new(1920, 1080);
    assert!(s.on_connect("10.0.0.2".to_string()).is_empty());
    assert_eq!(s.viewer_count(), 0);
}

#[test]
fn connect_while_paused_still_adds_target() {
    let mut s = casting();
    assert_eq!(s.pause(Ok(())).0, Ok(()));
    assert_eq!(s.on_connect("10.0.0.2".to_string()), vec![Command::AddTarget("10.0.0.2".to_string())]);
    assert_eq!(s.viewer_count(), 1);
}

#[test]
fn start_twice_is_a_no_op() {
    let mut s = casting();
    assert!(s.start_commands().is_empty());
    assert_eq!(s.start(Err(SetupError::Pipeline("x".to_string()))), (Ok(()), vec![]));
    assert_eq!(s.state(), SessionState::Casting);
}

#[test]
fn failed_start_stays_idle() {
    let mut s = StreamingServer::new(1920, 1080);
    let (r, cleanup) = s.start(Err(SetupError::Bind("port in use".to_string())));
    assert_eq!(r, Err(StreamingServerError::Setup(SetupError::Bind("port in use".to_string()))));
    assert_eq!(cleanup, vec![Command::Stop { drain: false }, Command::CloseEndpoint]);
    assert_eq!(s.state(), SessionState::Idle);
}

#[test]
fn stop_twice_is_idle_both_times() {
    let mut s = casting();
    s.on_connect("10.0.0.2".to_string());
    assert_eq!(s.stop(), vec![Command::Stop { drain: true }, Command::CloseEndpoint]);
    assert_eq!(s.state(), SessionState::Idle);
    assert_eq!(s.viewer_count(), 0);
    assert!(s.stop().is_empty());
    assert_eq!(s.state(), SessionState::Idle);
}

#[test]
fn stop_while_paused_does_not_drain() {
    let mut s = casting();
    s.pause(Ok(()));
    assert_eq!(s.stop(), vec![Command::Stop { drain: false }, Command::CloseEndpoint]);
    assert!(!s.is_paused());
}

#[test]
fn pause_then_resume_restores_session() {
    let mut s = casting();
    s.on_connect("10.0.0.2".to_string());
    assert_eq!(s.pause_commands(), vec![Command::Pause]);
    assert_eq!(s.pause(Ok(())), (Ok(()), vec![]));
    assert!(s.is_paused());
    assert_eq!(s.resume_commands(), vec![Command::Play]);
    assert_eq!(s.resume(Ok(())), (Ok(()), vec![]));
    assert!(!s.is_paused());
    assert_eq!(s.state(), SessionState::Casting);
    assert_eq!(s.viewer_count(), 1);
}

#[test]
fn failed_pause_forces_idle() {
    let mut s = casting();
    s.on_connect("10.0.0.2".to_string());
    let (r, cleanup) = s.pause(Err(SetupError::Pipeline("broken".to_string())));
    assert_eq!(r, Err(StreamingServerError::Setup(SetupError::Pipeline("broken".to_string()))));
    assert_eq!(cleanup, vec![Command::Stop { drain: false }, Command::CloseEndpoint]);
    assert_eq!(s.state(), SessionState::Idle);
    assert_eq!(s.viewer_count(), 0);
}

#[test]
fn failed_resume_forces_idle() {
    let mut s = casting();
    s.pause(Ok(()));
    let (r, _) = s.resume(Err(SetupError::Pipeline("broken".to_string())));
    assert!(r.is_err());
    assert_eq!(s.state(), SessionState::Idle);
}

#[test]
fn pause_when_idle_is_refused() {
    let mut s = StreamingServer::new(1920, 1080);
    assert!(s.pause_commands().is_empty());
    assert_eq!(s.pause(Ok(())), (Err(StreamingServerError::NotCasting), vec![]));
    assert_eq!(s.resume(Ok(())).0, Err(StreamingServerError::NotCasting));
}

#[test]
fn region_outside_screen_is_refused() {
    let mut s = casting();
    assert_eq!(s.capture_resize(0, 0, 1921, 100), Err(StreamingServerError::InvalidRegion));
    assert_eq!(s.capture_resize(100, 0, 100, 100), Err(StreamingServerError::InvalidRegion));
    assert_eq!(s.capture_resize(0, 50, 10, 20), Err(StreamingServerError::InvalidRegion));
    assert_eq!(s.region(), None);
    let edge = s.capture_resize(0, 0, 1920, 1080).unwrap();
    assert_eq!(
        edge,
        vec![Command::SetCaptureRegion(Some(CaptureRegion { start_x: 0, start_y: 0, end_x: 1920, end_y: 1080 }))]
    );
}

#[test]
fn region_set_while_idle_applies_at_start() {
    let mut s = StreamingServer::new(1920, 1080);
    assert!(s.capture_resize(10, 20, 30, 40).unwrap().is_empty());
    assert!(s.blank_screen().is_empty());
    let region = CaptureRegion { start_x: 10, start_y: 20, end_x: 30, end_y: 40 };
    assert_eq!(s.start_commands()[2], Command::SetCaptureRegion(Some(region)));
    assert_eq!(s.start_commands()[3], Command::SetSource(ScreenSource::Blank));
}

#[test]
fn fullscreen_clears_region() {
    let mut s = casting();
    s.capture_resize(10, 20, 30, 40).unwrap();
    assert_eq!(s.capture_fullscreen(), vec![Command::SetCaptureRegion(None)]);
    assert_eq!(s.region(), None);
}

#[test]
fn blank_and_restore_switch_source() {
    let mut s = casting();
    assert_eq!(s.blank_screen(), vec![Command::SetSource(ScreenSource::Blank)]);
    assert_eq!(s.source(), ScreenSource::Blank);
    assert_eq!(s.restore_screen(), vec![Command::SetSource(ScreenSource::Live)]);
    assert_eq!(s.source(), ScreenSource::Live);
    assert_eq!(s.state(), SessionState::Casting);
}
