use pgt_daemon::daemon::{
    forward_step, server_outcome, start_message, stop_outcome, tunnel_outcome, Cancellation,
    CopyResult, ForwardStep, Probe, ServerEvent, ShutdownReply, StopReport, Supervisor,
    SupervisorAction,
};

#[test]
fn stop_without_listener_reports_not_running() {
    let r = stop_outcome(None);
    assert_eq!(r, Ok(StopReport::NotRunning));
    assert_eq!(r.unwrap().message(), "The server was not running");
}

#[test]
fn stop_succeeds_with_or_without_acknowledgment() {
    assert_eq!(stop_outcome(Some(ShutdownReply::Acknowledged)), Ok(StopReport::Stopped));
    assert_eq!(stop_outcome(Some(ShutdownReply::ChannelClosed)), Ok(StopReport::Stopped));
    assert_eq!(StopReport::Stopped.message(), "The server was successfully stopped");
}

#[test]
fn stop_surfaces_other_errors() {
    assert_eq!(
        stop_outcome(Some(ShutdownReply::Failed("broken pipe".to_string()))),
        Err("broken pipe".to_string())
    );
}

#[test]
fn start_messages() {
    assert_eq!(start_message(true), "The server was successfully started");
    assert_eq!(start_message(false), "The server was already running");
}

#[test]
fn supervisor_finds_running_daemon() {
    let mut s = Supervisor::new(3);
    assert_eq!(s.on_probe(Probe::Connected), SupervisorAction::Ready { spawned: false });
}

#[test]
fn supervisor_spawns_once_then_polls() {
    let mut s = Supervisor::new(2);
    assert_eq!(s.on_probe(Probe::Unavailable), SupervisorAction::Spawn);
    assert_eq!(s.on_probe(Probe::Unavailable), SupervisorAction::Retry);
    assert_eq!(s.on_probe(Probe::Connected), SupervisorAction::Ready { spawned: true });
}

#[test]
fn supervisor_times_out_after_bound() {
    let mut s = Supervisor::new(2);
    assert_eq!(s.on_probe(Probe::Unavailable), SupervisorAction::Spawn);
    assert_eq!(s.on_probe(Probe::Unavailable), SupervisorAction::Retry);
    assert_eq!(s.on_probe(Probe::Unavailable), SupervisorAction::Retry);
    assert_eq!(s.on_probe(Probe::Unavailable), SupervisorAction::TimedOut);
    assert_eq!(s.on_probe(Probe::Unavailable), SupervisorAction::TimedOut);
}

#[test]
fn forward_loop_steps() {
    assert_eq!(forward_step(CopyResult::Copied(0)), ForwardStep::Finished);
    assert_eq!(forward_step(CopyResult::Copied(17)), ForwardStep::Continue);
    assert_eq!(
        forward_step(CopyResult::Failed("reset".to_string())),
        ForwardStep::Failed("reset".to_string())
    );
}

#[test]
fn tunnel_reports_only_failed_directions() {
    assert_eq!(tunnel_outcome(Ok(()), Ok(())), Ok(()));
    assert_eq!(tunnel_outcome(Err("in".to_string()), Ok(())), Err("in".to_string()));
    assert_eq!(tunnel_outcome(Ok(()), Err("out".to_string())), Err("out".to_string()));
    assert_eq!(tunnel_outcome(Err("in".to_string()), Err("out".to_string())), Err("in".to_string()));
}

#[test]
fn cancellation_makes_server_succeed() {
    assert_eq!(server_outcome(ServerEvent::Cancelled), Ok(()));
    assert_eq!(
        server_outcome(ServerEvent::LoopFailed("address in use".to_string())),
        Err("address in use".to_string())
    );
}

#[test]
fn cancellation_fires_once() {
    let mut c = Cancellation::new();
    assert!(!c.is_cancelled());
    assert!(c.cancel());
    assert!(c.is_cancelled());
    assert!(!c.cancel());
    assert!(c.is_cancelled());
}
