use network_analyzer::control::{
    accept_initial_filter, CaptureAction, CaptureState, ControlBlock, FlushAction,
    configure_session, device_label, resolve_initial_device,
};
use network_analyzer::errors::{CaptureError, ConfigError, SnifferError};
use network_analyzer::packet::Packet;
use network_analyzer::parameters::Parameters;
use network_analyzer::report::Report;

#[test]
fn new_session_defaults() {
    let cb = ControlBlock::new();
    assert_eq!(cb.get_state(), CaptureState::Capturing());
    assert_eq!(cb.get_timeout(), 5);
    assert_eq!(cb.get_output_file(), "");
    assert_eq!(cb.get_errors().len(), 0);
}

#[test]
fn state_transitions() {
    let mut cb = ControlBlock::new();
    cb.pause();
    assert_eq!(cb.get_state(), CaptureState::Paused());
    cb.resume();
    assert_eq!(cb.get_state(), CaptureState::Capturing());
    cb.stop();
    assert_eq!(cb.get_state(), CaptureState::Stopped());
}

#[test]
fn pause_then_resume_unblocks_waiters() {
    // A wait loop polls `is_paused`; after pause immediately followed by
    // resume, no waiter's predicate holds, so nothing can stay blocked.
    let mut cb = ControlBlock::new();
    cb.pause();
    assert!(cb.is_paused());
    cb.resume();
    assert!(!cb.is_paused());
    assert_eq!(cb.get_state(), CaptureState::Capturing());
    assert_eq!(cb.get_timeout(), 5);
}

#[test]
fn timeout_is_mutable() {
    let mut cb = ControlBlock::new();
    cb.set_timeout(60);
    assert_eq!(cb.get_timeout(), 60);
}

#[test]
fn set_output_file_stores_usable_path() {
    let mut cb = ControlBlock::new();
    assert!(cb.set_output_file("report.txt".to_string(), true).is_ok());
    assert_eq!(cb.get_output_file(), "report.txt");
}

#[test]
fn unusable_path_keeps_previous_one() {
    // An output path that cannot be created is rejected with a
    // configuration error and the previously configured path stays active.
    let mut cb = ControlBlock::new();
    cb.set_output_file("good.txt".to_string(), true).unwrap();
    let r = cb.set_output_file("/no/such/dir/out.txt".to_string(), false);
    assert!(matches!(
        r,
        Err(SnifferError::ConfigError(ConfigError::InvalidFilePath(_)))
    ));
    assert_eq!(cb.get_output_file(), "good.txt");
}

#[test]
fn resolve_device_index_is_one_based() {
    assert_eq!(ControlBlock::resolve_device_index(1, 3).unwrap(), 0);
    assert_eq!(ControlBlock::resolve_device_index(3, 3).unwrap(), 2);
    assert!(matches!(
        ControlBlock::resolve_device_index(0, 3),
        Err(SnifferError::ConfigError(ConfigError::InvalidDeviceId(_)))
    ));
    assert!(matches!(
        ControlBlock::resolve_device_index(4, 3),
        Err(SnifferError::ConfigError(ConfigError::InvalidDeviceId(_)))
    ));
    assert!(matches!(
        ControlBlock::resolve_device_index(1, 0),
        Err(SnifferError::ConfigError(ConfigError::InvalidDeviceId(_)))
    ));
}

#[test]
fn initial_device_index_is_zero_based() {
    assert_eq!(resolve_initial_device(0, 3).unwrap(), 0);
    assert_eq!(resolve_initial_device(2, 3).unwrap(), 2);
    assert!(matches!(
        resolve_initial_device(3, 3),
        Err(SnifferError::ConfigError(ConfigError::InvalidDeviceId(_)))
    ));
    assert!(matches!(
        resolve_initial_device(0, 0),
        Err(SnifferError::ConfigError(ConfigError::InvalidDeviceId(_)))
    ));
}

#[test]
fn initial_filter_failure_is_a_configuration_error() {
    assert!(accept_initial_filter(Ok(())).is_ok());
    match accept_initial_filter(Err("bad syntax".to_string())) {
        Err(SnifferError::ConfigError(ConfigError::InvalidFilter(m))) => {
            assert_eq!(m, "bad syntax")
        }
        _ => panic!("expected an invalid-filter error"),
    }
}

#[test]
fn successful_filter_change_resumes() {
    let mut cb = ControlBlock::new();
    cb.pause();
    assert!(cb.set_filter(Ok(())).is_ok());
    assert_eq!(cb.get_state(), CaptureState::Capturing());
}

#[test]
fn invalid_filter_waits_for_resume() {
    // A rejected filter expression leaves the session not capturing and
    // reports the capture error instead of silently keeping a stale filter.
    let mut cb = ControlBlock::new();
    assert_eq!(cb.get_state(), CaptureState::Capturing());
    let r = cb.set_filter(Err("syntax error in filter".to_string()));
    match r {
        Err(CaptureError::FilterError(m)) => assert_eq!(m, "syntax error in filter"),
        _ => panic!("expected a filter error"),
    }
    assert!(cb.get_state() != CaptureState::Capturing());
    assert!(cb.is_paused());
}

#[test]
fn error_queue_accumulates_peeks_and_clears() {
    let mut cb = ControlBlock::new();
    cb.push_error(SnifferError::CaptureError(CaptureError::CaptureError(
        "first".to_string(),
    )));
    cb.push_error(SnifferError::CaptureError(CaptureError::CaptureError(
        "second".to_string(),
    )));
    cb.push_error(SnifferError::CaptureError(CaptureError::DeviceError(
        "third".to_string(),
    )));
    assert_eq!(cb.get_errors().len(), 3);
    // Peeking does not drain.
    assert_eq!(cb.get_errors().len(), 3);
    cb.clear_errors(2);
    assert_eq!(cb.get_errors().len(), 1);
    assert_eq!(
        cb.get_errors()[0].message(),
        "Error in capture: Error getting device: third"
    );
    // Clearing more than queued empties the queue without panicking.
    cb.clear_errors(10);
    assert_eq!(cb.get_errors().len(), 0);
}

#[test]
fn error_messages_render() {
    let e = SnifferError::ConfigError(ConfigError::InvalidFilter("bad".to_string()));
    assert_eq!(e.message(), "Error in configuration: Invalid filter: bad");
    let e = SnifferError::ConfigError(ConfigError::InvalidTimeout("t".to_string()));
    assert_eq!(e.message(), "Error in configuration: Invalid timeout: t");
    let e = CaptureError::FilterError("oops".to_string());
    assert_eq!(e.message(), "Error setting filter: oops");
    let e = ConfigError::InvalidDeviceId("7".to_string());
    assert_eq!(e.message(), "Invalid device id: 7");
}

#[test]
fn capture_loop_decisions_follow_state() {
    let mut cb = ControlBlock::new();
    assert_eq!(cb.capture_step(), CaptureAction::ReadFrame());
    assert!(cb.should_dispatch());
    cb.pause();
    assert_eq!(cb.capture_step(), CaptureAction::AwaitResume());
    assert!(!cb.should_dispatch());
    cb.stop();
    assert_eq!(cb.capture_step(), CaptureAction::ExitLoop());
    assert!(!cb.should_dispatch());
}

#[test]
fn flush_task_decisions_follow_state() {
    let mut cb = ControlBlock::new();
    assert_eq!(cb.flush_step(), FlushAction::WriteSnapshot());
    cb.pause();
    assert_eq!(cb.flush_step(), FlushAction::AwaitResume());
    cb.stop();
    // Stopping skips the write but does not terminate the flush task.
    assert_eq!(cb.flush_step(), FlushAction::SkipCycle());
}

#[test]
fn frame_in_flight_at_stop_still_merges() {
    // Once a frame was dispatched before the stop boundary, its merge still
    // lands: the capture loop exits, the pool drains, and the report
    // reflects the frame.
    let mut cb = ControlBlock::new();
    let mut report = Report::new();
    assert!(cb.should_dispatch());
    let in_flight = Packet::new(
        "10:00:00.000".to_string(),
        "10.0.0.1".to_string(),
        "10.0.0.2".to_string(),
        Some("1000".to_string()),
        Some("80".to_string()),
        "TCP".to_string(),
        90,
        String::new(),
    );
    cb.stop();
    assert_eq!(cb.capture_step(), CaptureAction::ExitLoop());
    report.add_packet(in_flight);
    assert_eq!(report.report_lines.len(), 1);
    assert_eq!(report.report_lines[0].bytes_total, 90);
}

#[test]
fn configure_session_applies_parameters() {
    let mut params = Parameters::new();
    params.set_device_id(1);
    params.set_timeout(9);
    params.set_file_path("out.txt".to_string());
    let cb = configure_session(&params, true).unwrap();
    assert_eq!(cb.get_state(), CaptureState::Capturing());
    assert_eq!(cb.get_timeout(), 9);
    assert_eq!(cb.get_output_file(), "out.txt");
}

#[test]
fn configure_session_defaults() {
    // An empty path configures no output, a zero interval keeps the default.
    let mut params = Parameters::new();
    params.set_timeout(0);
    let cb = configure_session(&params, false).unwrap();
    assert_eq!(cb.get_timeout(), 5);
    assert_eq!(cb.get_output_file(), "");
}

#[test]
fn configure_session_rejects_unusable_path() {
    let mut params = Parameters::new();
    params.set_file_path("/no/such/dir/out.txt".to_string());
    let r = configure_session(&params, false);
    assert!(matches!(
        r,
        Err(SnifferError::ConfigError(ConfigError::InvalidFilePath(_)))
    ));
}

#[test]
fn parameters_setters() {
    let mut params = Parameters::new();
    assert_eq!(params.device_id, 0);
    assert_eq!(params.timeout, 5);
    assert!(params.filter.is_none());
    params.set_protocol("tcp port 80".to_string());
    assert_eq!(params.filter.as_deref(), Some("tcp port 80"));
}

#[test]
fn device_label_prefers_description() {
    assert_eq!(
        device_label("eth0".to_string(), Some("Ethernet adapter".to_string())),
        "Ethernet adapter"
    );
    assert_eq!(device_label("eth0".to_string(), None), "eth0");
}
