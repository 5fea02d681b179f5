use hall_monitor::channel::{sensor_status, Level, StateChannel, CHANNEL_CAPACITY};
use hall_monitor::device_id::create_id_from_mac;
use hall_monitor::monitor::{MonitorAction, MonitorEvent, SensorMonitor, DEBOUNCE_MS};
use hall_monitor::reporter::{Reporter, ReporterAction, Wake, RESET_GRACE_MS};
use hall_monitor::startup::{GateAction, StartupGate, LINK_POLL_MS};
use hall_monitor::supervisor::{
    ConnectionState, ConnectionSupervisor, SupervisorAction, SupervisorEvent, BACKOFF_MS,
};
use hall_monitor::url::{build_url, ConfigurationError};

#[test]
fn id_left_pads_mac() {
    let id = create_id_from_mac([0x01, 0x02, 0x03, 0x04, 0x05, 0x06]);
    assert_eq!(id, 0x0000_0102_0304_0506);
    assert_eq!(id, 1108152157446);
}

#[test]
fn id_of_extreme_macs() {
    assert_eq!(create_id_from_mac([0; 6]), 0);
    assert_eq!(create_id_from_mac([0xff; 6]), 0xffff_ffff_ffff);
    assert_eq!(create_id_from_mac([0, 0, 0, 0, 0, 1]), 1);
    assert_eq!(create_id_from_mac([0x80, 0, 0, 0, 0, 0]), 0x8000_0000_0000);
}

#[test]
fn url_for_example_inputs() {
    let url = build_url("10.0.0.5:3000", 42, true).unwrap();
    assert_eq!(url.as_str(), "http://10.0.0.5:3000/api/42/true");
}

#[test]
fn url_with_false_status_and_zero_id() {
    let url = build_url("host:80", 0, false).unwrap();
    assert_eq!(url.as_str(), "http://host:80/api/0/false");
}

#[test]
fn url_with_largest_id() {
    let url = build_url("h", u64::MAX, true).unwrap();
    assert_eq!(url.as_str(), "http://h/api/18446744073709551615/true");
}

#[test]
fn url_exactly_at_capacity_fits() {
    // 7 + base + 5 + 1 + 1 + 4 = 128 bytes
    let base = "a".repeat(110);
    let url = build_url(&base, 7, true).unwrap();
    assert_eq!(url.len(), 128);
    assert!(url.as_str().ends_with("/api/7/true"));
}

#[test]
fn url_one_byte_over_capacity_is_a_configuration_error() {
    let base = "a".repeat(111);
    assert_eq!(build_url(&base, 7, true).unwrap_err(), ConfigurationError::UrlTooLong);
}

#[test]
fn url_counts_multibyte_characters_by_bytes() {
    // 55 two-byte characters: 110 bytes, which still fits
    let base = "é".repeat(55);
    assert!(build_url(&base, 7, true).is_ok());
    let base = "é".repeat(56);
    assert!(build_url(&base, 7, true).is_err());
}

#[test]
fn status_is_inverted_level() {
    assert!(sensor_status(Level::Low));
    assert!(!sensor_status(Level::High));
}

#[test]
fn channel_keeps_order() {
    let mut ch = StateChannel::new();
    for l in [Level::High, Level::Low, Level::High] {
        assert!(ch.try_send(l).is_ok());
    }
    assert_eq!(ch.len(), 3);
    assert_eq!(ch.try_receive(), Some(Level::High));
    assert_eq!(ch.try_receive(), Some(Level::Low));
    assert_eq!(ch.try_receive(), Some(Level::High));
    assert_eq!(ch.try_receive(), None);
}

#[test]
fn channel_full_hands_level_back() {
    let mut ch = StateChannel::new();
    for _ in 0..CHANNEL_CAPACITY {
        assert!(ch.try_send(Level::Low).is_ok());
    }
    assert!(ch.is_full());
    assert_eq!(ch.try_send(Level::High), Err(Level::High));
    assert_eq!(ch.len(), CHANNEL_CAPACITY);
    assert_eq!(ch.try_receive(), Some(Level::Low));
    assert!(!ch.is_full());
    assert!(ch.try_send(Level::High).is_ok());
}

#[test]
fn debounce_collapses_bounces_to_settled_level() {
    let mut m = SensorMonitor::new();
    assert_eq!(m.next_action(), MonitorAction::WaitForEdge);
    let mut pushed = Vec::new();
    for _ in 0..5 {
        if let Some(l) = m.on_event(MonitorEvent::Edge) {
            pushed.push(l);
        }
        assert_eq!(m.next_action(), MonitorAction::Sleep { millis: DEBOUNCE_MS });
    }
    if let Some(l) = m.on_event(MonitorEvent::WindowElapsed(Level::Low)) {
        pushed.push(l);
    }
    assert_eq!(pushed, vec![Level::Low]);
    assert_eq!(m.next_action(), MonitorAction::WaitForEdge);
}

#[test]
fn window_end_without_edge_pushes_nothing() {
    let mut m = SensorMonitor::new();
    assert_eq!(m.on_event(MonitorEvent::WindowElapsed(Level::High)), None);
    assert_eq!(m.next_action(), MonitorAction::WaitForEdge);
}

#[test]
fn supervisor_starts_then_connects() {
    let mut s = ConnectionSupervisor::new();
    assert_eq!(s.next_action(), SupervisorAction::StartRadio);
    s.on_event(SupervisorEvent::RadioStarted);
    assert_eq!(s.state(), ConnectionState::Started);
    assert_eq!(s.next_action(), SupervisorAction::Connect);
    s.on_event(SupervisorEvent::ConnectSucceeded);
    assert_eq!(s.state(), ConnectionState::Connected);
    assert_eq!(s.next_action(), SupervisorAction::AwaitDisconnect);
}

#[test]
fn supervisor_retries_after_five_failures() {
    let mut s = ConnectionSupervisor::new();
    s.on_event(SupervisorEvent::RadioStarted);
    for _ in 0..5 {
        assert_eq!(s.next_action(), SupervisorAction::Connect);
        s.on_event(SupervisorEvent::ConnectFailed);
        assert_eq!(s.state(), ConnectionState::Disconnected);
        assert_eq!(s.next_action(), SupervisorAction::Backoff { millis: 5000 });
        s.on_event(SupervisorEvent::BackoffElapsed { radio_started: true });
    }
    assert_eq!(s.next_action(), SupervisorAction::Connect);
}

#[test]
fn supervisor_backs_off_after_disconnect_and_restarts_stopped_radio() {
    let mut s = ConnectionSupervisor::new();
    s.on_event(SupervisorEvent::RadioStarted);
    s.on_event(SupervisorEvent::ConnectSucceeded);
    s.on_event(SupervisorEvent::LinkLost);
    assert_eq!(s.state(), ConnectionState::Disconnected);
    assert_eq!(s.next_action(), SupervisorAction::Backoff { millis: BACKOFF_MS });
    s.on_event(SupervisorEvent::BackoffElapsed { radio_started: false });
    assert_eq!(s.state(), ConnectionState::NotStarted);
    assert_eq!(s.next_action(), SupervisorAction::StartRadio);
}

#[test]
fn supervisor_ignores_unrelated_event() {
    let mut s = ConnectionSupervisor::new();
    s.on_event(SupervisorEvent::ConnectFailed);
    assert_eq!(s.state(), ConnectionState::NotStarted);
    assert_eq!(s.next_action(), SupervisorAction::StartRadio);
}

#[test]
fn reporter_heartbeat_reuses_last_level() {
    let mut r = Reporter::new(42, Level::High);
    match r.on_wake("10.0.0.5:3000", Wake::Received(Level::Low)) {
        ReporterAction::Notify(url) => assert_eq!(url.as_str(), "http://10.0.0.5:3000/api/42/true"),
        other => panic!("unexpected {:?}", other),
    }
    for _ in 0..3 {
        match r.on_wake("10.0.0.5:3000", Wake::TimedOut) {
            ReporterAction::Notify(url) => {
                assert_eq!(url.as_str(), "http://10.0.0.5:3000/api/42/true")
            }
            other => panic!("unexpected {:?}", other),
        }
        assert_eq!(r.level(), Level::Low);
    }
    match r.on_wake("10.0.0.5:3000", Wake::Received(Level::High)) {
        ReporterAction::Notify(url) => assert_eq!(url.as_str(), "http://10.0.0.5:3000/api/42/false"),
        other => panic!("unexpected {:?}", other),
    }
}

#[test]
fn reporter_overflow_asks_for_grace_then_reset() {
    let mut r = Reporter::new(1, Level::Low);
    let base = "x".repeat(200);
    match r.on_wake(&base, Wake::TimedOut) {
        ReporterAction::ResetAfter { millis } => {
            assert_eq!(millis, RESET_GRACE_MS);
            assert_eq!(millis, 30000);
        }
        other => panic!("unexpected {:?}", other),
    }
    assert_eq!(r.level(), Level::Low);
    assert_eq!(r.id(), 1);
}

#[test]
fn startup_gate_polls_link_before_address() {
    let mut g = StartupGate::new();
    assert_eq!(g.next_action(), GateAction::PollLink);
    g.on_result(false);
    assert_eq!(g.next_action(), GateAction::Wait { millis: LINK_POLL_MS });
    g.on_result(false);
    assert_eq!(g.next_action(), GateAction::PollLink);
    g.on_result(true);
    assert_eq!(g.next_action(), GateAction::PollAddress);
    g.on_result(false);
    assert_eq!(g.next_action(), GateAction::Wait { millis: 500 });
    g.on_result(true);
    assert_eq!(g.next_action(), GateAction::PollAddress);
    g.on_result(true);
    assert_eq!(g.next_action(), GateAction::Proceed);
    g.on_result(false);
    assert_eq!(g.next_action(), GateAction::Proceed);
}

#[test]
fn channel_keeps_order_when_interleaved() {
    let mut ch = StateChannel::new();
    assert!(ch.try_send(Level::High).is_ok());
    assert!(ch.try_send(Level::Low).is_ok());
    assert_eq!(ch.try_receive(), Some(Level::High));
    assert!(ch.try_send(Level::High).is_ok());
    assert_eq!(ch.try_receive(), Some(Level::Low));
    assert!(ch.try_send(Level::Low).is_ok());
    assert_eq!(ch.try_receive(), Some(Level::High));
    assert_eq!(ch.try_receive(), Some(Level::Low));
    assert_eq!(ch.try_receive(), None);
}
