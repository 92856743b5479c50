use b0xx_viewer::b0xx_state::{B0xxState, END_BYTE};
use b0xx_viewer::backoff::Backoff;
use b0xx_viewer::error::{IoFault, SerialFault, ViewerError};
use b0xx_viewer::frame_reader::ReaderPhase;
use b0xx_viewer::locator::{PortDescriptor, PortKind, UsbPortInfo};
use b0xx_viewer::serial_probe::{
    latest_message, reconnect, start_serial_probe, B0xxMessage, FlowControl, Parity, PortSettings,
    CHANNEL_CAPACITY,
};
use b0xx_viewer::supervisor::{Supervisor, SupervisorAction, SupervisorEvent, SupervisorState};
use b0xx_viewer::usb::UsbDefinition;

fn connected() -> Supervisor {
    let mut supervisor = Supervisor::new(Backoff::default());
    assert_eq!(supervisor.step(SupervisorEvent::AttemptSucceeded), SupervisorAction::Resume);
    assert_eq!(supervisor.state(), SupervisorState::Connected);
    supervisor
}

fn some_state() -> B0xxState {
    let mut bytes: Vec<u8> = (1..=24).collect();
    bytes.push(END_BYTE);
    B0xxState::decode_frame(&bytes).unwrap()
}

#[test]
fn new_supervisor_has_no_connection_yet() {
    let supervisor = Supervisor::new(Backoff::default());
    assert_eq!(supervisor.state(), SupervisorState::Reconnecting);
    assert_eq!(supervisor.upcoming_delay(), 500);
}

#[test]
fn snapshot_is_shown_while_connected() {
    let mut supervisor = connected();
    assert_eq!(
        supervisor.step(SupervisorEvent::Message(B0xxMessage::State(some_state()))),
        SupervisorAction::Show(some_state())
    );
    assert_eq!(supervisor.state(), SupervisorState::Connected);
}

#[test]
fn reconnect_message_starts_the_reconnection() {
    let mut supervisor = connected();
    assert_eq!(
        supervisor.step(SupervisorEvent::Message(B0xxMessage::Reconnect)),
        SupervisorAction::Attempt
    );
    assert_eq!(supervisor.state(), SupervisorState::Reconnecting);
}

#[test]
fn error_message_starts_the_reconnection() {
    for error in [
        ViewerError::SerialPortError(SerialFault::NoDevice),
        ViewerError::SerialPortError(SerialFault::Io(IoFault::BrokenPipe)),
        ViewerError::IoError(IoFault::TimedOut),
        ViewerError::UnknownError,
    ] {
        let mut supervisor = connected();
        assert_eq!(
            supervisor.step(SupervisorEvent::Message(B0xxMessage::Error(error))),
            SupervisorAction::Attempt
        );
        assert_eq!(supervisor.state(), SupervisorState::Reconnecting);
    }
}

#[test]
fn closed_channel_starts_the_reconnection() {
    let mut supervisor = connected();
    assert_eq!(supervisor.step(SupervisorEvent::Disconnected), SupervisorAction::Attempt);
    assert_eq!(supervisor.state(), SupervisorState::Reconnecting);
}

#[test]
fn caller_may_ask_for_the_reconnection() {
    let mut supervisor = connected();
    assert_eq!(reconnect(&mut supervisor), SupervisorAction::Attempt);
    assert_eq!(supervisor.state(), SupervisorState::Reconnecting);
    assert_eq!(reconnect(&mut supervisor), SupervisorAction::Idle);
    assert_eq!(supervisor.state(), SupervisorState::Reconnecting);
}

#[test]
fn quit_message_ends_the_consumer() {
    let mut supervisor = connected();
    assert_eq!(supervisor.step(SupervisorEvent::Message(B0xxMessage::Quit)), SupervisorAction::Quit);
    assert_eq!(supervisor.state(), SupervisorState::Connected);
}

#[test]
fn failed_attempts_wait_longer_each_time() {
    let mut supervisor = Supervisor::new(Backoff::default());
    let mut delays = Vec::new();
    for _ in 0..5 {
        match supervisor.step(SupervisorEvent::AttemptFailed) {
            SupervisorAction::RetryAfter(delay) => delays.push(delay),
            other => panic!("{:?}", other),
        }
        assert_eq!(supervisor.state(), SupervisorState::Reconnecting);
    }
    assert_eq!(delays, vec![500, 750, 1125, 1687, 2530]);
    assert_eq!(supervisor.upcoming_delay(), 3795);
}

#[test]
fn attempts_go_on_without_limit() {
    let mut supervisor = Supervisor::new(Backoff::default());
    let mut last = 0;
    for _ in 0..10_000 {
        match supervisor.step(SupervisorEvent::AttemptFailed) {
            SupervisorAction::RetryAfter(delay) => {
                assert!(delay >= last);
                assert!(delay <= 60_000);
                last = delay;
            }
            other => panic!("{:?}", other),
        }
    }
    assert_eq!(last, 60_000);
    assert_eq!(supervisor.state(), SupervisorState::Reconnecting);
}

#[test]
fn success_resets_the_delay() {
    let mut supervisor = Supervisor::new(Backoff::default());
    for _ in 0..8 {
        supervisor.step(SupervisorEvent::AttemptFailed);
    }
    assert_eq!(supervisor.upcoming_delay(), 12807);
    assert_eq!(supervisor.step(SupervisorEvent::AttemptSucceeded), SupervisorAction::Resume);
    assert_eq!(supervisor.state(), SupervisorState::Connected);
    assert_eq!(supervisor.upcoming_delay(), 500);
    assert_eq!(
        supervisor.step(SupervisorEvent::Message(B0xxMessage::Reconnect)),
        SupervisorAction::Attempt
    );
    assert_eq!(supervisor.step(SupervisorEvent::AttemptFailed), SupervisorAction::RetryAfter(500));
    assert_eq!(supervisor.step(SupervisorEvent::AttemptFailed), SupervisorAction::RetryAfter(750));
}

#[test]
fn stale_events_change_nothing_while_reconnecting() {
    let mut supervisor = Supervisor::new(Backoff::default());
    supervisor.step(SupervisorEvent::AttemptFailed);
    for event in [
        SupervisorEvent::Message(B0xxMessage::State(some_state())),
        SupervisorEvent::Message(B0xxMessage::Quit),
        SupervisorEvent::Message(B0xxMessage::Reconnect),
        SupervisorEvent::Disconnected,
        SupervisorEvent::ReconnectRequested,
    ] {
        assert_eq!(supervisor.step(event), SupervisorAction::Idle);
        assert_eq!(supervisor.state(), SupervisorState::Reconnecting);
        assert_eq!(supervisor.upcoming_delay(), 750);
    }
}

#[test]
fn attempt_results_change_nothing_while_connected() {
    let mut supervisor = connected();
    assert_eq!(supervisor.step(SupervisorEvent::AttemptFailed), SupervisorAction::Idle);
    assert_eq!(supervisor.step(SupervisorEvent::AttemptSucceeded), SupervisorAction::Idle);
    assert_eq!(supervisor.state(), SupervisorState::Connected);
    assert_eq!(supervisor.upcoming_delay(), 500);
}

#[test]
fn only_the_most_recent_message_counts() {
    assert_eq!(latest_message(&[]), None);
    assert_eq!(latest_message(&[B0xxMessage::Quit]), Some(B0xxMessage::Quit));
    assert_eq!(
        latest_message(&[
            B0xxMessage::State(B0xxState::default()),
            B0xxMessage::Reconnect,
            B0xxMessage::State(some_state()),
        ]),
        Some(B0xxMessage::State(some_state()))
    );
}

#[test]
fn channel_holds_one_message() {
    assert_eq!(CHANNEL_CAPACITY, 1);
}

#[test]
fn device_settings_are_those_of_the_wire() {
    let settings = PortSettings::b0xx();
    assert_eq!(settings.baud_rate, 115_200);
    assert_eq!(settings.data_bits, 8);
    assert_eq!(settings.parity, Parity::Disabled);
    assert_eq!(settings.stop_bits, 1);
    assert_eq!(settings.flow_control, FlowControl::Hardware);
    assert_eq!(settings.timeout_ms, 500);
}

#[test]
fn probe_is_set_up_on_the_device() {
    let ports = vec![
        PortDescriptor { port_name: "/dev/ttyS0".to_string(), port_type: PortKind::Other },
        PortDescriptor {
            port_name: "/dev/ttyACM0".to_string(),
            port_type: PortKind::Usb(UsbPortInfo { vid: 9025, pid: 32822, product: None }),
        },
    ];
    let probe = start_serial_probe(&None, &ports, false, &Vec::new()).unwrap();
    assert_eq!(probe.port_name, "/dev/ttyACM0");
    assert_eq!(probe.settings, PortSettings::b0xx());
    assert_eq!(probe.reader.phase(), ReaderPhase::Opening);
    assert_eq!(probe.reader.pending(), 0);
}

#[test]
fn probe_on_a_whitelisted_board_in_relaxed_mode() {
    let ports = vec![PortDescriptor {
        port_name: "COM4".to_string(),
        port_type: PortKind::Usb(UsbPortInfo { vid: 0x2A03, pid: 0x0036, product: None }),
    }];
    let whitelist = vec![UsbDefinition { vid: 0x2A03, pid: 0x0036 }];
    assert_eq!(start_serial_probe(&None, &ports, true, &whitelist).unwrap().port_name, "COM4");
    assert_eq!(
        start_serial_probe(&None, &ports, false, &whitelist),
        Err(ViewerError::B0xxNotFound)
    );
}

#[test]
fn probe_without_the_device_is_not_found() {
    let ports =
        vec![PortDescriptor { port_name: "/dev/ttyS0".to_string(), port_type: PortKind::Other }];
    assert_eq!(
        start_serial_probe(&None, &ports, false, &Vec::new()),
        Err(ViewerError::B0xxNotFound)
    );
    assert_eq!(
        start_serial_probe(&None, &Vec::new(), true, &Vec::new()),
        Err(ViewerError::B0xxNotFound)
    );
}
