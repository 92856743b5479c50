//! What the serial worker and its consumer exchange, and how a probe is set up.

use crate::b0xx_state::{B0xxReport, B0xxState};
use crate::error::ViewerError;
use crate::frame_reader::{FrameReader, ReaderPhase, ReaderView};
use crate::locator::{is_first_match, locate, no_port_matches, PortDescriptor};
use crate::supervisor::{
    supervisor_step, Supervisor, SupervisorAction, SupervisorEvent, SupervisorEventView,
};
use crate::usb::UsbDefinition;
use vstd::prelude::*;

verus! {

/// A message from the serial worker to the consumer: a snapshot, or a signal
/// about the connection.
#[derive(Clone, Copy, Debug, PartialEq, Eq)]
pub enum B0xxMessage {
    /// The state of the inputs, freshly decoded.
    State(B0xxState),
    /// The port could not be opened or driven.
    Error(ViewerError),
    /// The device is gone; the consumer should connect again.
    Reconnect,
    /// The connection failed for good.
    Quit,
}

/// A message, with the snapshot as the sequence of its codes.
pub enum MessageView {
    State(Seq<B0xxReport>),
    Error(ViewerError),
    Reconnect,
    Quit,
}

impl View for B0xxMessage {
    type V = MessageView;

    open spec fn view(&self) -> MessageView {
        match *self {
            B0xxMessage::State(state) => MessageView::State(state@),
            B0xxMessage::Error(e) => MessageView::Error(e),
            B0xxMessage::Reconnect => MessageView::Reconnect,
            B0xxMessage::Quit => MessageView::Quit,
        }
    }
}

/// Number of messages that the channel between worker and consumer holds.
pub const CHANNEL_CAPACITY: usize = 1;

#[derive(Clone, Copy, Debug, PartialEq, Eq, Structural)]
pub enum Parity {
    Disabled,
    Odd,
    Even,
}

#[derive(Clone, Copy, Debug, PartialEq, Eq, Structural)]
pub enum FlowControl {
    Disabled,
    Software,
    Hardware,
}

/// How the serial line is set up.
#[derive(Clone, Copy, Debug, PartialEq, Eq, Structural)]
pub struct PortSettings {
    pub baud_rate: u32,
    pub data_bits: u8,
    pub parity: Parity,
    pub stop_bits: u8,
    pub flow_control: FlowControl,
    /// Longest wait of one read, in milliseconds.
    pub timeout_ms: u64,
}

impl PortSettings {
    /// The settings of the device: 115200 baud, eight data bits, no parity,
    /// one stop bit, hardware flow control, reads of half a second at most.
    pub open spec fn spec_b0xx() -> PortSettings {
        PortSettings {
            baud_rate: 115_200,
            data_bits: 8,
            parity: Parity::Disabled,
            stop_bits: 1,
            flow_control: FlowControl::Hardware,
            timeout_ms: 500,
        }
    }

    #[verifier::when_used_as_spec(spec_b0xx)]
    pub fn b0xx() -> (settings: PortSettings)
        ensures
            settings == PortSettings::spec_b0xx(),
    {
        PortSettings {
            baud_rate: 115_200,
            data_bits: 8,
            parity: Parity::Disabled,
            stop_bits: 1,
            flow_control: FlowControl::Hardware,
            timeout_ms: 500,
        }
    }
}

/// All that a worker needs to start: the port to open, how to set it up,
/// and a fresh frame reader.
#[derive(Clone, Debug, PartialEq, Eq)]
pub struct SerialProbe {
    pub port_name: String,
    pub settings: PortSettings,
    pub reader: FrameReader,
}

/// Sets up a probe on the device among the ports that the system lists:
/// the first port that matches, the settings of the device and a new reader.
/// Without a matching port the device is reported as not found.
pub fn start_serial_probe(
    custom_tty: &Option<String>,
    ports: &Vec<PortDescriptor>,
    relaxed: bool,
    whitelist: &Vec<UsbDefinition>,
) -> (probe: Result<SerialProbe, ViewerError>)
    ensures
        match probe {
            Ok(probe) => {
                &&& exists|position: int|
                    is_first_match(ports@, position, *custom_tty, relaxed, whitelist@)
                        && probe.port_name@ == (#[trigger] ports@[position]).port_name@
                &&& probe.settings == PortSettings::spec_b0xx()
                &&& probe.reader@ == ReaderView::idle(ReaderPhase::Opening)
            },
            Err(e) => e == ViewerError::B0xxNotFound && no_port_matches(
                ports@,
                *custom_tty,
                relaxed,
                whitelist@,
            ),
        },
{
    match locate(ports, custom_tty, relaxed, whitelist) {
        Ok(position) => Ok(
            SerialProbe {
                port_name: ports[position].port_name.clone(),
                settings: PortSettings::b0xx(),
                reader: FrameReader::new(),
            },
        ),
        Err(e) => Err(e),
    }
}

/// Asks the supervisor for a new connection, as the consumer does when it
/// wants one of its own accord.
pub fn reconnect(supervisor: &mut Supervisor) -> (action: SupervisorAction)
    ensures
        (final(supervisor)@, action@) == supervisor_step(
            old(supervisor)@,
            SupervisorEventView::ReconnectRequested,
        ),
{
    supervisor.step(SupervisorEvent::ReconnectRequested)
}

/// Of the messages that wait in the channel only the most recent counts:
/// the last of them, or none when nothing waits.
pub fn latest_message(pending: &[B0xxMessage]) -> (latest: Option<B0xxMessage>)
    ensures
        pending@.len() == 0 ==> latest is None,
        pending@.len() > 0 ==> latest == Some(pending@.last()),
{
    if pending.len() == 0 {
        None
    } else {
        Some(pending[pending.len() - 1])
    }
}

} // verus!
