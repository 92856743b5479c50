//! The frame reader: the decisions of the worker that owns one open
//! connection.
//!
//! The worker performs the transport operations and tells the reader how each
//! one ended; the reader answers with the next operation. Right after the
//! port is opened, and again after every frame that came out short or
//! overlong, the reader runs an exhaustion pass: bytes are read and dropped
//! until the sentinel goes by, then what the transport still buffers is
//! purged. From there each cycle asserts the request-to-send line, reads
//! bytes into the frame buffer up to the sentinel, releases the line, and
//! publishes the snapshot of the frame if it is complete.

use crate::b0xx_state::{
    frame_snapshot, is_aligned_frame, report_of, reports_of, snapshot_of, B0xxReport, B0xxState,
    END_BYTE, FRAME_SIZE, INPUT_COUNT,
};
use crate::error::{IoFault, SerialFault, ViewerError};
use crate::serial_probe::{B0xxMessage, MessageView};
use vstd::prelude::*;

verus! {

/// Where the worker is in its cycle: the operation whose end it waits for.
#[derive(Clone, Copy, Debug, PartialEq, Eq, Structural)]
pub enum ReaderPhase {
    /// The port is being opened.
    Opening,
    /// A byte of the exhaustion pass is being read.
    Exhausting,
    /// The transport's buffers are being purged.
    Purging,
    /// The request-to-send line is being asserted.
    Requesting,
    /// A byte of a frame is being read.
    Reading,
    /// The request-to-send line is being released.
    Releasing,
    /// A message is being handed to the consumer.
    Publishing,
    /// The worker has ended.
    Stopped,
}

/// How a transport operation ended.
#[derive(Clone, Copy, Debug, PartialEq, Eq, Structural)]
pub enum ReaderEvent {
    /// The port is open.
    Opened,
    /// The port could not be opened.
    OpenFailed(SerialFault),
    /// A byte was read.
    Byte(u8),
    /// The read failed.
    ReadFailed(IoFault),
    /// The transport's buffers are empty.
    Purged,
    /// The purge failed.
    PurgeFailed(SerialFault),
    /// The request-to-send line is as asked.
    LineSet,
    /// The request-to-send line could not be driven.
    LineFailed(SerialFault),
    /// The consumer has the message.
    Sent,
    /// The consumer has dropped its end of the channel.
    ReceiverGone,
}

/// What the worker does next.
#[derive(Clone, Copy, Debug, PartialEq, Eq)]
pub enum ReaderAction {
    /// Read one byte, within the read timeout.
    ReadByte,
    /// Purge what the transport buffers.
    Purge,
    /// Drive the request-to-send line.
    SetRequestToSend(bool),
    /// Hand the message to the consumer and tell how it went.
    Send(B0xxMessage),
    /// End the worker, after handing over the message if there is one.
    Stop(Option<B0xxMessage>),
}

/// An action, with its message as a view.
pub enum ActionView {
    ReadByte,
    Purge,
    SetRequestToSend(bool),
    Send(MessageView),
    Stop(Option<MessageView>),
}

impl View for ReaderAction {
    type V = ActionView;

    open spec fn view(&self) -> ActionView {
        match *self {
            ReaderAction::ReadByte => ActionView::ReadByte,
            ReaderAction::Purge => ActionView::Purge,
            ReaderAction::SetRequestToSend(level) => ActionView::SetRequestToSend(level),
            ReaderAction::Send(message) => ActionView::Send(message@),
            ReaderAction::Stop(Some(message)) => ActionView::Stop(Some(message@)),
            ReaderAction::Stop(None) => ActionView::Stop(None),
        }
    }
}

/// The reader as a value: its phase and the codes pending in its frame buffer.
pub struct ReaderView {
    pub phase: ReaderPhase,
    pub buffer: Seq<B0xxReport>,
}

impl ReaderView {
    /// The reader in a phase, with an empty frame buffer.
    pub open spec fn idle(phase: ReaderPhase) -> ReaderView {
        ReaderView { phase, buffer: Seq::empty() }
    }

    /// The frame buffer holds codes only while a frame is read or inspected:
    /// while it is read, fewer than a frame's and no sentinel; at most a
    /// frame's when it is inspected.
    pub open spec fn wf(self) -> bool {
        match self.phase {
            ReaderPhase::Reading => {
                &&& self.buffer.len() < FRAME_SIZE
                &&& forall|i: int| 0 <= i < self.buffer.len() ==> self.buffer[i] != B0xxReport::End
            },
            ReaderPhase::Releasing => 0 < self.buffer.len() <= FRAME_SIZE,
            _ => self.buffer.len() == 0,
        }
    }
}

/// The message that tells of a failed read: a timeout or a broken transport
/// is a disconnection, anything else is final.
pub open spec fn read_fault_message(fault: IoFault) -> MessageView {
    if fault.spec_is_disconnect() {
        MessageView::Reconnect
    } else {
        MessageView::Quit
    }
}

/// The reader once it has ended with a message.
pub open spec fn stopped_with(message: MessageView) -> (ReaderView, ActionView) {
    (ReaderView::idle(ReaderPhase::Stopped), ActionView::Stop(Some(message)))
}

/// Whether reading a frame ends with this code: at the sentinel, or when the
/// buffer is full.
pub open spec fn closes_frame(buffer: Seq<B0xxReport>, code: B0xxReport) -> bool {
    code == B0xxReport::End || buffer.len() + 1 >= FRAME_SIZE
}

/// The snapshot of what was read, if it is a complete frame: the length of a
/// frame, closed by the sentinel.
pub open spec fn completed_frame(buffer: Seq<B0xxReport>) -> Option<Seq<B0xxReport>> {
    if buffer.len() == FRAME_SIZE && buffer[FRAME_SIZE - 1] == B0xxReport::End {
        snapshot_of(buffer)
    } else {
        None
    }
}

/// One decision of the reader: from its state and the end of an operation to
/// its next state and the next operation.
pub open spec fn reader_step(pre: ReaderView, event: ReaderEvent) -> (ReaderView, ActionView) {
    match (pre.phase, event) {
        (ReaderPhase::Stopped, _) => (ReaderView::idle(ReaderPhase::Stopped), ActionView::Stop(None)),
        (ReaderPhase::Opening, ReaderEvent::Opened) => (
            ReaderView::idle(ReaderPhase::Exhausting),
            ActionView::ReadByte,
        ),
        (ReaderPhase::Opening, ReaderEvent::OpenFailed(fault)) => stopped_with(
            MessageView::Error(ViewerError::SerialPortError(fault)),
        ),
        (ReaderPhase::Exhausting, ReaderEvent::Byte(byte)) => if report_of(byte)
            == B0xxReport::End {
            (ReaderView::idle(ReaderPhase::Purging), ActionView::Purge)
        } else {
            (ReaderView::idle(ReaderPhase::Exhausting), ActionView::ReadByte)
        },
        (ReaderPhase::Exhausting, ReaderEvent::ReadFailed(fault)) => stopped_with(
            read_fault_message(fault),
        ),
        (ReaderPhase::Purging, ReaderEvent::Purged) => (
            ReaderView::idle(ReaderPhase::Requesting),
            ActionView::SetRequestToSend(true),
        ),
        (ReaderPhase::Purging, ReaderEvent::PurgeFailed(fault)) => (
            ReaderView::idle(ReaderPhase::Publishing),
            ActionView::Send(MessageView::Error(ViewerError::SerialPortError(fault))),
        ),
        (ReaderPhase::Requesting, ReaderEvent::LineSet) => (
            ReaderView::idle(ReaderPhase::Reading),
            ActionView::ReadByte,
        ),
        (ReaderPhase::Requesting, ReaderEvent::LineFailed(fault)) => stopped_with(
            MessageView::Error(ViewerError::SerialPortError(fault)),
        ),
        (ReaderPhase::Reading, ReaderEvent::Byte(byte)) => if closes_frame(
            pre.buffer,
            report_of(byte),
        ) {
            (
                ReaderView {
                    phase: ReaderPhase::Releasing,
                    buffer: pre.buffer.push(report_of(byte)),
                },
                ActionView::SetRequestToSend(false),
            )
        } else {
            (
                ReaderView { phase: ReaderPhase::Reading, buffer: pre.buffer.push(report_of(byte)) },
                ActionView::ReadByte,
            )
        },
        (ReaderPhase::Reading, ReaderEvent::ReadFailed(fault)) => stopped_with(
            read_fault_message(fault),
        ),
        (ReaderPhase::Releasing, ReaderEvent::LineSet) => match completed_frame(pre.buffer) {
            Some(snapshot) => (
                ReaderView::idle(ReaderPhase::Publishing),
                ActionView::Send(MessageView::State(snapshot)),
            ),
            None => (ReaderView::idle(ReaderPhase::Exhausting), ActionView::ReadByte),
        },
        (ReaderPhase::Releasing, ReaderEvent::LineFailed(fault)) => stopped_with(
            MessageView::Error(ViewerError::SerialPortError(fault)),
        ),
        (ReaderPhase::Publishing, ReaderEvent::Sent) => (
            ReaderView::idle(ReaderPhase::Requesting),
            ActionView::SetRequestToSend(true),
        ),
        (ReaderPhase::Publishing, ReaderEvent::ReceiverGone) => (
            ReaderView::idle(ReaderPhase::Stopped),
            ActionView::Stop(None),
        ),
        _ => stopped_with(MessageView::Error(ViewerError::UnknownError)),
    }
}

/// The frame reader of one connection. It owns the frame buffer.
#[derive(Clone, Debug, PartialEq, Eq)]
pub struct FrameReader {
    phase: ReaderPhase,
    buffer: Vec<B0xxReport>,
}

impl View for FrameReader {
    type V = ReaderView;

    closed spec fn view(&self) -> ReaderView {
        ReaderView { phase: self.phase, buffer: self.buffer@ }
    }
}

impl FrameReader {
    /// The reader of a connection that is about to be opened.
    pub fn new() -> (reader: FrameReader)
        ensures
            reader@ == ReaderView::idle(ReaderPhase::Opening),
    {
        FrameReader { phase: ReaderPhase::Opening, buffer: Vec::new() }
    }

    /// The phase that the worker is in.
    pub fn phase(&self) -> (phase: ReaderPhase)
        ensures
            phase == self@.phase,
    {
        self.phase
    }

    /// The number of codes pending in the frame buffer.
    pub fn pending(&self) -> (count: usize)
        ensures
            count == self@.buffer.len(),
    {
        self.buffer.len()
    }

    /// Whether the worker has ended.
    pub fn is_stopped(&self) -> (stopped: bool)
        ensures
            stopped == (self@.phase == ReaderPhase::Stopped),
    {
        match self.phase {
            ReaderPhase::Stopped => true,
            _ => false,
        }
    }

    fn stop(&mut self, message: B0xxMessage) -> (action: ReaderAction)
        ensures
            (final(self)@, action@) == stopped_with(message@),
    {
        self.phase = ReaderPhase::Stopped;
        self.buffer.clear();
        ReaderAction::Stop(Some(message))
    }

    fn turn_to(&mut self, phase: ReaderPhase)
        ensures
            final(self)@ == ReaderView::idle(phase),
    {
        self.phase = phase;
        self.buffer.clear();
    }

    /// Takes the end of the operation that the worker was asked for, and
    /// answers with the next one. An event that does not belong to the phase
    /// ends the worker with an error message.
    pub fn step(&mut self, event: ReaderEvent) -> (action: ReaderAction)
        ensures
            (final(self)@, action@) == reader_step(old(self)@, event),
    {
        match (self.phase, event) {
            (ReaderPhase::Stopped, _) => {
                self.turn_to(ReaderPhase::Stopped);
                ReaderAction::Stop(None)
            },
            (ReaderPhase::Opening, ReaderEvent::Opened) => {
                self.turn_to(ReaderPhase::Exhausting);
                ReaderAction::ReadByte
            },
            (ReaderPhase::Opening, ReaderEvent::OpenFailed(fault)) => self.stop(
                B0xxMessage::Error(ViewerError::SerialPortError(fault)),
            ),
            (ReaderPhase::Exhausting, ReaderEvent::Byte(byte)) => {
                if B0xxReport::from_byte(byte).is_end() {
                    self.turn_to(ReaderPhase::Purging);
                    ReaderAction::Purge
                } else {
                    self.turn_to(ReaderPhase::Exhausting);
                    ReaderAction::ReadByte
                }
            },
            (ReaderPhase::Exhausting, ReaderEvent::ReadFailed(fault)) => self.stop(
                read_fault(fault),
            ),
            (ReaderPhase::Purging, ReaderEvent::Purged) => {
                self.turn_to(ReaderPhase::Requesting);
                ReaderAction::SetRequestToSend(true)
            },
            (ReaderPhase::Purging, ReaderEvent::PurgeFailed(fault)) => {
                self.turn_to(ReaderPhase::Publishing);
                ReaderAction::Send(B0xxMessage::Error(ViewerError::SerialPortError(fault)))
            },
            (ReaderPhase::Requesting, ReaderEvent::LineSet) => {
                self.turn_to(ReaderPhase::Reading);
                ReaderAction::ReadByte
            },
            (ReaderPhase::Requesting, ReaderEvent::LineFailed(fault)) => self.stop(
                B0xxMessage::Error(ViewerError::SerialPortError(fault)),
            ),
            (ReaderPhase::Reading, ReaderEvent::Byte(byte)) => {
                let code = B0xxReport::from_byte(byte);
                let closes = code.is_end() || self.buffer.len() >= FRAME_SIZE - 1;
                self.buffer.push(code);
                if closes {
                    self.phase = ReaderPhase::Releasing;
                    ReaderAction::SetRequestToSend(false)
                } else {
                    ReaderAction::ReadByte
                }
            },
            (ReaderPhase::Reading, ReaderEvent::ReadFailed(fault)) => self.stop(read_fault(fault)),
            (ReaderPhase::Releasing, ReaderEvent::LineSet) => {
                let complete = self.buffer.len() == FRAME_SIZE && self.buffer[FRAME_SIZE
                    - 1].is_end();
                let decoded = B0xxState::from_reports(self.buffer.as_slice());
                match decoded {
                    Ok(state) if complete => {
                        self.turn_to(ReaderPhase::Publishing);
                        ReaderAction::Send(B0xxMessage::State(state))
                    },
                    _ => {
                        self.turn_to(ReaderPhase::Exhausting);
                        ReaderAction::ReadByte
                    },
                }
            },
            (ReaderPhase::Releasing, ReaderEvent::LineFailed(fault)) => self.stop(
                B0xxMessage::Error(ViewerError::SerialPortError(fault)),
            ),
            (ReaderPhase::Publishing, ReaderEvent::Sent) => {
                self.turn_to(ReaderPhase::Requesting);
                ReaderAction::SetRequestToSend(true)
            },
            (ReaderPhase::Publishing, ReaderEvent::ReceiverGone) => {
                self.turn_to(ReaderPhase::Stopped);
                ReaderAction::Stop(None)
            },
            _ => self.stop(B0xxMessage::Error(ViewerError::UnknownError)),
        }
    }
}

/// The message that tells of a failed read.
pub fn read_fault(fault: IoFault) -> (message: B0xxMessage)
    ensures
        message@ == read_fault_message(fault),
{
    if fault.is_disconnect() {
        B0xxMessage::Reconnect
    } else {
        B0xxMessage::Quit
    }
}

/// The reader after the worker has handed it a run of bytes, one read after
/// the other.
pub open spec fn after_bytes(pre: ReaderView, bytes: Seq<u8>) -> ReaderView
    decreases bytes.len(),
{
    if bytes.len() == 0 {
        pre
    } else {
        reader_step(after_bytes(pre, bytes.drop_last()), ReaderEvent::Byte(bytes.last())).0
    }
}

/// A reader starts out well formed.
pub proof fn lemma_new_reader_wf()
    ensures
        ReaderView::idle(ReaderPhase::Opening).wf(),
{
}

/// Whatever happens, a well-formed reader stays well formed: the frame buffer
/// never holds more than a frame, and holds nothing between two frames.
pub proof fn lemma_step_preserves_wf(pre: ReaderView, event: ReaderEvent)
    requires
        pre.wf(),
    ensures
        reader_step(pre, event).0.wf(),
{
}

/// The reading of a frame always starts from an empty frame buffer.
pub proof fn lemma_reading_starts_empty(pre: ReaderView, event: ReaderEvent)
    requires
        pre.phase != ReaderPhase::Reading,
        reader_step(pre, event).0.phase == ReaderPhase::Reading,
    ensures
        reader_step(pre, event).0 == ReaderView::idle(ReaderPhase::Reading),
{
}

/// A snapshot is published only when a complete frame was read, and the
/// frame buffer is empty once it is.
pub proof fn lemma_snapshot_needs_complete_frame(pre: ReaderView, event: ReaderEvent)
    requires
        reader_step(pre, event).1 matches ActionView::Send(MessageView::State(_)),
    ensures
        pre.phase == ReaderPhase::Releasing,
        event == ReaderEvent::LineSet,
        pre.buffer.len() == FRAME_SIZE,
        pre.buffer[FRAME_SIZE - 1] == B0xxReport::End,
        reader_step(pre, event).1 == ActionView::Send(
            MessageView::State(pre.buffer.take(INPUT_COUNT as int)),
        ),
        reader_step(pre, event).0 == ReaderView::idle(ReaderPhase::Publishing),
{
}

/// While no sentinel comes and the frame is not full, the reader keeps
/// reading and the frame buffer holds the code of every byte read so far.
pub proof fn lemma_open_frame_is_buffered(bytes: Seq<u8>)
    requires
        bytes.len() < FRAME_SIZE,
        forall|i: int| 0 <= i < bytes.len() ==> bytes[i] != END_BYTE,
    ensures
        after_bytes(ReaderView::idle(ReaderPhase::Reading), bytes) == (ReaderView {
            phase: ReaderPhase::Reading,
            buffer: reports_of(bytes),
        }),
    decreases bytes.len(),
{
    let start = ReaderView::idle(ReaderPhase::Reading);
    if bytes.len() == 0 {
        assert(reports_of(bytes) =~= Seq::<B0xxReport>::empty());
    } else {
        let front = bytes.drop_last();
        lemma_open_frame_is_buffered(front);
        assert(reports_of(front).push(report_of(bytes.last())) =~= reports_of(bytes));
    }
}

/// When the sentinel comes, or the byte that fills the frame, the reader
/// stops reading and releases the line, with the code of every byte in the
/// frame buffer.
pub proof fn lemma_closed_frame_is_inspected(bytes: Seq<u8>)
    requires
        0 < bytes.len() <= FRAME_SIZE,
        forall|i: int| 0 <= i < bytes.len() - 1 ==> bytes[i] != END_BYTE,
        bytes.last() == END_BYTE || bytes.len() == FRAME_SIZE,
    ensures
        after_bytes(ReaderView::idle(ReaderPhase::Reading), bytes) == (ReaderView {
            phase: ReaderPhase::Releasing,
            buffer: reports_of(bytes),
        }),
        reader_step(
            after_bytes(ReaderView::idle(ReaderPhase::Reading), bytes.drop_last()),
            ReaderEvent::Byte(bytes.last()),
        ).1 == ActionView::SetRequestToSend(false),
{
    let front = bytes.drop_last();
    lemma_open_frame_is_buffered(front);
    assert(reports_of(front).push(report_of(bytes.last())) =~= reports_of(bytes));
}

/// A frame of the right length, closed by the only sentinel in it, gives one
/// snapshot: nothing is published while its bytes are read, and once the
/// line is released the snapshot is published in which every input has the
/// code of its byte. The frame buffer is empty afterwards.
pub proof fn lemma_aligned_frame_is_published(bytes: Seq<u8>)
    requires
        is_aligned_frame(bytes),
    ensures
        forall|k: int|
            0 <= k < INPUT_COUNT ==> (#[trigger] reader_step(
                after_bytes(ReaderView::idle(ReaderPhase::Reading), bytes.take(k)),
                ReaderEvent::Byte(bytes[k]),
            )).1 == ActionView::ReadByte,
        after_bytes(ReaderView::idle(ReaderPhase::Reading), bytes) == (ReaderView {
            phase: ReaderPhase::Releasing,
            buffer: reports_of(bytes),
        }),
        frame_snapshot(bytes) is Some,
        reader_step(
            after_bytes(ReaderView::idle(ReaderPhase::Reading), bytes),
            ReaderEvent::LineSet,
        ) == (
            ReaderView::idle(ReaderPhase::Publishing),
            ActionView::Send(MessageView::State(frame_snapshot(bytes)->0)),
        ),
        forall|i: int|
            0 <= i < INPUT_COUNT ==> #[trigger] frame_snapshot(bytes)->0[i] == report_of(bytes[i]),
{
    lemma_closed_frame_is_inspected(bytes);
    assert forall|k: int| 0 <= k < INPUT_COUNT implies (#[trigger] reader_step(
        after_bytes(ReaderView::idle(ReaderPhase::Reading), bytes.take(k)),
        ReaderEvent::Byte(bytes[k]),
    )).1 == ActionView::ReadByte by {
        lemma_open_frame_is_buffered(bytes.take(k));
    }
}

/// A frame that the sentinel closes too early gives no snapshot: once the
/// line is released the frame buffer is emptied and the exhaustion pass
/// starts over.
pub proof fn lemma_short_frame_is_discarded(bytes: Seq<u8>)
    requires
        0 < bytes.len() < FRAME_SIZE,
        bytes.last() == END_BYTE,
        forall|i: int| 0 <= i < bytes.len() - 1 ==> bytes[i] != END_BYTE,
    ensures
        after_bytes(ReaderView::idle(ReaderPhase::Reading), bytes) == (ReaderView {
            phase: ReaderPhase::Releasing,
            buffer: reports_of(bytes),
        }),
        reader_step(
            after_bytes(ReaderView::idle(ReaderPhase::Reading), bytes),
            ReaderEvent::LineSet,
        ) == (ReaderView::idle(ReaderPhase::Exhausting), ActionView::ReadByte),
{
    lemma_closed_frame_is_inspected(bytes);
}

/// A frame that fills up before the sentinel comes gives no snapshot either.
pub proof fn lemma_unclosed_frame_is_discarded(bytes: Seq<u8>)
    requires
        bytes.len() == FRAME_SIZE,
        forall|i: int| 0 <= i < bytes.len() ==> bytes[i] != END_BYTE,
    ensures
        after_bytes(ReaderView::idle(ReaderPhase::Reading), bytes) == (ReaderView {
            phase: ReaderPhase::Releasing,
            buffer: reports_of(bytes),
        }),
        reader_step(
            after_bytes(ReaderView::idle(ReaderPhase::Reading), bytes),
            ReaderEvent::LineSet,
        ) == (ReaderView::idle(ReaderPhase::Exhausting), ActionView::ReadByte),
{
    lemma_closed_frame_is_inspected(bytes);
}

/// The exhaustion pass drops every byte up to the sentinel and then has the
/// transport purged.
pub proof fn lemma_exhaustion_ends_at_sentinel(bytes: Seq<u8>)
    requires
        0 < bytes.len(),
        bytes.last() == END_BYTE,
        forall|i: int| 0 <= i < bytes.len() - 1 ==> bytes[i] != END_BYTE,
    ensures
        after_bytes(ReaderView::idle(ReaderPhase::Exhausting), bytes.drop_last())
            == ReaderView::idle(ReaderPhase::Exhausting),
        reader_step(
            after_bytes(ReaderView::idle(ReaderPhase::Exhausting), bytes.drop_last()),
            ReaderEvent::Byte(bytes.last()),
        ) == (ReaderView::idle(ReaderPhase::Purging), ActionView::Purge),
{
    let front = bytes.drop_last();
    if front.len() > 0 {
        lemma_exhaustion_skips(front);
    }
}

/// Bytes other than the sentinel leave the exhaustion pass where it is.
pub proof fn lemma_exhaustion_skips(bytes: Seq<u8>)
    requires
        forall|i: int| 0 <= i < bytes.len() ==> bytes[i] != END_BYTE,
    ensures
        after_bytes(ReaderView::idle(ReaderPhase::Exhausting), bytes) == ReaderView::idle(
            ReaderPhase::Exhausting,
        ),
    decreases bytes.len(),
{
    if bytes.len() > 0 {
        lemma_exhaustion_skips(bytes.drop_last());
    }
}

/// A read that ends in a timeout or on a broken transport makes the worker
/// publish `Reconnect`, and nothing else, and end.
pub proof fn lemma_lost_transport_reconnects(pre: ReaderView, fault: IoFault)
    requires
        pre.phase == ReaderPhase::Exhausting || pre.phase == ReaderPhase::Reading,
        fault == IoFault::TimedOut || fault == IoFault::BrokenPipe,
    ensures
        reader_step(pre, ReaderEvent::ReadFailed(fault)) == (
            ReaderView::idle(ReaderPhase::Stopped),
            ActionView::Stop(Some(MessageView::Reconnect)),
        ),
{
}

/// A read that fails in any other way makes the worker publish `Quit`, and
/// nothing else, and end.
pub proof fn lemma_other_fault_quits(pre: ReaderView, fault: IoFault)
    requires
        pre.phase == ReaderPhase::Exhausting || pre.phase == ReaderPhase::Reading,
        fault == IoFault::Other,
    ensures
        reader_step(pre, ReaderEvent::ReadFailed(fault)) == (
            ReaderView::idle(ReaderPhase::Stopped),
            ActionView::Stop(Some(MessageView::Quit)),
        ),
{
}

/// Once the consumer has dropped its end of the channel the worker ends
/// without a message, and a worker that has ended stays so.
pub proof fn lemma_stopped_is_final(pre: ReaderView, event: ReaderEvent)
    requires
        pre.phase == ReaderPhase::Stopped || (pre.phase == ReaderPhase::Publishing && event
            == ReaderEvent::ReceiverGone),
    ensures
        reader_step(pre, event) == (ReaderView::idle(ReaderPhase::Stopped), ActionView::Stop(None)),
{
}

} // verus!
