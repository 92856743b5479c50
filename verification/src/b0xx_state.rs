//! Report codes and state snapshots.
//!
//! The device sends one byte for each monitored input, always in the same
//! order, and closes the frame with the sentinel byte. A byte is read as a
//! report code; a complete frame is read as a snapshot, position by position.

use crate::error::ViewerError;
use vstd::prelude::*;

verus! {

/// Number of bytes in a frame, the sentinel included.
pub const FRAME_SIZE: usize = 25;

/// Number of monitored inputs: every position of a frame but the last.
pub const INPUT_COUNT: usize = 24;

/// The sentinel byte, which closes a frame.
pub const END_BYTE: u8 = 0xFF;

/// Lowest byte that stands for an input.
pub const FIRST_INPUT_CODE: u8 = 1;

/// Highest byte that stands for an input.
pub const LAST_INPUT_CODE: u8 = 24;

/// The meaning of one raw byte.
#[derive(Clone, Copy, Debug, PartialEq, Eq, Structural)]
pub enum B0xxReport {
    /// An input identifier, between `FIRST_INPUT_CODE` and `LAST_INPUT_CODE`.
    Input(u8),
    /// The sentinel.
    End,
    /// A byte outside the recognised range.
    Invalid,
}

/// The report code that a byte stands for.
pub open spec fn report_of(byte: u8) -> B0xxReport {
    if byte == END_BYTE {
        B0xxReport::End
    } else if FIRST_INPUT_CODE <= byte <= LAST_INPUT_CODE {
        B0xxReport::Input(byte)
    } else {
        B0xxReport::Invalid
    }
}

/// The report codes of a run of bytes, position by position.
pub open spec fn reports_of(bytes: Seq<u8>) -> Seq<B0xxReport> {
    Seq::new(bytes.len(), |i: int| report_of(bytes[i]))
}

impl B0xxReport {
    /// A code is well formed when an input identifier lies in the recognised range.
    pub open spec fn wf(self) -> bool {
        self matches B0xxReport::Input(id) ==> FIRST_INPUT_CODE <= id <= LAST_INPUT_CODE
    }

    /// Decodes one raw byte.
    pub fn from_byte(byte: u8) -> (code: B0xxReport)
        ensures
            code == report_of(byte),
            code.wf(),
    {
        if byte == END_BYTE {
            B0xxReport::End
        } else if FIRST_INPUT_CODE <= byte && byte <= LAST_INPUT_CODE {
            B0xxReport::Input(byte)
        } else {
            B0xxReport::Invalid
        }
    }

    pub open spec fn spec_is_end(self) -> bool {
        self == B0xxReport::End
    }

    /// Whether this code closes a frame.
    #[verifier::when_used_as_spec(spec_is_end)]
    pub fn is_end(self) -> (end: bool)
        ensures
            end == self.spec_is_end(),
    {
        match self {
            B0xxReport::End => true,
            _ => false,
        }
    }
}

impl Default for B0xxReport {
    fn default() -> (code: B0xxReport)
        ensures
            code == B0xxReport::Invalid,
    {
        B0xxReport::Invalid
    }
}

impl From<u8> for B0xxReport {
    fn from(byte: u8) -> (code: B0xxReport) {
        B0xxReport::from_byte(byte)
    }
}

impl vstd::std_specs::convert::FromSpecImpl<u8> for B0xxReport {
    open spec fn obeys_from_spec() -> bool {
        true
    }

    open spec fn from_spec(byte: u8) -> B0xxReport {
        report_of(byte)
    }
}

/// The snapshot that a run of report codes stands for: the codes of the
/// inputs, in their order, when the run has the length of a frame; nothing
/// otherwise.
pub open spec fn snapshot_of(codes: Seq<B0xxReport>) -> Option<Seq<B0xxReport>> {
    if codes.len() == FRAME_SIZE {
        Some(codes.take(INPUT_COUNT as int))
    } else {
        None
    }
}

/// The snapshot that a run of raw bytes stands for.
pub open spec fn frame_snapshot(bytes: Seq<u8>) -> Option<Seq<B0xxReport>> {
    snapshot_of(reports_of(bytes))
}

/// A frame as the device sends it: the length of a frame, the sentinel in the
/// last position and nowhere before it.
pub open spec fn is_aligned_frame(bytes: Seq<u8>) -> bool {
    &&& bytes.len() == FRAME_SIZE
    &&& bytes[FRAME_SIZE - 1] == END_BYTE
    &&& forall|i: int| 0 <= i < INPUT_COUNT ==> bytes[i] != END_BYTE
}

/// The state of every monitored input at one instant. It is made from a
/// complete frame only; the position of a code is what tells the input.
#[derive(Clone, Copy, Debug, PartialEq, Eq)]
pub struct B0xxState {
    inputs: [B0xxReport; 24],
}

impl View for B0xxState {
    type V = Seq<B0xxReport>;

    closed spec fn view(&self) -> Seq<B0xxReport> {
        self.inputs@
    }
}

impl B0xxState {
    /// A snapshot has one code for each monitored input.
    pub proof fn lemma_len(self)
        ensures
            self@.len() == INPUT_COUNT,
    {
        broadcast use vstd::array::array_len_matches_n;

    }

    /// Builds the snapshot of a complete run of report codes. A run of any
    /// other length is refused.
    pub fn from_reports(codes: &[B0xxReport]) -> (made: Result<B0xxState, ViewerError>)
        ensures
            match made {
                Ok(state) => snapshot_of(codes@) == Some(state@),
                Err(e) => snapshot_of(codes@) is None && e == ViewerError::MalformedSerialReport,
            },
    {
        if codes.len() != FRAME_SIZE {
            return Err(ViewerError::MalformedSerialReport);
        }
        let mut inputs = [B0xxReport::Invalid;24];
        let mut i: usize = 0;
        while i < INPUT_COUNT
            invariant
                i <= INPUT_COUNT,
                codes@.len() == FRAME_SIZE,
                inputs@.len() == INPUT_COUNT,
                forall|j: int| 0 <= j < i ==> inputs@[j] == codes@[j],
            decreases INPUT_COUNT - i,
        {
            inputs[i] = codes[i];
            i += 1;
        }
        assert(inputs@ =~= codes@.take(INPUT_COUNT as int));
        Ok(B0xxState { inputs })
    }

    /// Decodes a frame of raw bytes, position by position. A run of bytes
    /// that has not the length of a frame is refused.
    pub fn decode_frame(bytes: &[u8]) -> (made: Result<B0xxState, ViewerError>)
        ensures
            match made {
                Ok(state) => frame_snapshot(bytes@) == Some(state@),
                Err(e) => frame_snapshot(bytes@) is None && e == ViewerError::MalformedSerialReport,
            },
    {
        if bytes.len() != FRAME_SIZE {
            return Err(ViewerError::MalformedSerialReport);
        }
        let mut inputs = [B0xxReport::Invalid;24];
        let mut i: usize = 0;
        while i < INPUT_COUNT
            invariant
                i <= INPUT_COUNT,
                bytes@.len() == FRAME_SIZE,
                inputs@.len() == INPUT_COUNT,
                forall|j: int| 0 <= j < i ==> inputs@[j] == report_of(bytes@[j]),
            decreases INPUT_COUNT - i,
        {
            inputs[i] = B0xxReport::from_byte(bytes[i]);
            i += 1;
        }
        assert(inputs@ =~= reports_of(bytes@).take(INPUT_COUNT as int));
        Ok(B0xxState { inputs })
    }

    /// The code of the input at a position; none beyond the last input.
    pub fn input(&self, position: usize) -> (code: Option<B0xxReport>)
        ensures
            position < INPUT_COUNT ==> code == Some(self@[position as int]),
            position >= INPUT_COUNT ==> code is None,
    {
        if position < INPUT_COUNT {
            Some(self.inputs[position])
        } else {
            None
        }
    }

    /// The codes of all inputs, in their order.
    pub fn inputs(&self) -> (codes: Vec<B0xxReport>)
        ensures
            codes@ == self@,
    {
        let mut codes: Vec<B0xxReport> = Vec::new();
        let mut i: usize = 0;
        while i < INPUT_COUNT
            invariant
                i <= INPUT_COUNT,
                self.inputs@.len() == INPUT_COUNT,
                codes@ == self.inputs@.take(i as int),
            decreases INPUT_COUNT - i,
        {
            codes.push(self.inputs[i]);
            assert(self.inputs@.take(i as int).push(self.inputs@[i as int])
                == self.inputs@.take(i + 1));
            i += 1;
        }
        assert(self.inputs@.take(INPUT_COUNT as int) == self.inputs@);
        codes
    }
}

impl Default for B0xxState {
    /// The snapshot before any frame was read: no input has a code yet.
    fn default() -> (state: B0xxState)
        ensures
            state@ == Seq::new(INPUT_COUNT as nat, |i: int| B0xxReport::Invalid),
    {
        let state = B0xxState { inputs: [B0xxReport::Invalid;24] };
        assert(state.inputs@ =~= Seq::new(INPUT_COUNT as nat, |i: int| B0xxReport::Invalid));
        state
    }
}

/// A frame as the device sends it decodes to a snapshot in which every input
/// has the code of its byte, and none of them is the sentinel.
pub proof fn lemma_aligned_frame_decodes(bytes: Seq<u8>)
    requires
        is_aligned_frame(bytes),
    ensures
        frame_snapshot(bytes) is Some,
        frame_snapshot(bytes)->0.len() == INPUT_COUNT,
        forall|i: int|
            0 <= i < INPUT_COUNT ==> #[trigger] frame_snapshot(bytes)->0[i] == report_of(bytes[i]),
        forall|i: int|
            0 <= i < INPUT_COUNT ==> #[trigger] frame_snapshot(bytes)->0[i] != B0xxReport::End,
{
}

/// A run of bytes of any other length than a frame's has no snapshot.
pub proof fn lemma_wrong_length_has_no_snapshot(bytes: Seq<u8>)
    requires
        bytes.len() != FRAME_SIZE,
    ensures
        frame_snapshot(bytes) is None,
{
}

} // verus!
