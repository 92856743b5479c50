//! Error taxonomy of the viewer.

use vstd::prelude::*;

verus! {

/// What the frame reader needs to know of a failed transport read or write.
#[derive(Clone, Copy, Debug, PartialEq, Eq, Structural)]
pub enum IoFault {
    /// The operation ran into its timeout.
    TimedOut,
    /// The other end of the transport is gone.
    BrokenPipe,
    /// Any other failure.
    Other,
}

impl IoFault {
    /// A timeout or a broken transport means that the device was unplugged.
    pub open spec fn spec_is_disconnect(self) -> bool {
        self == IoFault::TimedOut || self == IoFault::BrokenPipe
    }

    #[verifier::when_used_as_spec(spec_is_disconnect)]
    pub fn is_disconnect(self) -> (lost: bool)
        ensures
            lost == self.spec_is_disconnect(),
    {
        match self {
            IoFault::TimedOut => true,
            IoFault::BrokenPipe => true,
            IoFault::Other => false,
        }
    }
}

/// Why the serial port layer refused an operation (open, handshake, purge).
#[derive(Clone, Copy, Debug, PartialEq, Eq, Structural)]
pub enum SerialFault {
    /// The device is not available.
    NoDevice,
    /// A parameter was rejected.
    InvalidInput,
    /// The port layer gave no reason.
    Unknown,
    /// An I/O failure below the port layer.
    Io(IoFault),
}

/// Why a hexadecimal USB id could not be read.
#[derive(Clone, Copy, Debug, PartialEq, Eq, Structural)]
pub enum IdParseError {
    /// Nothing is left once the prefix and the sign are taken away.
    Empty,
    /// A character is no hexadecimal digit.
    InvalidDigit,
    /// The number does not fit in sixteen bits.
    Overflow,
}

/// What can go wrong in the viewer.
#[derive(Clone, Copy, Debug, PartialEq, Eq, Structural)]
pub enum ViewerError {
    /// No port matched at discovery time.
    B0xxNotFound,
    /// A read or write on the open connection failed.
    IoError(IoFault),
    /// The serial port layer failed.
    SerialPortError(SerialFault),
    /// The channel to the serial worker is closed.
    SerialThreadError,
    /// The bundled whitelist is malformed.
    ConfigError(IdParseError),
    /// A report did not have the length of a frame.
    MalformedSerialReport,
    /// Anything that has no name of its own.
    UnknownError,
}

impl From<IoFault> for ViewerError {
    fn from(fault: IoFault) -> (e: ViewerError) {
        ViewerError::IoError(fault)
    }
}

impl vstd::std_specs::convert::FromSpecImpl<IoFault> for ViewerError {
    open spec fn obeys_from_spec() -> bool {
        true
    }

    open spec fn from_spec(fault: IoFault) -> ViewerError {
        ViewerError::IoError(fault)
    }
}

impl From<SerialFault> for ViewerError {
    fn from(fault: SerialFault) -> (e: ViewerError) {
        ViewerError::SerialPortError(fault)
    }
}

impl vstd::std_specs::convert::FromSpecImpl<SerialFault> for ViewerError {
    open spec fn obeys_from_spec() -> bool {
        true
    }

    open spec fn from_spec(fault: SerialFault) -> ViewerError {
        ViewerError::SerialPortError(fault)
    }
}

impl From<IdParseError> for ViewerError {
    fn from(cause: IdParseError) -> (e: ViewerError) {
        ViewerError::ConfigError(cause)
    }
}

impl vstd::std_specs::convert::FromSpecImpl<IdParseError> for ViewerError {
    open spec fn obeys_from_spec() -> bool {
        true
    }

    open spec fn from_spec(cause: IdParseError) -> ViewerError {
        ViewerError::ConfigError(cause)
    }
}

} // verus!
