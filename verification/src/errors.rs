//! The failure taxonomy of the slave engine.
//!
//! Every failure names the operation that was underway; one implicating a
//! line carries the line's name and offset. An engine-level error chains the
//! line-level error that caused it, and a line-level error carries the
//! kernel error underneath, so a log shows the whole path down to the ioctl.

use vstd::prelude::*;

verus! {

/// Which acknowledgement operation failed.
#[derive(Debug, Clone, Copy, PartialEq, Eq, Structural)]
pub enum AckError {
    Ack,
    Nack,
}

impl AckError {
    /// A short description of the failed acknowledgement, for logs.
    pub fn describe(&self) -> (r: &'static str)
        ensures
            self is Ack ==> r@ == "ack failed"@,
            self is Nack ==> r@ == "nack failed"@,
    {
        proof {
            reveal_strlit("ack failed");
            reveal_strlit("nack failed");
        }
        match self {
            AckError::Ack => "ack failed",
            AckError::Nack => "nack failed",
        }
    }
}

/// The identity of the line an error implicates: its human name and its
/// offset within the GPIO chip.
#[derive(Debug, PartialEq, Eq)]
pub struct LineErrorInfo {
    pub name: String,
    pub offset: u32,
}

impl LineErrorInfo {
    /// Builds the identity record for the named line.
    pub fn new(name: &str, offset: u32) -> (r: Self)
        ensures
            r.name@ == name@,
            r.offset == offset,
    {
        LineErrorInfo { name: name.to_owned(), offset }
    }
}

/// The named kinds of failure, each carrying its operation context.
#[derive(Debug)]
pub enum I2cGpioErrorKind {
    /// A kernel handle request on the named line failed; the string names
    /// the mode that was being entered.
    LineRequestError(LineErrorInfo, String),
    /// Retrieving kernel information for the named line failed.
    LineInfoError(LineErrorInfo),
    /// Waiting for a START condition failed.
    WaitStartError,
    /// Waiting for a STOP condition failed.
    WaitStopError,
    /// Waiting for the next clock edge of the named polarity failed.
    WaitNextEdge(String),
    /// Receiving a byte from the master failed.
    ReadByteError,
    /// Transmitting the carried byte to the master failed.
    WriteByteError(u8),
    /// Receiving the address byte failed.
    ReadAddrError,
    /// Asserting an acknowledgement failed; the string names the sub-step.
    AckError(String),
    /// Signalling no-acknowledge failed; the string names the sub-step.
    NackError(String),
}

/// A structured failure: its kind, the library-level failure underneath it
/// (if any), and the kernel error underneath that (if any).
#[derive(Debug)]
pub struct I2cGpioError {
    pub kind: I2cGpioErrorKind,
    pub cause: Option<Box<I2cGpioError>>,
    pub gpio_cause: Option<gpio_cdev::Error>,
}

impl I2cGpioError {
    /// An error of the given kind with nothing chained beneath it yet.
    pub fn from_kind(kind: I2cGpioErrorKind) -> (r: Self)
        ensures
            r.kind == kind,
            r.cause is None,
            r.gpio_cause is None,
    {
        I2cGpioError { kind, cause: None, gpio_cause: None }
    }

    /// The same error with a library-level cause chained beneath it.
    pub fn with_cause(self, cause: I2cGpioError) -> (r: Self)
        ensures
            r.kind == self.kind,
            r.cause is Some && r.cause->Some_0 == cause,
            r.gpio_cause == self.gpio_cause,
    {
        I2cGpioError { cause: Some(Box::new(cause)), ..self }
    }

    /// The same error with the kernel error chained beneath it.
    pub fn with_gpio_cause(self, cause: gpio_cdev::Error) -> (r: Self)
        ensures
            r.kind == self.kind,
            r.cause == self.cause,
            r.gpio_cause is Some,
    {
        I2cGpioError { gpio_cause: Some(cause), ..self }
    }

    /// A kernel handle request on the given line failed while entering the
    /// mode the hint names.
    pub fn line_request_error(info: LineErrorInfo, hint: String) -> (r: Self)
        ensures
            r.kind == I2cGpioErrorKind::LineRequestError(info, hint),
    {
        Self::from_kind(I2cGpioErrorKind::LineRequestError(info, hint))
    }

    /// Retrieving kernel information for the given line failed.
    pub fn line_info_error(info: LineErrorInfo) -> (r: Self)
        ensures
            r.kind == I2cGpioErrorKind::LineInfoError(info),
    {
        Self::from_kind(I2cGpioErrorKind::LineInfoError(info))
    }

    /// Waiting for a START condition failed.
    pub fn wait_start_error() -> (r: Self)
        ensures
            r.kind is WaitStartError,
    {
        Self::from_kind(I2cGpioErrorKind::WaitStartError)
    }

    /// Waiting for a STOP condition failed.
    pub fn wait_stop_error() -> (r: Self)
        ensures
            r.kind is WaitStopError,
    {
        Self::from_kind(I2cGpioErrorKind::WaitStopError)
    }

    /// Waiting for the next clock edge of the named polarity failed.
    pub fn wait_next_edge_error(edge: String) -> (r: Self)
        ensures
            r.kind == I2cGpioErrorKind::WaitNextEdge(edge),
    {
        Self::from_kind(I2cGpioErrorKind::WaitNextEdge(edge))
    }

    /// Receiving a byte from the master failed.
    pub fn read_byte_error() -> (r: Self)
        ensures
            r.kind is ReadByteError,
    {
        Self::from_kind(I2cGpioErrorKind::ReadByteError)
    }

    /// Transmitting the byte `byte` to the master failed.
    pub fn write_byte_error(byte: u8) -> (r: Self)
        ensures
            r.kind == I2cGpioErrorKind::WriteByteError(byte),
    {
        Self::from_kind(I2cGpioErrorKind::WriteByteError(byte))
    }

    /// Receiving the address byte failed.
    pub fn read_addr_error() -> (r: Self)
        ensures
            r.kind is ReadAddrError,
    {
        Self::from_kind(I2cGpioErrorKind::ReadAddrError)
    }

    /// Asserting an acknowledgement failed in the named sub-step.
    pub fn ack_error(reason: String) -> (r: Self)
        ensures
            r.kind == I2cGpioErrorKind::AckError(reason),
    {
        Self::from_kind(I2cGpioErrorKind::AckError(reason))
    }

    /// Signalling no-acknowledge failed in the named sub-step.
    pub fn nack_error(reason: String) -> (r: Self)
        ensures
            r.kind == I2cGpioErrorKind::NackError(reason),
    {
        Self::from_kind(I2cGpioErrorKind::NackError(reason))
    }
}

} // verus!
