//! The ways a run can fail, and what each failure means for the process.

use vstd::prelude::*;

verus! {

/// The direction of a transfer on the device's endpoints.
#[derive(Clone, Copy, Debug, PartialEq, Eq, Structural)]
pub enum Direction {
    /// Host to device: the command report.
    Write,
    /// Device to host: the acknowledgement.
    Read,
}

/// A fatal condition. Every one of them ends the run with a non-zero status.
#[derive(Clone, Copy, Debug, PartialEq, Eq)]
pub enum ErrorKind {
    /// The arguments were not exactly one of the two accepted words.
    Usage,
    /// The USB subsystem could not be initialised.
    ContextInit,
    /// No device with the expected vendor and product identifiers answered.
    DeviceNotFound,
    /// The kernel driver bound to the interface could not be detached.
    DriverDetach,
    /// The interface could not be claimed.
    InterfaceClaim,
    /// A transfer failed after the interface had been claimed.
    Transfer(Direction),
}

/// A failure while giving the device back. It is reported and otherwise ignored.
#[derive(Clone, Copy, Debug, PartialEq, Eq, Structural)]
pub enum CleanupWarning {
    /// The claimed interface could not be released.
    Release,
    /// The kernel driver could not be attached again.
    Reattach,
}

/// The process status for a finished run: zero when nothing fatal happened, one otherwise.
pub open spec fn status_of(result: Option<ErrorKind>) -> i32 {
    if result is None {
        0i32
    } else {
        1i32
    }
}

/// The process status for a finished run.
pub fn exit_status(result: Option<ErrorKind>) -> (code: i32)
    ensures
        code == status_of(result),
{
    match result {
        None => 0,
        Some(_) => 1,
    }
}

/// The line that reports a fatal error. The caller adds the detail the
/// system gave, if there is any.
pub open spec fn message_of(kind: ErrorKind) -> Seq<char> {
    match kind {
        ErrorKind::Usage => "Invalid action, expected 'on' or 'off'"@,
        ErrorKind::ContextInit => "Failed to initialize rusb"@,
        ErrorKind::DeviceNotFound => "Failed to open device"@,
        ErrorKind::DriverDetach => "Failed to detach kernel driver"@,
        ErrorKind::InterfaceClaim => "Failed to claim interface"@,
        ErrorKind::Transfer(Direction::Write) => "Failed to send data"@,
        ErrorKind::Transfer(Direction::Read) => "Failed to read response"@,
    }
}

/// The line that reports a failure of the cleanup.
pub open spec fn warning_of(warning: CleanupWarning) -> Seq<char> {
    match warning {
        CleanupWarning::Release => "Failed to release interface"@,
        CleanupWarning::Reattach => "Failed to reattach kernel driver"@,
    }
}

impl ErrorKind {
    /// The line that reports this error.
    pub fn message(&self) -> (text: &'static str)
        ensures
            text@ == message_of(*self),
    {
        match self {
            ErrorKind::Usage => "Invalid action, expected 'on' or 'off'",
            ErrorKind::ContextInit => "Failed to initialize rusb",
            ErrorKind::DeviceNotFound => "Failed to open device",
            ErrorKind::DriverDetach => "Failed to detach kernel driver",
            ErrorKind::InterfaceClaim => "Failed to claim interface",
            ErrorKind::Transfer(Direction::Write) => "Failed to send data",
            ErrorKind::Transfer(Direction::Read) => "Failed to read response",
        }
    }
}

impl CleanupWarning {
    /// The line that reports this warning.
    pub fn message(&self) -> (text: &'static str)
        ensures
            text@ == warning_of(*self),
    {
        match self {
            CleanupWarning::Release => "Failed to release interface",
            CleanupWarning::Reattach => "Failed to reattach kernel driver",
        }
    }
}

/// The status does not tell one error from another; the message does:
/// different errors are reported by different lines.
pub proof fn lemma_messages_tell_errors_apart(first: ErrorKind, second: ErrorKind)
    requires
        message_of(first) == message_of(second),
    ensures
        first == second,
{
    reveal_strlit("Invalid action, expected 'on' or 'off'");
    reveal_strlit("Failed to initialize rusb");
    reveal_strlit("Failed to open device");
    reveal_strlit("Failed to detach kernel driver");
    reveal_strlit("Failed to claim interface");
    reveal_strlit("Failed to send data");
    reveal_strlit("Failed to read response");
    assert("Invalid action, expected 'on' or 'off'"@.len() == 38);
    assert("Failed to initialize rusb"@.len() == 25);
    assert("Failed to open device"@.len() == 21);
    assert("Failed to detach kernel driver"@.len() == 30);
    assert("Failed to claim interface"@.len() == 25);
    assert("Failed to send data"@.len() == 19);
    assert("Failed to read response"@.len() == 23);
    assert("Failed to initialize rusb"@[10] == 'i');
    assert("Failed to claim interface"@[10] == 'c');
}

} // verus!
