//! One run of the tool as a state machine.
//!
//! The caller owns the device. It asks the session which operation is pending,
//! performs it, and reports how it went; the session decides what follows. The
//! machine is linear: every event moves it forward, and it never returns to an
//! earlier state.

use vstd::prelude::*;
use crate::action::{parse_arguments, requested, Action};
use crate::error::{exit_status, status_of, CleanupWarning, Direction, ErrorKind};
use crate::payload::{build_payload, with_state, TEMPLATE};

verus! {

/// Vendor identifier of the board's debug probe.
pub const VENDOR_ID: u16 = 0x1366;

/// Product identifier of the board's debug probe.
pub const PRODUCT_ID: u16 = 0x1068;

/// The interface that carries the configuration reports.
pub const INTERFACE: u8 = 5;

/// Interrupt endpoint the command report is written to.
pub const ENDPOINT_OUT: u8 = 0x04;

/// Bulk endpoint the acknowledgement is read from.
pub const ENDPOINT_IN: u8 = 0x86;

/// Upper bound, in milliseconds, on how long each transfer may block.
pub const TIMEOUT_MS: u64 = 1000;

/// Size of the buffer offered to the acknowledgement.
pub const RESPONSE_LEN: usize = 64;

/// An operation the caller performs on behalf of the session.
#[derive(Clone, Copy, Debug, PartialEq, Eq)]
pub enum Step {
    /// Initialise the USB subsystem.
    OpenContext,
    /// Open the device with these identifiers.
    OpenDevice { vendor_id: u16, product_id: u16 },
    /// Ask whether a kernel driver is bound to the interface.
    QueryKernelDriver { interface: u8 },
    /// Detach the kernel driver from the interface.
    DetachKernelDriver { interface: u8 },
    /// Claim the interface.
    ClaimInterface { interface: u8 },
    /// Send the report in one blocking interrupt transfer.
    WriteInterrupt { endpoint: u8, payload: [u8; 64], timeout_ms: u64 },
    /// Receive up to `length` bytes in one blocking bulk transfer.
    ReadBulk { endpoint: u8, length: usize, timeout_ms: u64 },
    /// Release the claimed interface.
    ReleaseInterface { interface: u8 },
    /// Attach the kernel driver to the interface again.
    AttachKernelDriver { interface: u8 },
    /// Leave the process with this status. Nothing follows.
    Exit { code: i32 },
}

/// The mathematical content of a [`Step`]: the same operation, its report as a sequence.
pub enum StepView {
    OpenContext,
    OpenDevice { vendor_id: u16, product_id: u16 },
    QueryKernelDriver { interface: u8 },
    DetachKernelDriver { interface: u8 },
    ClaimInterface { interface: u8 },
    WriteInterrupt { endpoint: u8, payload: Seq<u8>, timeout_ms: u64 },
    ReadBulk { endpoint: u8, length: usize, timeout_ms: u64 },
    ReleaseInterface { interface: u8 },
    AttachKernelDriver { interface: u8 },
    Exit { code: i32 },
}

impl View for Step {
    type V = StepView;

    open spec fn view(&self) -> StepView {
        match *self {
            Step::OpenContext => StepView::OpenContext,
            Step::OpenDevice { vendor_id, product_id } => StepView::OpenDevice {
                vendor_id,
                product_id,
            },
            Step::QueryKernelDriver { interface } => StepView::QueryKernelDriver { interface },
            Step::DetachKernelDriver { interface } => StepView::DetachKernelDriver { interface },
            Step::ClaimInterface { interface } => StepView::ClaimInterface { interface },
            Step::WriteInterrupt { endpoint, payload, timeout_ms } => StepView::WriteInterrupt {
                endpoint,
                payload: payload@,
                timeout_ms,
            },
            Step::ReadBulk { endpoint, length, timeout_ms } => StepView::ReadBulk {
                endpoint,
                length,
                timeout_ms,
            },
            Step::ReleaseInterface { interface } => StepView::ReleaseInterface { interface },
            Step::AttachKernelDriver { interface } => StepView::AttachKernelDriver { interface },
            Step::Exit { code } => StepView::Exit { code },
        }
    }
}

impl StepView {
    /// Whether the operation touches the USB subsystem or the device.
    pub open spec fn is_device_io(self) -> bool {
        !(self is Exit)
    }

    /// Whether the operation moves data over an endpoint.
    pub open spec fn is_transfer(self) -> bool {
        self is WriteInterrupt || self is ReadBulk
    }

    /// Whether the operation gives the device back.
    pub open spec fn is_cleanup(self) -> bool {
        self is ReleaseInterface || self is AttachKernelDriver
    }
}

/// How the pending operation went.
#[derive(Clone, Copy, Debug, PartialEq, Eq, Structural)]
pub enum Event {
    /// The operation succeeded. For the driver query: no kernel driver is bound.
    Succeeded,
    /// The operation failed.
    Failed,
    /// The driver query succeeded and a kernel driver is bound to the interface.
    /// Reported for any other operation it counts as success.
    DriverActive,
}

/// What an event means for the run, for the caller to report.
#[derive(Clone, Copy, Debug, PartialEq, Eq)]
pub enum Verdict {
    /// Nothing to report; the run goes on.
    Proceed,
    /// A failure while giving the device back: reported, never fatal.
    Warning(CleanupWarning),
    /// A fatal failure: the remaining work is abandoned.
    Fatal(ErrorKind),
}

/// The state of a run. Each state but the last names the operation in flight.
#[derive(Clone, Copy, Debug, PartialEq, Eq)]
pub enum Session {
    /// Arguments accepted; the USB subsystem is being initialised.
    OpeningContext(Action),
    /// The device is being opened.
    OpeningDevice(Action),
    /// The kernel driver query is in flight.
    QueryingDriver(Action),
    /// The kernel driver is being detached.
    DetachingDriver(Action),
    /// The interface is being claimed.
    ClaimingInterface(Action),
    /// The interface is claimed and the command report is being written.
    Writing(Action),
    /// The report is written and the acknowledgement is being read.
    Reading,
    /// The interface is being released; holds the transfer that failed, if one did.
    Releasing(Option<Direction>),
    /// The kernel driver is being attached again; holds the transfer that failed, if one did.
    Reattaching(Option<Direction>),
    /// The run is over, with the fatal error that ended it, if any.
    Finished(Option<ErrorKind>),
}

/// The outcome of a run whose transfers ended this way.
pub open spec fn transfer_result(failed: Option<Direction>) -> Option<ErrorKind> {
    match failed {
        None => None,
        Some(direction) => Some(ErrorKind::Transfer(direction)),
    }
}

impl Session {
    /// The state a run starts in, given the positional arguments.
    pub open spec fn initial(tokens: Seq<String>) -> Session {
        match requested(tokens) {
            Some(action) => Session::OpeningContext(action),
            None => Session::Finished(Some(ErrorKind::Usage)),
        }
    }

    /// Whether the interface is claimed in this state, so that it must be given back.
    pub open spec fn holds_interface(self) -> bool {
        self is Writing || self is Reading || self is Releasing
    }

    /// Position of the state in the linear order of a run.
    pub open spec fn rank(self) -> nat {
        match self {
            Session::OpeningContext(_) => 0,
            Session::OpeningDevice(_) => 1,
            Session::QueryingDriver(_) => 2,
            Session::DetachingDriver(_) => 3,
            Session::ClaimingInterface(_) => 4,
            Session::Writing(_) => 5,
            Session::Reading => 6,
            Session::Releasing(_) => 7,
            Session::Reattaching(_) => 8,
            Session::Finished(_) => 9,
        }
    }

    /// The operation the caller must perform in this state.
    pub open spec fn pending_step(self) -> StepView {
        match self {
            Session::OpeningContext(_) => StepView::OpenContext,
            Session::OpeningDevice(_) => StepView::OpenDevice {
                vendor_id: VENDOR_ID,
                product_id: PRODUCT_ID,
            },
            Session::QueryingDriver(_) => StepView::QueryKernelDriver { interface: INTERFACE },
            Session::DetachingDriver(_) => StepView::DetachKernelDriver { interface: INTERFACE },
            Session::ClaimingInterface(_) => StepView::ClaimInterface { interface: INTERFACE },
            Session::Writing(action) => StepView::WriteInterrupt {
                endpoint: ENDPOINT_OUT,
                payload: with_state(TEMPLATE@, action),
                timeout_ms: TIMEOUT_MS,
            },
            Session::Reading => StepView::ReadBulk {
                endpoint: ENDPOINT_IN,
                length: RESPONSE_LEN,
                timeout_ms: TIMEOUT_MS,
            },
            Session::Releasing(_) => StepView::ReleaseInterface { interface: INTERFACE },
            Session::Reattaching(_) => StepView::AttachKernelDriver { interface: INTERFACE },
            Session::Finished(result) => StepView::Exit { code: status_of(result) },
        }
    }

    /// What an event means in this state. Only a failure is ever reported: it is
    /// fatal before and during the transfers, a warning while the device is
    /// given back, and of no consequence for the driver query.
    pub open spec fn verdict_of(self, event: Event) -> Verdict {
        if event != Event::Failed {
            Verdict::Proceed
        } else {
            match self {
                Session::OpeningContext(_) => Verdict::Fatal(ErrorKind::ContextInit),
                Session::OpeningDevice(_) => Verdict::Fatal(ErrorKind::DeviceNotFound),
                Session::QueryingDriver(_) => Verdict::Proceed,
                Session::DetachingDriver(_) => Verdict::Fatal(ErrorKind::DriverDetach),
                Session::ClaimingInterface(_) => Verdict::Fatal(ErrorKind::InterfaceClaim),
                Session::Writing(_) => Verdict::Fatal(ErrorKind::Transfer(Direction::Write)),
                Session::Reading => Verdict::Fatal(ErrorKind::Transfer(Direction::Read)),
                Session::Releasing(_) => Verdict::Warning(CleanupWarning::Release),
                Session::Reattaching(_) => Verdict::Warning(CleanupWarning::Reattach),
                Session::Finished(_) => Verdict::Proceed,
            }
        }
    }

    /// The state that follows when the run simply goes on. The kernel driver is
    /// detached only when the query found one.
    pub open spec fn successor(self, event: Event) -> Session {
        match self {
            Session::OpeningContext(action) => Session::OpeningDevice(action),
            Session::OpeningDevice(action) => Session::QueryingDriver(action),
            Session::QueryingDriver(action) => if event == Event::DriverActive {
                Session::DetachingDriver(action)
            } else {
                Session::ClaimingInterface(action)
            },
            Session::DetachingDriver(action) => Session::ClaimingInterface(action),
            Session::ClaimingInterface(action) => Session::Writing(action),
            Session::Writing(_) => Session::Reading,
            Session::Reading => Session::Releasing(None),
            Session::Releasing(failed) => Session::Reattaching(failed),
            Session::Reattaching(failed) => Session::Finished(transfer_result(failed)),
            Session::Finished(result) => Session::Finished(result),
        }
    }

    /// The transition function. A fatal verdict abandons the remaining work: a
    /// failed transfer leads to the cleanup, which remembers it; any other
    /// fatal failure ends the run at once. Everything else moves to the successor.
    pub open spec fn after(self, event: Event) -> Session {
        match self.verdict_of(event) {
            Verdict::Fatal(ErrorKind::Transfer(direction)) => Session::Releasing(Some(direction)),
            Verdict::Fatal(kind) => Session::Finished(Some(kind)),
            _ => self.successor(event),
        }
    }

    /// Starts a run from the positional arguments of the command line.
    pub fn begin(tokens: &Vec<String>) -> (session: Session)
        ensures
            session == Session::initial(tokens@),
    {
        match parse_arguments(tokens) {
            Ok(action) => Session::OpeningContext(action),
            Err(kind) => Session::Finished(Some(kind)),
        }
    }

    /// The operation the caller must perform now.
    pub fn pending(&self) -> (step: Step)
        ensures
            step@ == self.pending_step(),
    {
        match *self {
            Session::OpeningContext(_) => Step::OpenContext,
            Session::OpeningDevice(_) => Step::OpenDevice {
                vendor_id: VENDOR_ID,
                product_id: PRODUCT_ID,
            },
            Session::QueryingDriver(_) => Step::QueryKernelDriver { interface: INTERFACE },
            Session::DetachingDriver(_) => Step::DetachKernelDriver { interface: INTERFACE },
            Session::ClaimingInterface(_) => Step::ClaimInterface { interface: INTERFACE },
            Session::Writing(action) => Step::WriteInterrupt {
                endpoint: ENDPOINT_OUT,
                payload: build_payload(action),
                timeout_ms: TIMEOUT_MS,
            },
            Session::Reading => Step::ReadBulk {
                endpoint: ENDPOINT_IN,
                length: RESPONSE_LEN,
                timeout_ms: TIMEOUT_MS,
            },
            Session::Releasing(_) => Step::ReleaseInterface { interface: INTERFACE },
            Session::Reattaching(_) => Step::AttachKernelDriver { interface: INTERFACE },
            Session::Finished(result) => Step::Exit { code: exit_status(result) },
        }
    }

    /// Takes in how the pending operation went and moves to the next state.
    /// Returns what the caller should report about the event.
    pub fn advance(&mut self, event: Event) -> (verdict: Verdict)
        ensures
            *final(self) == old(self).after(event),
            verdict == old(self).verdict_of(event),
    {
        let failed = event == Event::Failed;
        let (next, verdict) = match *self {
            Session::OpeningContext(action) => if failed {
                fatal(ErrorKind::ContextInit)
            } else {
                (Session::OpeningDevice(action), Verdict::Proceed)
            },
            Session::OpeningDevice(action) => if failed {
                fatal(ErrorKind::DeviceNotFound)
            } else {
                (Session::QueryingDriver(action), Verdict::Proceed)
            },
            Session::QueryingDriver(action) => if event == Event::DriverActive {
                (Session::DetachingDriver(action), Verdict::Proceed)
            } else {
                (Session::ClaimingInterface(action), Verdict::Proceed)
            },
            Session::DetachingDriver(action) => if failed {
                fatal(ErrorKind::DriverDetach)
            } else {
                (Session::ClaimingInterface(action), Verdict::Proceed)
            },
            Session::ClaimingInterface(action) => if failed {
                fatal(ErrorKind::InterfaceClaim)
            } else {
                (Session::Writing(action), Verdict::Proceed)
            },
            Session::Writing(_) => if failed {
                abandon(Direction::Write)
            } else {
                (Session::Reading, Verdict::Proceed)
            },
            Session::Reading => if failed {
                abandon(Direction::Read)
            } else {
                (Session::Releasing(None), Verdict::Proceed)
            },
            Session::Releasing(direction) => (
                Session::Reattaching(direction),
                if failed {
                    Verdict::Warning(CleanupWarning::Release)
                } else {
                    Verdict::Proceed
                },
            ),
            Session::Reattaching(direction) => (
                Session::Finished(
                    match direction {
                        None => None,
                        Some(d) => Some(ErrorKind::Transfer(d)),
                    },
                ),
                if failed {
                    Verdict::Warning(CleanupWarning::Reattach)
                } else {
                    Verdict::Proceed
                },
            ),
            Session::Finished(result) => (Session::Finished(result), Verdict::Proceed),
        };
        *self = next;
        verdict
    }
}

/// The direction bit of an endpoint address: set for endpoints that carry
/// data from the device to the host.
pub const DIRECTION_IN: u8 = 0x80;

/// The two endpoints point the way they are used: the report goes to
/// endpoint 4, which takes data from the host, and the acknowledgement comes
/// from endpoint 6, which gives data to the host.
pub proof fn lemma_endpoint_directions()
    ensures
        ENDPOINT_OUT & DIRECTION_IN == 0,
        ENDPOINT_OUT == 4,
        ENDPOINT_IN & DIRECTION_IN == DIRECTION_IN,
        ENDPOINT_IN == DIRECTION_IN | 6,
{
    assert(0x04u8 & 0x80u8 == 0) by (bit_vector);
    assert(0x86u8 & 0x80u8 == 0x80u8) by (bit_vector);
    assert(0x86u8 == 0x80u8 | 6u8) by (bit_vector);
}

/// A fatal failure before the interface is claimed: the run ends at once.
fn fatal(kind: ErrorKind) -> (r: (Session, Verdict))
    ensures
        r == (Session::Finished(Some(kind)), Verdict::Fatal(kind)),
{
    (Session::Finished(Some(kind)), Verdict::Fatal(kind))
}

/// A failed transfer: the run turns to the cleanup and remembers the failure.
fn abandon(direction: Direction) -> (r: (Session, Verdict))
    ensures
        r == (
            Session::Releasing(Some(direction)),
            Verdict::Fatal(ErrorKind::Transfer(direction)),
        ),
{
    (Session::Releasing(Some(direction)), Verdict::Fatal(ErrorKind::Transfer(direction)))
}

} // verus!
