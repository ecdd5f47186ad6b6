//! The library's error type, and the status and reason under which an error
//! is reported across the call boundary.

use vstd::prelude::*;
use vstd::string::*;

verus! {

/// Why an operation on a target failed.
///
/// The three probe variants carry the probe layer's own message: the host
/// wraps what the probe reported and the library hands it on unchanged.
#[derive(Debug, Clone, PartialEq, Eq)]
pub enum PlungerError {
    /// The target name does not belong to the family of the algorithm.
    InvalidTarget(String),
    /// The device is at the fully locked read-out protection level.
    InvalidProtectionLevel,
    /// A session, core or register operation failed.
    ProbeRsSessionError(String),
    /// The whole-chip erase primitive failed.
    ProbeFlashingError(String),
    /// The probe itself could not be opened or spoken to.
    ProbeRsCommError(String),
    /// No algorithm serves the target with this name.
    UnsupportedTarget(String),
    /// The host and the library disagree about where an operation stands,
    /// or a table that they share is not as it should be.
    StateError(String),
}

/// A `PlungerError` with its text as a sequence of characters.
pub enum PlungerErrorView {
    InvalidTarget(Seq<char>),
    InvalidProtectionLevel,
    ProbeRsSessionError(Seq<char>),
    ProbeFlashingError(Seq<char>),
    ProbeRsCommError(Seq<char>),
    UnsupportedTarget(Seq<char>),
    StateError(Seq<char>),
}

/// What kind of failure an error is, and so what the caller can do about
/// it.
#[derive(Debug, Clone, Copy, PartialEq, Eq, Structural)]
pub enum ErrorKind {
    /// The caller named a target that the algorithm is not for.
    InvalidTarget,
    /// The device is fully locked; nothing done through the probe helps.
    InvalidProtectionLevel,
    /// The probe, the session or a register access failed. The whole
    /// operation may be tried again from its beginning.
    Communication,
    /// No algorithm serves the target.
    UnsupportedTarget,
    /// The operation cannot go on; the next one may.
    State,
}

/// What precedes the target's name in the message of an unsupported
/// target.
pub const UNSUPPORTED_TARGET: &'static str = "Unsupported target for identify ";

/// The status under which a failure is reported to the caller.
#[derive(Debug, Clone, Copy, PartialEq, Eq, Structural)]
pub enum Status {
    /// The caller passed an argument that cannot be used.
    InvalidArg,
    /// The operation was attempted and failed.
    GenericFailure,
    /// The failure has no more specific status.
    Unknown,
}

/// A failure as the caller sees it: a status and a line of text.
#[derive(Debug, Clone, PartialEq, Eq)]
pub struct CallError {
    pub status: Status,
    pub reason: String,
}

/// A `CallError` with its reason as a sequence of characters.
pub struct CallErrorView {
    pub status: Status,
    pub reason: Seq<char>,
}

impl View for CallError {
    type V = CallErrorView;

    open spec fn view(&self) -> CallErrorView {
        CallErrorView { status: self.status, reason: self.reason@ }
    }
}

impl View for PlungerError {
    type V = PlungerErrorView;

    open spec fn view(&self) -> PlungerErrorView {
        match self {
            PlungerError::InvalidTarget(text) => PlungerErrorView::InvalidTarget(text@),
            PlungerError::InvalidProtectionLevel => PlungerErrorView::InvalidProtectionLevel,
            PlungerError::ProbeRsSessionError(text) => PlungerErrorView::ProbeRsSessionError(text@),
            PlungerError::ProbeFlashingError(text) => PlungerErrorView::ProbeFlashingError(text@),
            PlungerError::ProbeRsCommError(text) => PlungerErrorView::ProbeRsCommError(text@),
            PlungerError::UnsupportedTarget(text) => PlungerErrorView::UnsupportedTarget(text@),
            PlungerError::StateError(text) => PlungerErrorView::StateError(text@),
        }
    }
}

impl PlungerErrorView {
    /// The line of text that describes the error.
    pub open spec fn message(self) -> Seq<char> {
        match self {
            PlungerErrorView::InvalidTarget(text) => "Invalid target: "@ + text,
            PlungerErrorView::InvalidProtectionLevel => "Invalid Read Protection Level"@,
            PlungerErrorView::ProbeRsSessionError(text) => text,
            PlungerErrorView::ProbeFlashingError(text) => text,
            PlungerErrorView::ProbeRsCommError(text) => text,
            PlungerErrorView::UnsupportedTarget(name) => UNSUPPORTED_TARGET@ + name,
            PlungerErrorView::StateError(text) => "Invalid state: "@ + text,
        }
    }

    /// What kind of failure the error is. The three errors of the probe
    /// layer are failures of communication.
    pub open spec fn kind(self) -> ErrorKind {
        match self {
            PlungerErrorView::InvalidTarget(_) => ErrorKind::InvalidTarget,
            PlungerErrorView::InvalidProtectionLevel => ErrorKind::InvalidProtectionLevel,
            PlungerErrorView::ProbeRsSessionError(_) => ErrorKind::Communication,
            PlungerErrorView::ProbeFlashingError(_) => ErrorKind::Communication,
            PlungerErrorView::ProbeRsCommError(_) => ErrorKind::Communication,
            PlungerErrorView::UnsupportedTarget(_) => ErrorKind::UnsupportedTarget,
            PlungerErrorView::StateError(_) => ErrorKind::State,
        }
    }

    /// The status under which the error is reported: a wrong target is the
    /// caller's mistake, an unsupported target and a disagreement about
    /// state have no better status, and everything else is a failure of
    /// the operation.
    pub open spec fn status(self) -> Status {
        match self {
            PlungerErrorView::InvalidTarget(_) => Status::InvalidArg,
            PlungerErrorView::UnsupportedTarget(_) => Status::Unknown,
            PlungerErrorView::StateError(_) => Status::Unknown,
            _ => Status::GenericFailure,
        }
    }
}

impl PlungerError {
    /// The line of text that describes the error.
    pub fn message(&self) -> (text: String)
        ensures
            text@ == self@.message(),
    {
        match self {
            PlungerError::InvalidTarget(detail) => String::from_str("Invalid target: ").concat(
                detail.as_str(),
            ),
            PlungerError::InvalidProtectionLevel => String::from_str(
                "Invalid Read Protection Level",
            ),
            PlungerError::ProbeRsSessionError(detail) => detail.clone(),
            PlungerError::ProbeFlashingError(detail) => detail.clone(),
            PlungerError::ProbeRsCommError(detail) => detail.clone(),
            PlungerError::UnsupportedTarget(name) => String::from_str(UNSUPPORTED_TARGET).concat(
                name.as_str(),
            ),
            PlungerError::StateError(detail) => String::from_str("Invalid state: ").concat(
                detail.as_str(),
            ),
        }
    }

    /// What kind of failure the error is.
    pub fn kind(&self) -> (kind: ErrorKind)
        ensures
            kind == self@.kind(),
    {
        match self {
            PlungerError::InvalidTarget(_) => ErrorKind::InvalidTarget,
            PlungerError::InvalidProtectionLevel => ErrorKind::InvalidProtectionLevel,
            PlungerError::ProbeRsSessionError(_) => ErrorKind::Communication,
            PlungerError::ProbeFlashingError(_) => ErrorKind::Communication,
            PlungerError::ProbeRsCommError(_) => ErrorKind::Communication,
            PlungerError::UnsupportedTarget(_) => ErrorKind::UnsupportedTarget,
            PlungerError::StateError(_) => ErrorKind::State,
        }
    }

    /// Whether it can help to start the whole operation again: only after
    /// a failure of communication.
    pub fn may_retry(&self) -> (retry: bool)
        ensures
            retry == (self@.kind() == ErrorKind::Communication),
    {
        match self.kind() {
            ErrorKind::Communication => true,
            _ => false,
        }
    }

    /// The status under which the error is reported.
    pub fn status(&self) -> (status: Status)
        ensures
            status == self@.status(),
    {
        match self {
            PlungerError::InvalidTarget(_) => Status::InvalidArg,
            PlungerError::UnsupportedTarget(_) => Status::Unknown,
            PlungerError::StateError(_) => Status::Unknown,
            _ => Status::GenericFailure,
        }
    }
}

impl CallError {
    /// The failure with the given status and text.
    pub fn new(status: Status, reason: &str) -> (err: CallError)
        ensures
            err.status == status,
            err.reason@ == reason@,
    {
        CallError { status, reason: String::from_str(reason) }
    }

    /// How `err` is reported to the caller: under its status, with its
    /// message as the reason.
    pub fn from_plunger(err: &PlungerError) -> (ret: CallError)
        ensures
            ret.status == err@.status(),
            ret.reason@ == err@.message(),
    {
        CallError { status: err.status(), reason: err.message() }
    }
}

/// A result as the caller sees it: a success as it is, a failure under its
/// status and with its message.
pub fn reported<T>(result: Result<T, PlungerError>) -> (seen: Result<T, CallError>)
    ensures
        match result {
            Ok(value) => seen == Ok::<T, CallError>(value),
            Err(err) => seen matches Err(call) && call.status == err@.status() && call.reason@
                == err@.message(),
        },
{
    match result {
        Ok(value) => Ok(value),
        Err(err) => Err(CallError::from(err)),
    }
}

impl vstd::std_specs::convert::FromSpecImpl<PlungerError> for CallError {
    open spec fn obeys_from_spec() -> bool {
        false
    }

    open spec fn from_spec(err: PlungerError) -> CallError {
        choose|ret: CallError| ret.status == err@.status() && ret.reason@ == err@.message()
    }
}

impl From<PlungerError> for CallError {
    /// Reports `err` under its status, with its message as the reason.
    fn from(err: PlungerError) -> (ret: CallError)
        ensures
            ret.status == err@.status(),
            ret.reason@ == err@.message(),
    {
        CallError::from_plunger(&err)
    }
}

} // verus!
