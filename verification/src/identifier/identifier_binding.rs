//! The identification as the caller asks for it: the validation of the
//! arguments, the choice of the identifier by the target's name, and what
//! is made of an identification that was waited for.

use crate::common::plunger_error::{CallError, PlungerError, Status, UNSUPPORTED_TARGET};
use crate::common::probe_info::{is_probe_id, probe_ids, ProbeSelector};
use crate::common::registry::{family_of, Family, Registry};
use crate::eraser::stm32l0_eraser::{is_stm32l0, not_stm32l0_text};
use crate::identifier::base_identifier::TargetIdentity;
use crate::identifier::identify_run::{Goal, IdentifyRun, IdentifyRunView};
use crate::identifier::stm32l0_identifier::identify_stm32l0;
use vstd::prelude::*;
use vstd::string::*;

verus! {

/// How long an identification is waited for, in seconds.
pub const IDENTIFY_TIMEOUT_SECS: u64 = 3;

/// The text of the error for a number that is no vendor or product id.
pub const INVALID_IDS: &'static str = "Invalid VID/PID provided";

/// The text of the error for an identification that did not end in time.
pub const NOT_RESPONDING: &'static str = "Identifier is not responding after 3 seconds";

/// What precedes the worker's own text in the error for a worker that
/// could not be joined.
pub const JOIN_FAILED: &'static str = "Unexpected failure to join identifier thread: ";

/// What came of waiting for the worker that carries out an
/// identification.
#[derive(Debug, PartialEq, Eq)]
pub enum Waited {
    /// The time was up before the worker ended.
    TimedOut,
    /// The worker ended without a result; the text says how.
    JoinFailed(String),
    /// The worker ended with this result.
    Returned(Result<TargetIdentity, CallError>),
}

/// The arguments of an identification, validated.
///
/// A vendor or product id that is negative or above 16 bits is refused as
/// an invalid argument.
pub fn identify_target(target_name: String, vid: i32, pid: i32, serial_num: Option<String>) -> (made:
    Result<(String, ProbeSelector), CallError>)
    ensures
        match made {
            Ok(call) => is_probe_id(vid) && is_probe_id(pid) && call.0 == target_name
                && call.1 == (ProbeSelector {
                vendor_id: vid as u16,
                product_id: pid as u16,
                serial_number: serial_num,
            }),
            Err(err) => !(is_probe_id(vid) && is_probe_id(pid)) && err.status
                == Status::InvalidArg && err.reason@ == INVALID_IDS@,
        },
{
    match probe_ids(vid, pid) {
        Some((vendor_id, product_id)) => Ok(
            (target_name, ProbeSelector { vendor_id, product_id, serial_number: serial_num }),
        ),
        None => Err(CallError::new(Status::InvalidArg, INVALID_IDS)),
    }
}

/// The run that identifies the target `target_name`.
///
/// Where a family is registered for the name, it is the run of that
/// family's identifier, which may refuse the name. Where none is, the
/// target is unsupported: there is no generic identification.
pub fn identify_with_timeout(
    registry: &Registry,
    target_name: String,
    vid: u16,
    pid: u16,
    serial_num: Option<String>,
) -> (made: Result<IdentifyRun, CallError>)
    ensures
        match family_of(registry@, target_name@) {
            Some(Family::Stm32l0) => match made {
                Ok(run) => is_stm32l0(target_name@) && run@ == IdentifyRunView::start(
                    ProbeSelector { vendor_id: vid, product_id: pid, serial_number: serial_num },
                    target_name@,
                    Goal::Identity,
                ),
                Err(err) => !is_stm32l0(target_name@) && err.status == Status::InvalidArg
                    && err.reason@ == "Invalid target: "@ + not_stm32l0_text(target_name@),
            },
            None => made matches Err(err) && err.status == Status::Unknown && err.reason@
                == UNSUPPORTED_TARGET@ + target_name@,
        },
{
    match registry.lookup(target_name.as_str()) {
        Some(Family::Stm32l0) => identify_stm32l0(target_name, vid, pid, serial_num),
        None => Err(CallError::from(PlungerError::UnsupportedTarget(target_name))),
    }
}

/// What the caller is told of an identification that was waited for: the
/// worker's result if it ended in time, a failure if the time was up, and
/// a failure with the worker's text if it ended without a result.
pub fn identify_verdict(waited: Waited) -> (told: Result<TargetIdentity, CallError>)
    ensures
        match waited {
            Waited::TimedOut => told matches Err(err) && err.status == Status::GenericFailure
                && err.reason@ == NOT_RESPONDING@,
            Waited::JoinFailed(text) => told matches Err(err) && err.status == Status::Unknown
                && err.reason@ == JOIN_FAILED@ + text@,
            Waited::Returned(result) => told == result,
        },
{
    match waited {
        Waited::TimedOut => Err(CallError::new(Status::GenericFailure, NOT_RESPONDING)),
        Waited::JoinFailed(text) => Err(
            CallError {
                status: Status::Unknown,
                reason: String::from_str(JOIN_FAILED).concat(text.as_str()),
            },
        ),
        Waited::Returned(result) => result,
    }
}

} // verus!
