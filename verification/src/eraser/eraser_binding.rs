//! The erase as the caller asks for it: the validation of the arguments, and
//! the choice of the eraser by the target's name.

use crate::common::plunger_error::{CallError, Status};
use crate::common::probe_info::{copy_serial, is_probe_id, probe_ids, ProbeSelector};
use crate::common::registry::{family_of, Family, Registry};
use crate::eraser::erase_run::{EraseRun, EraseRunView, Stage};
use crate::eraser::generic_eraser::erase_generic;
use crate::eraser::stm32l0_eraser::{erase_stm32l0, is_stm32l0, not_stm32l0_text};
use vstd::prelude::*;

verus! {

/// The text of the error for a number that is no vendor or product id.
pub const INVALID_ERASE_IDS: &'static str = "Invalid probe VID/PID provided";

/// An erase that was asked for: the target and the probe to reach it by.
#[derive(Debug, Clone, PartialEq, Eq)]
pub struct EraserTask {
    probe_sn: Option<String>,
    probe_vid: u16,
    probe_pid: u16,
    target_name: String,
}

/// An `EraserTask` with the target's name as a sequence of characters.
pub struct EraserTaskView {
    pub probe_sn: Option<String>,
    pub probe_vid: u16,
    pub probe_pid: u16,
    pub target_name: Seq<char>,
}

impl View for EraserTask {
    type V = EraserTaskView;

    closed spec fn view(&self) -> EraserTaskView {
        EraserTaskView {
            probe_sn: self.probe_sn,
            probe_vid: self.probe_vid,
            probe_pid: self.probe_pid,
            target_name: self.target_name@,
        }
    }
}

impl EraserTaskView {
    /// The selector of the task's probe.
    pub open spec fn selector(self) -> ProbeSelector {
        ProbeSelector {
            vendor_id: self.probe_vid,
            product_id: self.probe_pid,
            serial_number: self.probe_sn,
        }
    }
}

impl EraserTask {
    /// The serial number of the probe, if one was given.
    pub fn probe_sn(&self) -> (serial: &Option<String>)
        ensures
            *serial == self@.probe_sn,
    {
        &self.probe_sn
    }

    /// The vendor id of the probe.
    pub fn probe_vid(&self) -> (vid: u16)
        ensures
            vid == self@.probe_vid,
    {
        self.probe_vid
    }

    /// The product id of the probe.
    pub fn probe_pid(&self) -> (pid: u16)
        ensures
            pid == self@.probe_pid,
    {
        self.probe_pid
    }

    /// The name of the target.
    pub fn target_name(&self) -> (name: &String)
        ensures
            name@ == self@.target_name,
    {
        &self.target_name
    }

    /// The run that carries out the task.
    ///
    /// Where a family is registered for the target's name, it is the run
    /// of that family's eraser, which may refuse the name. Where none is,
    /// it is the run of the generic eraser.
    pub fn compute(&self, registry: &Registry) -> (made: Result<EraseRun, CallError>)
        ensures
            match family_of(registry@, self@.target_name) {
                Some(Family::Stm32l0) => match made {
                    Ok(run) => is_stm32l0(self@.target_name) && run@ == EraseRunView::start(
                        self@.selector(),
                        self@.target_name,
                        Stage::Unlock,
                    ),
                    Err(err) => !is_stm32l0(self@.target_name) && err.status == Status::InvalidArg
                        && err.reason@ == "Invalid target: "@ + not_stm32l0_text(
                        self@.target_name,
                    ),
                },
                None => made matches Ok(run) && run@ == EraseRunView::start(
                    self@.selector(),
                    Seq::empty(),
                    Stage::GenericErase,
                ),
            },
    {
        match registry.lookup(self.target_name.as_str()) {
            Some(Family::Stm32l0) => erase_stm32l0(
                self.target_name.clone(),
                self.probe_vid,
                self.probe_pid,
                copy_serial(&self.probe_sn),
            ),
            None => erase_generic(self.probe_vid, self.probe_pid, copy_serial(&self.probe_sn)),
        }
    }
}

/// The task of erasing the target `target_name` through the probe with
/// these ids and this serial number.
///
/// A vendor or product id that is negative or above 16 bits is refused as
/// an invalid argument.
pub fn erase_target(target_name: String, vid: i32, pid: i32, serial_num: Option<String>) -> (made:
    Result<EraserTask, CallError>)
    ensures
        match made {
            Ok(task) => is_probe_id(vid) && is_probe_id(pid) && task@ == (EraserTaskView {
                probe_sn: serial_num,
                probe_vid: vid as u16,
                probe_pid: pid as u16,
                target_name: target_name@,
            }),
            Err(err) => !(is_probe_id(vid) && is_probe_id(pid)) && err.status
                == Status::InvalidArg && err.reason@ == INVALID_ERASE_IDS@,
        },
{
    match probe_ids(vid, pid) {
        Some((probe_vid, probe_pid)) => Ok(
            EraserTask { probe_sn: serial_num, probe_vid, probe_pid, target_name },
        ),
        None => Err(CallError::new(Status::InvalidArg, INVALID_ERASE_IDS)),
    }
}

} // verus!
