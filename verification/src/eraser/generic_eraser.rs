//! The fallback eraser: the probe layer's own whole-chip erase, on whatever
//! target the probe detects.

use crate::common::plunger_error::{CallError, PlungerError};
use crate::common::probe_info::ProbeSelector;
use crate::eraser::base_eraser::BaseEraser;
use crate::eraser::erase_run::{EraseRun, EraseRunView, Stage};
use crate::probe::link::ProbeRequest;
use vstd::prelude::*;

verus! {

/// Erases any target that the probe layer knows how to erase.
#[derive(Debug, Clone, PartialEq, Eq)]
pub struct GenericEraser {
    probe: ProbeSelector,
}

impl View for GenericEraser {
    type V = ProbeSelector;

    closed spec fn view(&self) -> ProbeSelector {
        self.probe
    }
}

/// How many requests the generic erase makes.
pub const GENERIC_ERASE_STEPS: u8 = 4;

impl GenericEraser {
    /// The request at `step` of the generic erase: open the probe, detach,
    /// attach to the detected target, erase the chip.
    pub open spec fn spec_erase_request(step: nat) -> ProbeRequest {
        if step == 0 {
            ProbeRequest::Open
        } else if step == 1 {
            ProbeRequest::Detach
        } else if step == 2 {
            ProbeRequest::AttachAuto
        } else {
            ProbeRequest::EraseAll
        }
    }

    /// The request at `step` of the generic erase.
    pub fn erase_request(step: u8) -> (request: ProbeRequest)
        ensures
            request == Self::spec_erase_request(step as nat),
    {
        match step {
            0 => ProbeRequest::Open,
            1 => ProbeRequest::Detach,
            2 => ProbeRequest::AttachAuto,
            _ => ProbeRequest::EraseAll,
        }
    }

    /// The generic eraser on the probe that `probe` selects. Every selector
    /// is accepted.
    pub fn new(probe: ProbeSelector) -> (made: Result<GenericEraser, PlungerError>)
        ensures
            made matches Ok(eraser) && eraser@ == probe,
    {
        Ok(GenericEraser { probe })
    }

    /// The selector of the probe that the eraser works through.
    pub fn probe(&self) -> (probe: &ProbeSelector)
        ensures
            *probe == self@,
    {
        &self.probe
    }
}

impl BaseEraser for GenericEraser {
    /// The run of the generic erase on the eraser's probe. It names no
    /// target: the probe layer detects it. The eraser is left as it was.
    fn mass_erase(&mut self) -> (run: EraseRun)
        ensures
            *final(self) == *old(self),
            run@ == EraseRunView::start(old(self)@, Seq::empty(), Stage::GenericErase),
    {
        EraseRun::start(self.probe.duplicate(), String::new(), Stage::GenericErase)
    }

    /// A run that is over before it began: the generic eraser takes the
    /// flash to be programmable as it is. The eraser is left as it was.
    fn unlock_flash(&mut self) -> (run: EraseRun)
        ensures
            *final(self) == *old(self),
            run@ == EraseRunView::done(old(self)@, Seq::empty(), Stage::UnlockOnly),
    {
        EraseRun::done(self.probe.duplicate(), String::new(), Stage::UnlockOnly)
    }
}

/// The run of the generic erase on the probe with these ids and this
/// serial number. It is handed out for every probe.
pub fn erase_generic(vid: u16, pid: u16, sn: Option<String>) -> (made: Result<EraseRun, CallError>)
    ensures
        made matches Ok(run) && run@ == EraseRunView::start(
            ProbeSelector { vendor_id: vid, product_id: pid, serial_number: sn },
            Seq::empty(),
            Stage::GenericErase,
        ),
{
    match GenericEraser::new(ProbeSelector { vendor_id: vid, product_id: pid, serial_number: sn }) {
        Ok(eraser) => {
            let mut eraser = eraser;
            Ok(eraser.mass_erase())
        },
        Err(err) => Err(CallError::from(err)),
    }
}

} // verus!
