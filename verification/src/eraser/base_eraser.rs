//! What every eraser offers.

use crate::common::plunger_error::PlungerErrorView;
use crate::eraser::erase_run::EraseRun;
use crate::probe::link::ProbeRequest;
use vstd::prelude::*;

verus! {

/// An eraser plans two operations. Each is handed out as a run, which the
/// host of the probe carries out request by request.
pub trait BaseEraser {
    /// A new run that erases the whole chip. It stands at the first
    /// request of its stage, which opens the probe.
    fn mass_erase(&mut self) -> (run: EraseRun)
        ensures
            run@.well_formed(),
            run@.step == 0,
            run@.request() == Some(ProbeRequest::Open),
    ;

    /// A new run that makes the flash programmable. Either there is
    /// nothing to do and the run is over with success, or the run stands
    /// at the first request of its stage, which opens the probe.
    fn unlock_flash(&mut self) -> (run: EraseRun)
        ensures
            run@.well_formed(),
            run@.step == 0,
            run@.finished() ==> run@.outcome == Some(Ok::<(), PlungerErrorView>(())),
            !run@.finished() ==> run@.request() == Some(ProbeRequest::Open),
    ;
}

} // verus!
