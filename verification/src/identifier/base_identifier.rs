//! What every identifier offers, and what it reports.

use crate::identifier::identify_run::{Goal, IdentifyRun};
use crate::probe::link::ProbeRequest;
use vstd::prelude::*;

verus! {

/// What was read of a target's identity. Each part is there only if it
/// was asked for.
#[derive(Debug, Clone, PartialEq, Eq)]
pub struct TargetIdentity {
    /// The unique id, as the bytes that were read.
    pub unique_id: Option<Vec<u8>>,
    /// The size of the flash in bytes.
    pub flash_size: Option<usize>,
}

/// A `TargetIdentity` with its bytes as a sequence.
pub struct TargetIdentityView {
    pub unique_id: Option<Seq<u8>>,
    pub flash_size: Option<usize>,
}

impl View for TargetIdentity {
    type V = TargetIdentityView;

    open spec fn view(&self) -> TargetIdentityView {
        TargetIdentityView {
            unique_id: match self.unique_id {
                Some(bytes) => Some(bytes@),
                None => None,
            },
            flash_size: self.flash_size,
        }
    }
}

/// An identifier plans two readings. Each is handed out as a run, which
/// the host of the probe carries out request by request.
pub trait BaseIdentifier {
    /// A new run that reads the unique id and nothing else. It stands at
    /// its first request, which opens the probe.
    fn get_uid(&self) -> (run: IdentifyRun)
        ensures
            run@.goal == Goal::UniqueId,
            run@.step == 0,
            run@.request() == Some(ProbeRequest::Open),
    ;

    /// A new run that reads the size of the flash and nothing else. It
    /// stands at its first request, which opens the probe.
    fn get_flash_size(&self) -> (run: IdentifyRun)
        ensures
            run@.goal == Goal::FlashSize,
            run@.step == 0,
            run@.request() == Some(ProbeRequest::Open),
    ;
}

} // verus!
