//! What can go wrong in an erase, as the family's eraser words it.

use vstd::prelude::*;
use vstd::string::*;

verus! {

/// Why an erase failed.
#[derive(Debug, Clone, PartialEq, Eq)]
pub enum EraserError {
    /// The target is not of the family.
    InvalidTarget,
    /// The device is at read-out protection level 2.
    InvalidProtectionLevel,
    /// A session, core or register operation failed; the text is the
    /// probe layer's.
    SessionError(String),
    /// The probe could not be opened or spoken to; the text is the probe
    /// layer's.
    DebugProbeError(String),
}

/// The text for a target outside the family.
pub const NOT_THE_FAMILY: &'static str = "Invalid target - probably not a STM32L0?";

/// The text for a device at protection level 2.
pub const LEVEL_TWO: &'static str = "Invalid Readout Protection Level - RDP has been set to 2";

impl EraserError {
    /// The line of text that describes the error: a fixed line for the
    /// two errors of the eraser's own, the probe layer's text for the
    /// others.
    pub open spec fn spec_message(self) -> Seq<char> {
        match self {
            EraserError::InvalidTarget => NOT_THE_FAMILY@,
            EraserError::InvalidProtectionLevel => LEVEL_TWO@,
            EraserError::SessionError(text) => text@,
            EraserError::DebugProbeError(text) => text@,
        }
    }

    /// The line of text that describes the error.
    pub fn message(&self) -> (text: String)
        ensures
            text@ == self.spec_message(),
    {
        match self {
            EraserError::InvalidTarget => String::from_str(NOT_THE_FAMILY),
            EraserError::InvalidProtectionLevel => String::from_str(LEVEL_TWO),
            EraserError::SessionError(text) => text.clone(),
            EraserError::DebugProbeError(text) => text.clone(),
        }
    }
}

} // verus!
