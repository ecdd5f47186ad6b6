//! Identity of an STM32L0: the 96-bit unique id and the flash size, both at
//! fixed addresses in the system memory of the halted core.

use crate::common::plunger_error::{CallError, PlungerError, PlungerErrorView, Status};
use crate::common::probe_info::{ProbeInfo, ProbeSelector};
use crate::eraser::stm32l0_eraser::{
    is_stm32l0, names_stm32l0, not_stm32l0, not_stm32l0_text, HALT_TIMEOUT_MS,
};
use crate::identifier::base_identifier::BaseIdentifier;
use crate::identifier::identify_run::{Goal, IdentifyRun, IdentifyRunView};
use crate::probe::link::ProbeRequest;
use vstd::prelude::*;

verus! {

/// Address of the low word of the unique id.
pub const STM32L0_UID_LSB: u32 = 0x1ff8_0050;

/// Address of the middle word of the unique id.
pub const STM32L0_UID_MID: u32 = 0x1ff8_0054;

/// Address of the high word of the unique id.
pub const STM32L0_UID_MSB: u32 = 0x1ff8_0058;

/// Address of the flash size: two bytes, low byte first, in kilobytes.
pub const STM32L0_FL_SIZE: u32 = 0x1ff8_007c;

/// How many bytes each word of the unique id has.
pub const UID_WORD_BYTES: usize = 4;

/// How many bytes the flash size has.
pub const FL_SIZE_BYTES: usize = 2;

/// How many requests the reading of the unique id makes at most.
pub const UNIQUE_ID_STEPS: u8 = 9;

/// How many requests the reading of the flash size makes at most.
pub const FLASH_SIZE_STEPS: u8 = 7;

/// The size in bytes that the two bytes at the size address stand for:
/// a count of kilobytes, low byte first.
pub open spec fn spec_flash_size(bytes: Seq<u8>) -> usize {
    ((bytes[1] as int * 256 + bytes[0] as int) * 1024) as usize
}

/// The size in bytes of a flash whose size reads `low`, `high`.
pub fn flash_size_from(low: u8, high: u8) -> (size: usize)
    ensures
        size == (high as int * 256 + low as int) * 1024,
        size == spec_flash_size(seq![low, high]),
{
    let kilobytes: usize = (high as usize) * 256 + (low as usize);
    kilobytes * 1024
}

/// Identifies an STM32L0.
#[derive(Debug, Clone, PartialEq, Eq)]
pub struct STM32L0Identifier {
    probe: ProbeSelector,
    target_name: String,
}

/// An `STM32L0Identifier` with the target's name as a sequence of
/// characters.
pub struct STM32L0IdentifierView {
    pub probe: ProbeSelector,
    pub target_name: Seq<char>,
}

impl View for STM32L0Identifier {
    type V = STM32L0IdentifierView;

    closed spec fn view(&self) -> STM32L0IdentifierView {
        STM32L0IdentifierView { probe: self.probe, target_name: self.target_name@ }
    }
}

impl STM32L0Identifier {
    /// The request at `step` of the session that every reading opens:
    /// open the probe, detach, attach, take the core, ask whether it is
    /// halted, halt it.
    pub open spec fn spec_session_request(step: nat) -> ProbeRequest {
        if step == 0 {
            ProbeRequest::Open
        } else if step == 1 {
            ProbeRequest::Detach
        } else if step == 2 {
            ProbeRequest::Attach
        } else if step == 3 {
            ProbeRequest::Core { index: 0 }
        } else if step == 4 {
            ProbeRequest::CoreHalted
        } else {
            ProbeRequest::Halt { timeout_ms: HALT_TIMEOUT_MS }
        }
    }

    /// The request at `step` of reading the unique id: the session, then
    /// the low, the middle and the high word.
    pub open spec fn spec_unique_id_request(step: nat) -> ProbeRequest {
        if step < 6 {
            Self::spec_session_request(step)
        } else if step == 6 {
            ProbeRequest::Read8 { address: STM32L0_UID_LSB, len: UID_WORD_BYTES }
        } else if step == 7 {
            ProbeRequest::Read8 { address: STM32L0_UID_MID, len: UID_WORD_BYTES }
        } else {
            ProbeRequest::Read8 { address: STM32L0_UID_MSB, len: UID_WORD_BYTES }
        }
    }

    /// The request at `step` of reading the flash size: the session, then
    /// the two bytes of the size.
    pub open spec fn spec_flash_size_request(step: nat) -> ProbeRequest {
        if step < 6 {
            Self::spec_session_request(step)
        } else {
            ProbeRequest::Read8 { address: STM32L0_FL_SIZE, len: FL_SIZE_BYTES }
        }
    }

    /// The identifier for the target `target_name` on the probe `probe`.
    /// A name outside the family is refused.
    pub fn new(probe: &ProbeInfo, target_name: String) -> (made: Result<
        STM32L0Identifier,
        PlungerError,
    >)
        ensures
            match made {
                Ok(identifier) => is_stm32l0(target_name@) && identifier@ == (STM32L0IdentifierView {
                    probe: ProbeSelector {
                        vendor_id: probe.vid,
                        product_id: probe.pid,
                        serial_number: probe.serial_num,
                    },
                    target_name: target_name@,
                }),
                Err(err) => !is_stm32l0(target_name@) && err@ == PlungerErrorView::InvalidTarget(
                    not_stm32l0_text(target_name@),
                ),
            },
    {
        if !names_stm32l0(target_name.as_str()) {
            return Err(not_stm32l0(target_name.as_str()));
        } else {
            Ok(STM32L0Identifier { probe: ProbeSelector::from(probe), target_name })
        }
    }

    /// The selector of the probe that the identifier works through.
    pub fn probe(&self) -> (probe: &ProbeSelector)
        ensures
            *probe == self@.probe,
    {
        &self.probe
    }

    /// The name of the target.
    pub fn target_name(&self) -> (name: &String)
        ensures
            name@ == self@.target_name,
    {
        &self.target_name
    }

    /// The request at `step` of the session that every reading opens.
    fn session_request(step: u8) -> (request: ProbeRequest)
        ensures
            request == Self::spec_session_request(step as nat),
    {
        match step {
            0 => ProbeRequest::Open,
            1 => ProbeRequest::Detach,
            2 => ProbeRequest::Attach,
            3 => ProbeRequest::Core { index: 0 },
            4 => ProbeRequest::CoreHalted,
            _ => ProbeRequest::Halt { timeout_ms: HALT_TIMEOUT_MS },
        }
    }

    /// The request at `step` of reading the unique id.
    pub fn unique_id_request(step: u8) -> (request: ProbeRequest)
        ensures
            request == Self::spec_unique_id_request(step as nat),
    {
        if step < 6 {
            Self::session_request(step)
        } else if step == 6 {
            ProbeRequest::Read8 { address: STM32L0_UID_LSB, len: UID_WORD_BYTES }
        } else if step == 7 {
            ProbeRequest::Read8 { address: STM32L0_UID_MID, len: UID_WORD_BYTES }
        } else {
            ProbeRequest::Read8 { address: STM32L0_UID_MSB, len: UID_WORD_BYTES }
        }
    }

    /// The request at `step` of reading the flash size.
    pub fn flash_size_request(step: u8) -> (request: ProbeRequest)
        ensures
            request == Self::spec_flash_size_request(step as nat),
    {
        if step < 6 {
            Self::session_request(step)
        } else {
            ProbeRequest::Read8 { address: STM32L0_FL_SIZE, len: FL_SIZE_BYTES }
        }
    }

    /// A new run with the goal `goal` on the identifier's probe and
    /// target.
    fn run(&self, goal: Goal) -> (run: IdentifyRun)
        ensures
            run@ == IdentifyRunView::start(self@.probe, self@.target_name, goal),
    {
        IdentifyRun::start(self.probe.duplicate(), self.target_name.clone(), goal)
    }
}

impl BaseIdentifier for STM32L0Identifier {
    /// The run that reads the unique id of the identifier's target.
    fn get_uid(&self) -> (run: IdentifyRun)
        ensures
            run@ == IdentifyRunView::start(self@.probe, self@.target_name, Goal::UniqueId),
    {
        self.run(Goal::UniqueId)
    }

    /// The run that reads the flash size of the identifier's target.
    fn get_flash_size(&self) -> (run: IdentifyRun)
        ensures
            run@ == IdentifyRunView::start(self@.probe, self@.target_name, Goal::FlashSize),
    {
        self.run(Goal::FlashSize)
    }
}

/// The run that reads the unique id and then the flash size of the target
/// `target_name`, through the probe with these ids and this serial
/// number. A name outside the family is reported as an invalid argument.
pub fn identify_stm32l0(target_name: String, vid: u16, pid: u16, sn: Option<String>) -> (made:
    Result<IdentifyRun, CallError>)
    ensures
        match made {
            Ok(run) => is_stm32l0(target_name@) && run@ == IdentifyRunView::start(
                ProbeSelector { vendor_id: vid, product_id: pid, serial_number: sn },
                target_name@,
                Goal::Identity,
            ),
            Err(err) => !is_stm32l0(target_name@) && err.status == Status::InvalidArg && err.reason@
                == "Invalid target: "@ + not_stm32l0_text(target_name@),
        },
{
    let probe = ProbeInfo { serial_num: sn, vid, pid, probe_type: None, short_id: None };
    match STM32L0Identifier::new(&probe, target_name) {
        Ok(identifier) => Ok(identifier.run(Goal::Identity)),
        Err(err) => Err(CallError::from(err)),
    }
}

} // verus!
