//! Erase of an STM32L0 under read-out protection.
//!
//! The flash controller erases main flash by itself when the protection
//! level goes from 1 back to 0. The eraser therefore unlocks the controller,
//! reads the level from the option register, raises a device at level 0 to
//! level 1 first, and then writes level 0 into the option bytes. A device
//! at level 2 cannot be regressed and is refused.

use crate::common::plunger_error::{CallError, PlungerError, PlungerErrorView, Status};
use crate::common::probe_info::ProbeSelector;
use crate::eraser::base_eraser::BaseEraser;
use crate::eraser::erase_run::{EraseRun, EraseRunView, Stage};
use crate::probe::link::ProbeRequest;
use crate::text::{contains, contains_text};
use vstd::prelude::*;
use vstd::string::*;

verus! {

/// Program and erase control register.
pub const FLASH_PECR: u32 = 0x4002_2004;

/// Key register that unlocks the control register and the data memory.
pub const FLASH_PKEYR: u32 = 0x4002_200C;

/// Key register that unlocks program memory.
pub const FLASH_PRGKEYR: u32 = 0x4002_2010;

/// Key register that unlocks the option bytes.
pub const FLASH_OPTKEYR: u32 = 0x4002_2014;

/// Status register; bit 0 is set while the controller is busy.
pub const FLASH_SR: u32 = 0x4002_2018;

/// Option register; its low byte holds the protection level.
pub const FLASH_OPTR: u32 = 0x4002_201C;

/// Address of the first option-byte word.
pub const FLASH_OPT_BASE: u32 = 0x1ff8_0000;

/// First key of the data unlock.
pub const PEKEY1: u32 = 0x89ab_cdef;

/// Second key of the data unlock.
pub const PEKEY2: u32 = 0x0203_0405;

/// First key of the program unlock.
pub const PRGKEY1: u32 = 0x8c9d_aebf;

/// Second key of the program unlock.
pub const PRGKEY2: u32 = 0x1314_1516;

/// First key of the option-byte unlock.
pub const OPTKEY1: u32 = 0xfbea_d9c8;

/// Second key of the option-byte unlock.
pub const OPTKEY2: u32 = 0x2425_2627;

/// Control-register value that enables erasing.
pub const PECR_ERASE: u32 = 0x200;

/// Control-register bit that applies the option bytes and resets the device.
pub const PECR_OBL_LAUNCH: u32 = 0x4_0000;

/// Low byte of the option register at protection level 0.
pub const RDP_LEVEL_0: u32 = 0xAA;

/// Low byte of the option register at protection level 2.
pub const RDP_LEVEL_2: u32 = 0xCC;

/// How long the core is given to halt, in milliseconds.
pub const HALT_TIMEOUT_MS: u64 = 1000;

/// How long the device is given after a commit unless the eraser is told
/// otherwise, in microseconds.
pub const COMMIT_SETTLE_MICROS: u64 = 200;

/// How many requests an unlock makes, repeated status reads counted once.
pub const UNLOCK_STEPS: u8 = 13;

/// How many requests the reading of the option register makes.
pub const OPTION_BYTE_STEPS: u8 = 6;

/// How many requests the raising of the protection level makes.
pub const RAISE_STEPS: u8 = 11;

/// How many requests the regression of the protection level makes.
pub const REGRESS_STEPS: u8 = 9;

/// The name belongs to the family: it holds the family's tag in capitals or
/// in small letters.
pub open spec fn is_stm32l0(target_name: Seq<char>) -> bool {
    contains_text(target_name, "STM32L0"@) || contains_text(target_name, "stm32l0"@)
}

/// The text of the error for a name outside the family.
pub open spec fn not_stm32l0_text(target_name: Seq<char>) -> Seq<char> {
    "Target "@ + target_name + " is not STM32L0!"@
}

/// The option word that sets protection level 0 and keeps the other option
/// bits of `option_word`: the low half-word with the level byte replaced,
/// under its bitwise complement in the high half-word.
pub open spec fn spec_regression_word(option_word: u32) -> u32 {
    let low: u32 = (option_word & 0xffff) & !0xffu32 | RDP_LEVEL_0;
    (!low) << 16 | low
}

/// Whether `name` belongs to the family.
pub fn names_stm32l0(name: &str) -> (belongs: bool)
    ensures
        belongs == is_stm32l0(name@),
{
    contains(name, "STM32L0") || contains(name, "stm32l0")
}

/// The error for a name outside the family.
pub fn not_stm32l0(name: &str) -> (err: PlungerError)
    ensures
        err@ == PlungerErrorView::InvalidTarget(not_stm32l0_text(name@)),
{
    PlungerError::InvalidTarget(
        String::from_str("Target ").concat(name).concat(" is not STM32L0!"),
    )
}

/// Erases an STM32L0 by regressing its read-out protection.
#[derive(Debug, Clone, PartialEq, Eq)]
pub struct STM32L0Eraser {
    probe: ProbeSelector,
    target_name: String,
    settle_micros: u64,
}

/// An `STM32L0Eraser` with the target's name as a sequence of characters.
pub struct STM32L0EraserView {
    pub probe: ProbeSelector,
    pub target_name: Seq<char>,
    /// How long the device is given after a commit, in microseconds.
    pub settle_micros: u64,
}

impl View for STM32L0Eraser {
    type V = STM32L0EraserView;

    closed spec fn view(&self) -> STM32L0EraserView {
        STM32L0EraserView {
            probe: self.probe,
            target_name: self.target_name@,
            settle_micros: self.settle_micros,
        }
    }
}

impl STM32L0Eraser {
    /// The request at `step` of an unlock: open the probe, attach under
    /// reset, take and halt the core, then write the two keys of each of
    /// the three key registers and read the status after each pair.
    pub open spec fn spec_unlock_request(step: nat) -> ProbeRequest {
        if step == 0 {
            ProbeRequest::Open
        } else if step == 1 {
            ProbeRequest::AttachUnderReset
        } else if step == 2 {
            ProbeRequest::Core { index: 0 }
        } else if step == 3 {
            ProbeRequest::Halt { timeout_ms: HALT_TIMEOUT_MS }
        } else if step == 4 {
            ProbeRequest::WriteWord32 { address: FLASH_PKEYR, value: PEKEY1 }
        } else if step == 5 {
            ProbeRequest::WriteWord32 { address: FLASH_PKEYR, value: PEKEY2 }
        } else if step == 6 {
            ProbeRequest::ReadWord32 { address: FLASH_SR }
        } else if step == 7 {
            ProbeRequest::WriteWord32 { address: FLASH_PRGKEYR, value: PRGKEY1 }
        } else if step == 8 {
            ProbeRequest::WriteWord32 { address: FLASH_PRGKEYR, value: PRGKEY2 }
        } else if step == 9 {
            ProbeRequest::ReadWord32 { address: FLASH_SR }
        } else if step == 10 {
            ProbeRequest::WriteWord32 { address: FLASH_OPTKEYR, value: OPTKEY1 }
        } else if step == 11 {
            ProbeRequest::WriteWord32 { address: FLASH_OPTKEYR, value: OPTKEY2 }
        } else {
            ProbeRequest::ReadWord32 { address: FLASH_SR }
        }
    }

    /// The request at `step` of reading the option register: a fresh
    /// session on the running target, the core halted, one read.
    pub open spec fn spec_option_byte_request(step: nat) -> ProbeRequest {
        if step == 0 {
            ProbeRequest::Open
        } else if step == 1 {
            ProbeRequest::Detach
        } else if step == 2 {
            ProbeRequest::Attach
        } else if step == 3 {
            ProbeRequest::Core { index: 0 }
        } else if step == 4 {
            ProbeRequest::Halt { timeout_ms: HALT_TIMEOUT_MS }
        } else {
            ProbeRequest::ReadWord32 { address: FLASH_OPTR }
        }
    }

    /// The request at `step` of raising protection from level 0 to level 1:
    /// enable erasing, erase the first option-byte word, commit, and give
    /// the device `settle_micros` to reset.
    pub open spec fn spec_raise_request(step: nat, settle_micros: u64) -> ProbeRequest {
        if step == 0 {
            ProbeRequest::Open
        } else if step == 1 {
            ProbeRequest::Detach
        } else if step == 2 {
            ProbeRequest::Attach
        } else if step == 3 {
            ProbeRequest::Core { index: 0 }
        } else if step == 4 {
            ProbeRequest::Halt { timeout_ms: HALT_TIMEOUT_MS }
        } else if step == 5 {
            ProbeRequest::WriteWord32 { address: FLASH_PECR, value: PECR_ERASE }
        } else if step == 6 {
            ProbeRequest::ReadWord32 { address: FLASH_SR }
        } else if step == 7 {
            ProbeRequest::WriteWord32 { address: FLASH_OPT_BASE, value: 0 }
        } else if step == 8 {
            ProbeRequest::ReadWord32 { address: FLASH_SR }
        } else if step == 9 {
            ProbeRequest::WriteWord32 { address: FLASH_PECR, value: PECR_OBL_LAUNCH }
        } else {
            ProbeRequest::Sleep { micros: settle_micros }
        }
    }

    /// The request at `step` of regressing protection to level 0, for a
    /// device whose option register read `option_word`: write the
    /// regression word to the first option-byte word, commit, and give
    /// the device `settle_micros` to reset and erase itself.
    pub open spec fn spec_regress_request(
        step: nat,
        option_word: u32,
        settle_micros: u64,
    ) -> ProbeRequest {
        if step == 0 {
            ProbeRequest::Open
        } else if step == 1 {
            ProbeRequest::Detach
        } else if step == 2 {
            ProbeRequest::Attach
        } else if step == 3 {
            ProbeRequest::Core { index: 0 }
        } else if step == 4 {
            ProbeRequest::Halt { timeout_ms: HALT_TIMEOUT_MS }
        } else if step == 5 {
            ProbeRequest::WriteWord32 {
                address: FLASH_OPT_BASE,
                value: spec_regression_word(option_word),
            }
        } else if step == 6 {
            ProbeRequest::ReadWord32 { address: FLASH_SR }
        } else if step == 7 {
            ProbeRequest::WriteWord32 { address: FLASH_PECR, value: PECR_OBL_LAUNCH }
        } else {
            ProbeRequest::Sleep { micros: settle_micros }
        }
    }

    /// The eraser for the target `target_name` on the probe that `probe`
    /// selects, with the usual delay after a commit. A name outside the
    /// family is refused.
    pub fn new(target_name: String, probe: ProbeSelector) -> (made: Result<
        STM32L0Eraser,
        PlungerError,
    >)
        ensures
            match made {
                Ok(eraser) => is_stm32l0(target_name@) && eraser@ == (STM32L0EraserView {
                    probe,
                    target_name: target_name@,
                    settle_micros: COMMIT_SETTLE_MICROS,
                }),
                Err(err) => !is_stm32l0(target_name@) && err@ == PlungerErrorView::InvalidTarget(
                    not_stm32l0_text(target_name@),
                ),
            },
    {
        if !names_stm32l0(target_name.as_str()) {
            return Err(not_stm32l0(target_name.as_str()));
        }
        Ok(STM32L0Eraser { probe, target_name, settle_micros: COMMIT_SETTLE_MICROS })
    }

    /// The same eraser, giving the device `micros` microseconds after
    /// each commit.
    pub fn with_settle_delay(self, micros: u64) -> (eraser: STM32L0Eraser)
        ensures
            eraser@ == (STM32L0EraserView { settle_micros: micros, ..self@ }),
    {
        STM32L0Eraser { probe: self.probe, target_name: self.target_name, settle_micros: micros }
    }

    /// How long the device is given after a commit, in microseconds.
    pub fn settle_delay(&self) -> (micros: u64)
        ensures
            micros == self@.settle_micros,
    {
        self.settle_micros
    }

    /// The selector of the probe that the eraser works through.
    pub fn probe(&self) -> (probe: &ProbeSelector)
        ensures
            *probe == self@.probe,
    {
        &self.probe
    }

    /// The name of the target.
    pub fn target_name(&self) -> (name: &String)
        ensures
            name@ == self@.target_name,
    {
        &self.target_name
    }

    /// Whether the status word `status` says that the flash controller is
    /// still busy, so that the status has to be read again.
    pub fn wait_for_flash(status: u32) -> (busy: bool)
        ensures
            busy == (status & 1 != 0),
    {
        status & 1 != 0
    }

    /// The option word that regresses a device whose option register read
    /// `option_word` to protection level 0. Its low byte is the level-0
    /// marker, its second byte is that of `option_word`, and its high
    /// half-word is the complement of its low half-word.
    pub fn regression_word(option_word: u32) -> (word: u32)
        ensures
            word == spec_regression_word(option_word),
            word & 0xff == RDP_LEVEL_0,
            word & 0xff00 == option_word & 0xff00,
            word >> 16 == !(word & 0xffff) & 0xffff,
    {
        let low: u32 = (option_word & 0xffff) & !0xffu32 | RDP_LEVEL_0;
        let word: u32 = (!low) << 16 | low;
        proof {
            lemma_regression_word(option_word);
        }
        word
    }

    /// The request at `step` of an unlock.
    pub fn unlock_request(step: u8) -> (request: ProbeRequest)
        ensures
            request == Self::spec_unlock_request(step as nat),
    {
        match step {
            0 => ProbeRequest::Open,
            1 => ProbeRequest::AttachUnderReset,
            2 => ProbeRequest::Core { index: 0 },
            3 => ProbeRequest::Halt { timeout_ms: HALT_TIMEOUT_MS },
            4 => ProbeRequest::WriteWord32 { address: FLASH_PKEYR, value: PEKEY1 },
            5 => ProbeRequest::WriteWord32 { address: FLASH_PKEYR, value: PEKEY2 },
            6 => ProbeRequest::ReadWord32 { address: FLASH_SR },
            7 => ProbeRequest::WriteWord32 { address: FLASH_PRGKEYR, value: PRGKEY1 },
            8 => ProbeRequest::WriteWord32 { address: FLASH_PRGKEYR, value: PRGKEY2 },
            9 => ProbeRequest::ReadWord32 { address: FLASH_SR },
            10 => ProbeRequest::WriteWord32 { address: FLASH_OPTKEYR, value: OPTKEY1 },
            11 => ProbeRequest::WriteWord32 { address: FLASH_OPTKEYR, value: OPTKEY2 },
            _ => ProbeRequest::ReadWord32 { address: FLASH_SR },
        }
    }

    /// The request at `step` of reading the option register.
    pub fn get_option_byte(step: u8) -> (request: ProbeRequest)
        ensures
            request == Self::spec_option_byte_request(step as nat),
    {
        match step {
            0 => ProbeRequest::Open,
            1 => ProbeRequest::Detach,
            2 => ProbeRequest::Attach,
            3 => ProbeRequest::Core { index: 0 },
            4 => ProbeRequest::Halt { timeout_ms: HALT_TIMEOUT_MS },
            _ => ProbeRequest::ReadWord32 { address: FLASH_OPTR },
        }
    }

    /// The request at `step` of raising protection from level 0 to level 1.
    pub fn set_rdp_0_to_1(step: u8, settle_micros: u64) -> (request: ProbeRequest)
        ensures
            request == Self::spec_raise_request(step as nat, settle_micros),
    {
        match step {
            0 => ProbeRequest::Open,
            1 => ProbeRequest::Detach,
            2 => ProbeRequest::Attach,
            3 => ProbeRequest::Core { index: 0 },
            4 => ProbeRequest::Halt { timeout_ms: HALT_TIMEOUT_MS },
            5 => ProbeRequest::WriteWord32 { address: FLASH_PECR, value: PECR_ERASE },
            6 => ProbeRequest::ReadWord32 { address: FLASH_SR },
            7 => ProbeRequest::WriteWord32 { address: FLASH_OPT_BASE, value: 0 },
            8 => ProbeRequest::ReadWord32 { address: FLASH_SR },
            9 => ProbeRequest::WriteWord32 { address: FLASH_PECR, value: PECR_OBL_LAUNCH },
            _ => ProbeRequest::Sleep { micros: settle_micros },
        }
    }

    /// The request at `step` of regressing protection to level 0.
    pub fn set_rdp_1_to_0(step: u8, option_word: u32, settle_micros: u64) -> (request:
        ProbeRequest)
        ensures
            request == Self::spec_regress_request(step as nat, option_word, settle_micros),
    {
        match step {
            0 => ProbeRequest::Open,
            1 => ProbeRequest::Detach,
            2 => ProbeRequest::Attach,
            3 => ProbeRequest::Core { index: 0 },
            4 => ProbeRequest::Halt { timeout_ms: HALT_TIMEOUT_MS },
            5 => ProbeRequest::WriteWord32 {
                address: FLASH_OPT_BASE,
                value: Self::regression_word(option_word),
            },
            6 => ProbeRequest::ReadWord32 { address: FLASH_SR },
            7 => ProbeRequest::WriteWord32 { address: FLASH_PECR, value: PECR_OBL_LAUNCH },
            _ => ProbeRequest::Sleep { micros: settle_micros },
        }
    }
}

impl BaseEraser for STM32L0Eraser {
    /// The run of the mass erase of the eraser's target: it starts with
    /// the first request of the opening unlock. The eraser is left as it
    /// was.
    fn mass_erase(&mut self) -> (run: EraseRun)
        ensures
            *final(self) == *old(self),
            run@ == EraseRunView::start(
                old(self)@.probe,
                old(self)@.target_name,
                Stage::Unlock,
            ).with_settle_delay(old(self)@.settle_micros),
    {
        EraseRun::start(
            self.probe.duplicate(),
            self.target_name.clone(),
            Stage::Unlock,
        ).with_settle_delay(self.settle_micros)
    }

    /// The run of an unlock that nothing follows. The eraser is left as
    /// it was.
    fn unlock_flash(&mut self) -> (run: EraseRun)
        ensures
            *final(self) == *old(self),
            run@ == EraseRunView::start(
                old(self)@.probe,
                old(self)@.target_name,
                Stage::UnlockOnly,
            ).with_settle_delay(old(self)@.settle_micros),
    {
        EraseRun::start(
            self.probe.duplicate(),
            self.target_name.clone(),
            Stage::UnlockOnly,
        ).with_settle_delay(self.settle_micros)
    }
}

/// The run of the mass erase of the target `target_name` on the probe with
/// these ids and this serial number. A name outside the family is
/// reported as an invalid argument.
pub fn erase_stm32l0(target_name: String, vid: u16, pid: u16, sn: Option<String>) -> (made: Result<
    EraseRun,
    CallError,
>)
    ensures
        match made {
            Ok(run) => is_stm32l0(target_name@) && run@ == EraseRunView::start(
                ProbeSelector { vendor_id: vid, product_id: pid, serial_number: sn },
                target_name@,
                Stage::Unlock,
            ),
            Err(err) => !is_stm32l0(target_name@) && err.status == Status::InvalidArg && err.reason@
                == "Invalid target: "@ + not_stm32l0_text(target_name@),
        },
{
    match STM32L0Eraser::new(
        target_name,
        ProbeSelector { vendor_id: vid, product_id: pid, serial_number: sn },
    ) {
        Ok(eraser) => {
            let mut eraser = eraser;
            Ok(eraser.mass_erase())
        },
        Err(err) => Err(CallError::from(err)),
    }
}

/// The regression word carries the level-0 marker in its low byte, keeps
/// the second byte of the word that was read, and holds in its high
/// half-word the complement of its low half-word.
pub proof fn lemma_regression_word(option_word: u32)
    ensures
        spec_regression_word(option_word) & 0xff == RDP_LEVEL_0,
        spec_regression_word(option_word) & 0xff00 == option_word & 0xff00,
        spec_regression_word(option_word) >> 16 == !(spec_regression_word(option_word) & 0xffff)
            & 0xffff,
        spec_regression_word(option_word) != 0,
{
    let low: u32 = (option_word & 0xffff) & !0xffu32 | 0xAAu32;
    let word: u32 = (!low) << 16 | low;
    assert(word & 0xff == 0xAA && word & 0xff00 == option_word & 0xff00 && word >> 16 == !(word
        & 0xffff) & 0xffff && word != 0) by (bit_vector)
        requires
            low == (option_word & 0xffff) & !0xffu32 | 0xAAu32,
            word == (!low) << 16 | low,
    ;
}

} // verus!
