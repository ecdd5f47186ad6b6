//! A run of an eraser: where an erase or an unlock stands, which request it
//! waits on, and how it goes on from each reply.
//!
//! The host asks the run for its pending request, carries it out on the
//! probe and hands the reply to `advance`, until no request is pending.
//! The run is then over and holds its outcome. Nothing is retried: a
//! failure ends the run, and a new run starts from the beginning.
//!
//! A wait for the flash controller has no limit of its own: the run asks
//! for the status for as long as the host reports it busy. The run never
//! blocks, so a host that wants a limit stops driving the run.

use crate::common::plunger_error::{PlungerError, PlungerErrorView};
use crate::common::probe_info::ProbeSelector;
use crate::eraser::generic_eraser::{GenericEraser, GENERIC_ERASE_STEPS};
use crate::eraser::stm32l0_eraser::{
    STM32L0Eraser, COMMIT_SETTLE_MICROS, FLASH_SR, OPTION_BYTE_STEPS, RAISE_STEPS, RDP_LEVEL_0,
    RDP_LEVEL_2, REGRESS_STEPS, UNLOCK_STEPS,
};
use crate::probe::link::{ProbeReply, ProbeReplyView, ProbeRequest, UNEXPECTED_REPLY};
use vstd::prelude::*;
use vstd::string::*;

verus! {

/// The part of an erase that a run is in. Each stage is one session on the
/// probe, opened by its first request.
#[derive(Debug, Clone, Copy, PartialEq, Eq, Structural)]
pub enum Stage {
    /// The probe layer's own erase of a detected target.
    GenericErase,
    /// An unlock of the flash controller that nothing follows.
    UnlockOnly,
    /// The unlock that opens a mass erase.
    Unlock,
    /// Reading the protection level from the option register.
    ReadOptions,
    /// Raising a device at level 0 to level 1.
    RaiseProtection,
    /// The unlock after the reset that raising the level causes.
    Relock,
    /// Regressing the device to level 0, which erases it.
    Regress,
}

impl Stage {
    /// How many requests the stage makes, repeated status reads counted
    /// once.
    pub open spec fn spec_len(self) -> nat {
        match self {
            Stage::GenericErase => GENERIC_ERASE_STEPS as nat,
            Stage::UnlockOnly | Stage::Unlock | Stage::Relock => UNLOCK_STEPS as nat,
            Stage::ReadOptions => OPTION_BYTE_STEPS as nat,
            Stage::RaiseProtection => RAISE_STEPS as nat,
            Stage::Regress => REGRESS_STEPS as nat,
        }
    }

    /// The request that the stage makes at `step`, for a device whose
    /// option register read `option_word` and which is given
    /// `settle_micros` after a commit.
    pub open spec fn spec_request(
        self,
        step: nat,
        option_word: u32,
        settle_micros: u64,
    ) -> ProbeRequest {
        match self {
            Stage::GenericErase => GenericEraser::spec_erase_request(step),
            Stage::UnlockOnly | Stage::Unlock | Stage::Relock => STM32L0Eraser::spec_unlock_request(
                step,
            ),
            Stage::ReadOptions => STM32L0Eraser::spec_option_byte_request(step),
            Stage::RaiseProtection => STM32L0Eraser::spec_raise_request(step, settle_micros),
            Stage::Regress => STM32L0Eraser::spec_regress_request(
                step,
                option_word,
                settle_micros,
            ),
        }
    }

    /// How many requests the stage makes.
    pub fn len(self) -> (len: u8)
        ensures
            len == self.spec_len(),
    {
        match self {
            Stage::GenericErase => GENERIC_ERASE_STEPS,
            Stage::UnlockOnly | Stage::Unlock | Stage::Relock => UNLOCK_STEPS,
            Stage::ReadOptions => OPTION_BYTE_STEPS,
            Stage::RaiseProtection => RAISE_STEPS,
            Stage::Regress => REGRESS_STEPS,
        }
    }

    /// The request that the stage makes at `step`.
    pub fn request(self, step: u8, option_word: u32, settle_micros: u64) -> (request:
        ProbeRequest)
        ensures
            request == self.spec_request(step as nat, option_word, settle_micros),
    {
        match self {
            Stage::GenericErase => GenericEraser::erase_request(step),
            Stage::UnlockOnly | Stage::Unlock | Stage::Relock => STM32L0Eraser::unlock_request(
                step,
            ),
            Stage::ReadOptions => STM32L0Eraser::get_option_byte(step),
            Stage::RaiseProtection => STM32L0Eraser::set_rdp_0_to_1(step, settle_micros),
            Stage::Regress => STM32L0Eraser::set_rdp_1_to_0(step, option_word, settle_micros),
        }
    }
}

/// A run of an eraser.
#[derive(Debug, Clone, PartialEq, Eq)]
pub struct EraseRun {
    probe: ProbeSelector,
    target_name: String,
    stage: Stage,
    step: u8,
    option_word: u32,
    settle_micros: u64,
    outcome: Option<Result<(), PlungerError>>,
}

/// The state of a run.
pub struct EraseRunView {
    /// The probe that the host is to work through.
    pub probe: ProbeSelector,
    /// The target that the host is to attach to; empty for a detected one.
    pub target_name: Seq<char>,
    /// The stage that the run is in, or ended in.
    pub stage: Stage,
    /// The place of the pending request in the stage.
    pub step: nat,
    /// What the option register read; zero before it was read.
    pub option_word: u32,
    /// How long the device is given after a commit, in microseconds.
    pub settle_micros: u64,
    /// How the run ended, once it has.
    pub outcome: Option<Result<(), PlungerErrorView>>,
}

/// The outcome of a run as the run holds it.
pub open spec fn outcome_view(outcome: Option<Result<(), PlungerError>>) -> Option<
    Result<(), PlungerErrorView>,
> {
    match outcome {
        Some(Ok(())) => Some(Ok(())),
        Some(Err(err)) => Some(Err(err@)),
        None => None,
    }
}

impl View for EraseRun {
    type V = EraseRunView;

    closed spec fn view(&self) -> EraseRunView {
        EraseRunView {
            probe: self.probe,
            target_name: self.target_name@,
            stage: self.stage,
            step: self.step as nat,
            option_word: self.option_word,
            settle_micros: self.settle_micros,
            outcome: outcome_view(self.outcome),
        }
    }
}

impl EraseRunView {
    /// A run at the first request of `stage`, with the usual delay after
    /// a commit.
    pub open spec fn start(probe: ProbeSelector, target_name: Seq<char>, stage: Stage) -> Self {
        EraseRunView {
            probe,
            target_name,
            stage,
            step: 0,
            option_word: 0,
            settle_micros: COMMIT_SETTLE_MICROS,
            outcome: None,
        }
    }

    /// A run that has nothing to do and has succeeded.
    pub open spec fn done(probe: ProbeSelector, target_name: Seq<char>, stage: Stage) -> Self {
        EraseRunView { outcome: Some(Ok(())), ..Self::start(probe, target_name, stage) }
    }

    /// The same run, giving the device `micros` microseconds after each
    /// commit.
    pub open spec fn with_settle_delay(self, micros: u64) -> Self {
        EraseRunView { settle_micros: micros, ..self }
    }

    /// The run stands at a request of its stage.
    pub open spec fn well_formed(self) -> bool {
        self.step < self.stage.spec_len()
    }

    /// The run is over.
    pub open spec fn finished(self) -> bool {
        self.outcome is Some
    }

    /// The request that the run makes where it stands, whether or not it
    /// is over.
    pub open spec fn script_request(self) -> ProbeRequest {
        self.stage.spec_request(self.step, self.option_word, self.settle_micros)
    }

    /// The request that the run waits on; none once it is over.
    pub open spec fn request(self) -> Option<ProbeRequest> {
        if self.finished() {
            None
        } else {
            Some(self.script_request())
        }
    }

    /// The run stands, unfinished, at `step` of `stage`.
    pub open spec fn at(self, stage: Stage, step: nat) -> bool {
        !self.finished() && self.stage == stage && self.step == step
    }

    /// The run ended with `outcome` where it stood.
    pub open spec fn end(self, outcome: Result<(), PlungerErrorView>) -> Self {
        EraseRunView { outcome: Some(outcome), ..self }
    }

    /// The run at the first request of `stage`.
    pub open spec fn enter(self, stage: Stage) -> Self {
        EraseRunView { stage, step: 0, ..self }
    }

    /// `reply` is a status word with the busy bit set, in answer to a read
    /// of the status register.
    pub open spec fn told_busy(self, reply: ProbeReplyView) -> bool {
        &&& self.script_request() == (ProbeRequest::ReadWord32 { address: FLASH_SR })
        &&& reply matches ProbeReplyView::Word(status)
        &&& status & 1 != 0
    }

    /// Where the run goes once the last request of its stage is answered
    /// by `reply`.
    ///
    /// The generic erase, a lone unlock and the regression end the run
    /// with success. The opening unlock leads to the reading of the
    /// option register, whose low byte decides: at level 2 the run ends
    /// refused, at level 0 the level is raised first, and at any other
    /// value the regression follows at once. Raising the level leads
    /// through a second unlock to the regression.
    pub open spec fn after_stage(self, reply: ProbeReplyView) -> Self {
        match self.stage {
            Stage::GenericErase | Stage::UnlockOnly | Stage::Regress => self.end(Ok(())),
            Stage::Unlock => self.enter(Stage::ReadOptions),
            Stage::ReadOptions => match reply {
                ProbeReplyView::Word(word) => if word & 0xff == RDP_LEVEL_2 {
                    self.end(Err(PlungerErrorView::InvalidProtectionLevel))
                } else if word & 0xff == RDP_LEVEL_0 {
                    EraseRunView {
                        stage: Stage::RaiseProtection,
                        step: 0,
                        option_word: word,
                        ..self
                    }
                } else {
                    EraseRunView { stage: Stage::Regress, step: 0, option_word: word, ..self }
                },
                _ => self,
            },
            Stage::RaiseProtection => self.enter(Stage::Relock),
            Stage::Relock => self.enter(Stage::Regress),
        }
    }

    /// The run after `reply` to its pending request.
    ///
    /// A run that is over stays as it is. A failure ends the run with the
    /// error that the host reports, and a reply of the wrong kind ends it
    /// with a state error. A busy status leaves the run where it is, so
    /// that the status is read again. Any other reply moves the run to
    /// the next request of its stage or, after the last, to what follows
    /// the stage.
    pub open spec fn advance(self, reply: ProbeReplyView) -> Self {
        if self.finished() {
            self
        } else {
            match reply {
                ProbeReplyView::Failed(err) => self.end(Err(err)),
                _ => if !reply.answers(self.script_request()) {
                    self.end(Err(PlungerErrorView::StateError(UNEXPECTED_REPLY@)))
                } else if self.told_busy(reply) {
                    self
                } else if self.step + 1 < self.stage.spec_len() {
                    EraseRunView { step: self.step + 1, ..self }
                } else {
                    self.after_stage(reply)
                },
            }
        }
    }

    /// The run after the replies `replies`, in order.
    pub open spec fn run(self, replies: Seq<ProbeReplyView>) -> Self
        decreases replies.len(),
    {
        if replies.len() == 0 {
            self
        } else {
            self.run(replies.drop_last()).advance(replies.last())
        }
    }
}

impl EraseRun {
    /// A run at the first request of `stage`.
    pub(crate) fn start(probe: ProbeSelector, target_name: String, stage: Stage) -> (run:
        EraseRun)
        ensures
            run@ == EraseRunView::start(probe, target_name@, stage),
    {
        EraseRun {
            probe,
            target_name,
            stage,
            step: 0,
            option_word: 0,
            settle_micros: COMMIT_SETTLE_MICROS,
            outcome: None,
        }
    }

    /// A run that has nothing to do and has succeeded.
    pub(crate) fn done(probe: ProbeSelector, target_name: String, stage: Stage) -> (run:
        EraseRun)
        ensures
            run@ == EraseRunView::done(probe, target_name@, stage),
    {
        EraseRun {
            probe,
            target_name,
            stage,
            step: 0,
            option_word: 0,
            settle_micros: COMMIT_SETTLE_MICROS,
            outcome: Some(Ok(())),
        }
    }

    /// The same run, giving the device `micros` microseconds after each
    /// commit.
    pub fn with_settle_delay(self, micros: u64) -> (run: EraseRun)
        ensures
            run@ == self@.with_settle_delay(micros),
    {
        EraseRun {
            probe: self.probe,
            target_name: self.target_name,
            stage: self.stage,
            step: self.step,
            option_word: self.option_word,
            settle_micros: micros,
            outcome: self.outcome,
        }
    }

    /// The probe that the host is to work through.
    pub fn probe(&self) -> (probe: &ProbeSelector)
        ensures
            *probe == self@.probe,
    {
        &self.probe
    }

    /// The target that the host is to attach to.
    pub fn target_name(&self) -> (name: &String)
        ensures
            name@ == self@.target_name,
    {
        &self.target_name
    }

    /// The stage that the run is in, or ended in.
    pub fn stage(&self) -> (stage: Stage)
        ensures
            stage == self@.stage,
    {
        self.stage
    }

    /// Whether the run is over.
    pub fn finished(&self) -> (over: bool)
        ensures
            over == self@.finished(),
    {
        self.outcome.is_some()
    }

    /// The request that the run waits on; none once it is over.
    pub fn request(&self) -> (request: Option<ProbeRequest>)
        ensures
            request == self@.request(),
    {
        if self.outcome.is_some() {
            None
        } else {
            Some(self.stage.request(self.step, self.option_word, self.settle_micros))
        }
    }

    /// How the run ended; nothing while it is not over.
    pub fn outcome(self) -> (outcome: Option<Result<(), PlungerError>>)
        ensures
            outcome_view(outcome) == self@.outcome,
    {
        self.outcome
    }

    /// Takes the reply to the pending request and moves the run on.
    pub fn advance(&mut self, reply: ProbeReply)
        ensures
            final(self)@ == old(self)@.advance(reply@),
    {
        if self.outcome.is_some() {
            return ;
        }
        let request = self.stage.request(self.step, self.option_word, self.settle_micros);
        if !reply.answers(&request) {
            match reply {
                ProbeReply::Failed(err) => {
                    self.outcome = Some(Err(err));
                },
                _ => {
                    self.outcome = Some(
                        Err(PlungerError::StateError(String::from_str(UNEXPECTED_REPLY))),
                    );
                },
            }
            return ;
        }
        match reply {
            ProbeReply::Word(word) => {
                match request {
                    ProbeRequest::ReadWord32 { address } => {
                        if address == FLASH_SR && STM32L0Eraser::wait_for_flash(word) {
                            return ;
                        }
                    },
                    _ => {},
                }
                if self.step < self.stage.len() - 1 {
                    self.step = self.step + 1;
                } else {
                    self.leave_stage(word);
                }
            },
            _ => {
                if self.step < self.stage.len() - 1 {
                    self.step = self.step + 1;
                } else {
                    self.leave_stage(0);
                }
            },
        }
    }

    /// Moves the run past the last request of its stage, which `word`
    /// answered if the request was a read.
    fn leave_stage(&mut self, word: u32)
        requires
            !old(self)@.finished(),
        ensures
            forall|reply: ProbeReplyView|
                (old(self)@.stage == Stage::ReadOptions ==> reply == ProbeReplyView::Word(word))
                    ==> final(self)@ == #[trigger] old(self)@.after_stage(reply),
    {
        match self.stage {
            Stage::GenericErase | Stage::UnlockOnly | Stage::Regress => {
                self.outcome = Some(Ok(()));
            },
            Stage::Unlock => {
                self.stage = Stage::ReadOptions;
                self.step = 0;
            },
            Stage::ReadOptions => {
                if word & 0xff == RDP_LEVEL_2 {
                    self.outcome = Some(Err(PlungerError::InvalidProtectionLevel));
                } else if word & 0xff == RDP_LEVEL_0 {
                    self.stage = Stage::RaiseProtection;
                    self.step = 0;
                    self.option_word = word;
                } else {
                    self.stage = Stage::Regress;
                    self.step = 0;
                    self.option_word = word;
                }
            },
            Stage::RaiseProtection => {
                self.stage = Stage::Relock;
                self.step = 0;
            },
            Stage::Relock => {
                self.stage = Stage::Regress;
                self.step = 0;
            },
        }
    }
}

} // verus!
