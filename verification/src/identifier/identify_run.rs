//! A run of an identifier: where a reading stands, which request it waits
//! on, and how it goes on from each reply.
//!
//! The host asks the run for its pending request, carries it out on the
//! probe and hands the reply to `advance`, until no request is pending.

use crate::common::plunger_error::{PlungerError, PlungerErrorView};
use crate::common::probe_info::ProbeSelector;
use crate::identifier::base_identifier::{TargetIdentity, TargetIdentityView};
use crate::identifier::stm32l0_identifier::{
    flash_size_from, spec_flash_size, STM32L0Identifier, FLASH_SIZE_STEPS, UNIQUE_ID_STEPS,
};
use crate::probe::link::{ProbeReply, ProbeReplyView, ProbeRequest, UNEXPECTED_REPLY};
use vstd::prelude::*;
use vstd::string::*;

verus! {

/// What a run is to read.
#[derive(Debug, Clone, Copy, PartialEq, Eq, Structural)]
pub enum Goal {
    /// The unique id alone.
    UniqueId,
    /// The size of the flash alone.
    FlashSize,
    /// The unique id, then the size of the flash.
    Identity,
}

/// The part of an identification that a run is in. Each is one session on
/// the probe, opened by its first request.
#[derive(Debug, Clone, Copy, PartialEq, Eq, Structural)]
pub enum Reading {
    UniqueId,
    FlashSize,
}

impl Goal {
    /// The reading that a run with this goal starts with.
    pub open spec fn spec_first(self) -> Reading {
        match self {
            Goal::FlashSize => Reading::FlashSize,
            _ => Reading::UniqueId,
        }
    }

    /// The reading that a run with this goal starts with.
    pub fn first(self) -> (reading: Reading)
        ensures
            reading == self.spec_first(),
    {
        match self {
            Goal::FlashSize => Reading::FlashSize,
            _ => Reading::UniqueId,
        }
    }
}

impl Reading {
    /// How many requests the reading makes at most.
    pub open spec fn spec_len(self) -> nat {
        match self {
            Reading::UniqueId => UNIQUE_ID_STEPS as nat,
            Reading::FlashSize => FLASH_SIZE_STEPS as nat,
        }
    }

    /// The request that the reading makes at `step`.
    pub open spec fn spec_request(self, step: nat) -> ProbeRequest {
        match self {
            Reading::UniqueId => STM32L0Identifier::spec_unique_id_request(step),
            Reading::FlashSize => STM32L0Identifier::spec_flash_size_request(step),
        }
    }

    /// How many requests the reading makes at most.
    pub fn len(self) -> (len: u8)
        ensures
            len == self.spec_len(),
    {
        match self {
            Reading::UniqueId => UNIQUE_ID_STEPS,
            Reading::FlashSize => FLASH_SIZE_STEPS,
        }
    }

    /// The request that the reading makes at `step`.
    pub fn request(self, step: u8) -> (request: ProbeRequest)
        ensures
            request == self.spec_request(step as nat),
    {
        match self {
            Reading::UniqueId => STM32L0Identifier::unique_id_request(step),
            Reading::FlashSize => STM32L0Identifier::flash_size_request(step),
        }
    }
}

/// A run of an identifier.
#[derive(Debug, Clone, PartialEq, Eq)]
pub struct IdentifyRun {
    probe: ProbeSelector,
    target_name: String,
    goal: Goal,
    reading: Reading,
    step: u8,
    unique_id: Vec<u8>,
    outcome: Option<Result<TargetIdentity, PlungerError>>,
}

/// The state of a run.
pub struct IdentifyRunView {
    /// The probe that the host is to work through.
    pub probe: ProbeSelector,
    /// The target that the host is to attach to.
    pub target_name: Seq<char>,
    /// What the run is to read.
    pub goal: Goal,
    /// The reading that the run is in, or ended in.
    pub reading: Reading,
    /// The place of the pending request in the reading.
    pub step: nat,
    /// The bytes of the unique id that were read so far.
    pub unique_id: Seq<u8>,
    /// How the run ended, once it has.
    pub outcome: Option<Result<TargetIdentityView, PlungerErrorView>>,
}

/// The outcome of a run as the run holds it.
pub open spec fn identity_outcome_view(
    outcome: Option<Result<TargetIdentity, PlungerError>>,
) -> Option<Result<TargetIdentityView, PlungerErrorView>> {
    match outcome {
        Some(Ok(identity)) => Some(Ok(identity@)),
        Some(Err(err)) => Some(Err(err@)),
        None => None,
    }
}

impl View for IdentifyRun {
    type V = IdentifyRunView;

    closed spec fn view(&self) -> IdentifyRunView {
        IdentifyRunView {
            probe: self.probe,
            target_name: self.target_name@,
            goal: self.goal,
            reading: self.reading,
            step: self.step as nat,
            unique_id: self.unique_id@,
            outcome: identity_outcome_view(self.outcome),
        }
    }
}

impl IdentifyRunView {
    /// A run with the goal `goal` at its first request.
    pub open spec fn start(probe: ProbeSelector, target_name: Seq<char>, goal: Goal) -> Self {
        IdentifyRunView {
            probe,
            target_name,
            goal,
            reading: goal.spec_first(),
            step: 0,
            unique_id: Seq::empty(),
            outcome: None,
        }
    }

    /// The run is over.
    pub open spec fn finished(self) -> bool {
        self.outcome is Some
    }

    /// The request that the run makes where it stands, whether or not it
    /// is over.
    pub open spec fn script_request(self) -> ProbeRequest {
        self.reading.spec_request(self.step)
    }

    /// The request that the run waits on; none once it is over.
    pub open spec fn request(self) -> Option<ProbeRequest> {
        if self.finished() {
            None
        } else {
            Some(self.script_request())
        }
    }

    /// The run stands, unfinished, at `step` of `reading`.
    pub open spec fn at(self, reading: Reading, step: nat) -> bool {
        !self.finished() && self.reading == reading && self.step == step
    }

    /// The run ended with `outcome` where it stood.
    pub open spec fn end(self, outcome: Result<TargetIdentityView, PlungerErrorView>) -> Self {
        IdentifyRunView { outcome: Some(outcome), ..self }
    }

    /// Where the run goes once the last request of its reading is
    /// answered.
    ///
    /// A run that was to read the unique id alone ends with it. A run
    /// that was to read both turns to the flash size. After the flash
    /// size the run ends with the size, decoded from the two bytes that
    /// were read, and with the unique id if it was to read both.
    pub open spec fn after_reading(self, bytes: Seq<u8>) -> Self {
        match self.reading {
            Reading::UniqueId => {
                let unique_id = self.unique_id + bytes;
                if self.goal == Goal::Identity {
                    IdentifyRunView { reading: Reading::FlashSize, step: 0, unique_id, ..self }
                } else {
                    IdentifyRunView {
                        unique_id,
                        outcome: Some(
                            Ok(TargetIdentityView { unique_id: Some(unique_id), flash_size: None }),
                        ),
                        ..self
                    }
                }
            },
            Reading::FlashSize => self.end(
                Ok(
                    TargetIdentityView {
                        unique_id: if self.goal == Goal::Identity {
                            Some(self.unique_id)
                        } else {
                            None
                        },
                        flash_size: Some(spec_flash_size(bytes)),
                    },
                ),
            ),
        }
    }

    /// The run after `reply` to its pending request.
    ///
    /// A run that is over stays as it is. A failure ends the run with the
    /// error that the host reports, and a reply of the wrong kind ends it
    /// with a state error. A core that is already halted is not halted
    /// again. Bytes of the unique id are put behind those read before.
    /// Any reply moves the run to the next request of its reading or,
    /// after the last, to what follows the reading.
    pub open spec fn advance(self, reply: ProbeReplyView) -> Self {
        if self.finished() {
            self
        } else {
            match reply {
                ProbeReplyView::Failed(err) => self.end(Err(err)),
                _ => if !reply.answers(self.script_request()) {
                    self.end(Err(PlungerErrorView::StateError(UNEXPECTED_REPLY@)))
                } else {
                    match reply {
                        ProbeReplyView::Halted(halted) => IdentifyRunView {
                            step: if halted {
                                self.step + 2
                            } else {
                                self.step + 1
                            },
                            ..self
                        },
                        ProbeReplyView::Bytes(bytes) => if self.step + 1 < self.reading.spec_len() {
                            IdentifyRunView {
                                step: self.step + 1,
                                unique_id: self.unique_id + bytes,
                                ..self
                            }
                        } else {
                            self.after_reading(bytes)
                        },
                        _ => IdentifyRunView { step: self.step + 1, ..self },
                    }
                },
            }
        }
    }

    /// The run after the replies `replies`, in order.
    pub open spec fn run(self, replies: Seq<ProbeReplyView>) -> Self
        decreases replies.len(),
    {
        if replies.len() == 0 {
            self
        } else {
            self.run(replies.drop_last()).advance(replies.last())
        }
    }
}

impl IdentifyRun {
    /// A run with the goal `goal` at its first request.
    pub(crate) fn start(probe: ProbeSelector, target_name: String, goal: Goal) -> (run:
        IdentifyRun)
        ensures
            run@ == IdentifyRunView::start(probe, target_name@, goal),
    {
        IdentifyRun {
            probe,
            target_name,
            goal,
            reading: goal.first(),
            step: 0,
            unique_id: Vec::new(),
            outcome: None,
        }
    }

    /// The probe that the host is to work through.
    pub fn probe(&self) -> (probe: &ProbeSelector)
        ensures
            *probe == self@.probe,
    {
        &self.probe
    }

    /// The target that the host is to attach to.
    pub fn target_name(&self) -> (name: &String)
        ensures
            name@ == self@.target_name,
    {
        &self.target_name
    }

    /// What the run is to read.
    pub fn goal(&self) -> (goal: Goal)
        ensures
            goal == self@.goal,
    {
        self.goal
    }

    /// Whether the run is over.
    pub fn finished(&self) -> (over: bool)
        ensures
            over == self@.finished(),
    {
        self.outcome.is_some()
    }

    /// The request that the run waits on; none once it is over.
    pub fn request(&self) -> (request: Option<ProbeRequest>)
        ensures
            request == self@.request(),
    {
        if self.outcome.is_some() {
            None
        } else {
            Some(self.reading.request(self.step))
        }
    }

    /// How the run ended; nothing while it is not over.
    pub fn outcome(self) -> (outcome: Option<Result<TargetIdentity, PlungerError>>)
        ensures
            identity_outcome_view(outcome) == self@.outcome,
    {
        self.outcome
    }

    /// Takes the reply to the pending request and moves the run on.
    pub fn advance(&mut self, reply: ProbeReply)
        ensures
            final(self)@ == old(self)@.advance(reply@),
    {
        if self.outcome.is_some() {
            return ;
        }
        let request = self.reading.request(self.step);
        if !reply.answers(&request) {
            match reply {
                ProbeReply::Failed(err) => {
                    self.outcome = Some(Err(err));
                },
                _ => {
                    self.outcome = Some(
                        Err(PlungerError::StateError(String::from_str(UNEXPECTED_REPLY))),
                    );
                },
            }
            return ;
        }
        match reply {
            ProbeReply::Halted(halted) => {
                if halted {
                    self.step = self.step + 2;
                } else {
                    self.step = self.step + 1;
                }
            },
            ProbeReply::Bytes(bytes) => {
                if self.step < self.reading.len() - 1 {
                    let mut bytes = bytes;
                    self.unique_id.append(&mut bytes);
                    self.step = self.step + 1;
                } else {
                    self.leave_reading(bytes);
                }
            },
            _ => {
                self.step = self.step + 1;
            },
        }
    }

    /// Moves the run past the last request of its reading, which `bytes`
    /// answered.
    fn leave_reading(&mut self, bytes: Vec<u8>)
        requires
            !old(self)@.finished(),
            old(self)@.reading == Reading::FlashSize ==> bytes@.len() == 2,
        ensures
            final(self)@ == old(self)@.after_reading(bytes@),
    {
        match self.reading {
            Reading::UniqueId => {
                let mut bytes = bytes;
                self.unique_id.append(&mut bytes);
                match self.goal {
                    Goal::Identity => {
                        self.reading = Reading::FlashSize;
                        self.step = 0;
                    },
                    _ => {
                        let unique_id = copy_bytes(&self.unique_id);
                        self.outcome = Some(
                            Ok(TargetIdentity { unique_id: Some(unique_id), flash_size: None }),
                        );
                    },
                }
            },
            Reading::FlashSize => {
                let flash_size = flash_size_from(bytes[0], bytes[1]);
                proof {
                    assert(bytes@ =~= seq![bytes@[0], bytes@[1]]);
                }
                let unique_id = match self.goal {
                    Goal::Identity => Some(copy_bytes(&self.unique_id)),
                    _ => None,
                };
                self.outcome = Some(Ok(TargetIdentity { unique_id, flash_size: Some(flash_size) }));
            },
        }
    }
}

/// A copy of `bytes`.
pub fn copy_bytes(bytes: &Vec<u8>) -> (copy: Vec<u8>)
    ensures
        copy@ == bytes@,
{
    let mut copy: Vec<u8> = Vec::new();
    let mut i: usize = 0;
    while i < bytes.len()
        invariant
            i <= bytes.len(),
            copy@ == bytes@.take(i as int),
        decreases bytes.len() - i,
    {
        copy.push(bytes[i]);
        i += 1;
    }
    copy
}

} // verus!
