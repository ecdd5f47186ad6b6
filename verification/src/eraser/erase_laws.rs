//! What holds of every run of an eraser, whatever the probe replies.

use crate::common::plunger_error::PlungerErrorView;
use crate::eraser::erase_run::{EraseRunView, Stage};
use crate::eraser::stm32l0_eraser::{
    lemma_regression_word, spec_regression_word, FLASH_OPTR, FLASH_OPT_BASE, FLASH_SR,
    RDP_LEVEL_0, RDP_LEVEL_2,
};
use crate::probe::link::{ProbeReplyView, ProbeRequest};
use vstd::prelude::*;

verus! {

/// The place of a stage among the stages: the two that stand alone first,
/// then the five of a mass erase in the order in which it goes through
/// them.
pub open spec fn stage_rank(stage: Stage) -> nat {
    match stage {
        Stage::GenericErase => 0,
        Stage::UnlockOnly => 1,
        Stage::Unlock => 2,
        Stage::ReadOptions => 3,
        Stage::RaiseProtection => 4,
        Stage::Relock => 5,
        Stage::Regress => 6,
    }
}

/// The place of step `step` of `stage` among all steps: stages in their
/// order, the steps of a stage in theirs.
pub open spec fn position_of(stage: Stage, step: nat) -> nat {
    stage_rank(stage) * 16 + step
}

/// The stage belongs to the detour that raises a device from level 0 to
/// level 1 and unlocks it again.
pub open spec fn in_detour(stage: Stage) -> bool {
    stage == Stage::RaiseProtection || stage == Stage::Relock
}

/// The request writes the first option-byte word.
pub open spec fn is_option_byte_write(request: Option<ProbeRequest>) -> bool {
    request matches Some(ProbeRequest::WriteWord32 { address, .. }) && address == FLASH_OPT_BASE
}

/// The replies that report the status words `words`, in order.
pub open spec fn status_replies(words: Seq<u32>) -> Seq<ProbeReplyView> {
    Seq::new(words.len(), |k: int| ProbeReplyView::Word(words[k]))
}

impl EraseRunView {
    /// Where the run stands among all steps.
    pub open spec fn position(self) -> nat {
        position_of(self.stage, self.step)
    }

    /// The run stands at a request of its stage, and the option word that
    /// it holds fits the stage: on the detour the word reads level 0, and
    /// in the regression it does not read level 2.
    pub open spec fn consistent(self) -> bool {
        &&& self.well_formed()
        &&& in_detour(self.stage) ==> self.option_word & 0xff == RDP_LEVEL_0
        &&& self.stage == Stage::Regress ==> self.option_word & 0xff != RDP_LEVEL_2
    }
}

/// Every stage is a session of its own: its first request opens the
/// probe, so nothing that an earlier stage held is used again.
pub proof fn lemma_every_stage_opens_the_probe(stage: Stage, option_word: u32, settle_micros: u64)
    ensures
        stage.spec_request(0, option_word, settle_micros) == ProbeRequest::Open,
        0 < stage.spec_len(),
{
}

/// A failure that the host reports ends a run with that failure, whatever
/// the run was waiting on: no error of the probe is swallowed, and
/// nothing is retried.
pub proof fn lemma_failure_ends_erase(run: EraseRunView, err: PlungerErrorView)
    requires
        !run.finished(),
    ensures
        run.advance(ProbeReplyView::Failed(err)).outcome == Some(Err::<(), PlungerErrorView>(err)),
        run.advance(ProbeReplyView::Failed(err)).request() is None,
{
}

/// A reply leaves a run at one of the requests of its stage.
pub proof fn lemma_advance_keeps_well_formed(run: EraseRunView, reply: ProbeReplyView)
    requires
        run.well_formed(),
    ensures
        run.advance(reply).well_formed(),
{
}

/// A reply never takes a run back, and leaves a run that is over as it is.
pub proof fn lemma_advance_goes_forward(run: EraseRunView, reply: ProbeReplyView)
    requires
        run.well_formed(),
    ensures
        run.advance(reply).position() >= run.position(),
        run.finished() ==> run.advance(reply) == run,
        run.advance(reply).probe == run.probe,
        run.advance(reply).target_name == run.target_name,
        run.advance(reply).settle_micros == run.settle_micros,
{
}

/// A reply keeps the option word of a run fitting its stage, and leaves
/// the word alone once the option register has been read.
pub proof fn lemma_advance_keeps_consistent(run: EraseRunView, reply: ProbeReplyView)
    requires
        run.consistent(),
    ensures
        run.advance(reply).consistent(),
        stage_rank(run.stage) > stage_rank(Stage::ReadOptions) ==> run.advance(reply).option_word
            == run.option_word,
{
}

/// The run after the first `j + 1` replies is the run after the first `j`,
/// moved on by the reply that follows them.
pub proof fn lemma_run_step(start: EraseRunView, replies: Seq<ProbeReplyView>, j: int)
    requires
        0 <= j < replies.len(),
    ensures
        start.run(replies.take(j + 1)) == start.run(replies.take(j)).advance(replies[j]),
        start.run(replies.take(replies.len() as int)) == start.run(replies),
{
    assert(replies.take(j + 1).drop_last() =~= replies.take(j));
    assert(replies.take(j + 1).last() == replies[j]);
    assert(replies.take(replies.len() as int) =~= replies);
}

/// Replies leave a run at one of the requests of its stage, with the
/// probe, the target and the delay that it started with.
pub proof fn lemma_run_keeps_well_formed(start: EraseRunView, replies: Seq<ProbeReplyView>)
    requires
        start.well_formed(),
    ensures
        start.run(replies).well_formed(),
        start.run(replies).probe == start.probe,
        start.run(replies).target_name == start.target_name,
        start.run(replies).settle_micros == start.settle_micros,
    decreases replies.len(),
{
    if replies.len() > 0 {
        lemma_run_keeps_well_formed(start, replies.drop_last());
        lemma_advance_keeps_well_formed(start.run(replies.drop_last()), replies.last());
        lemma_advance_goes_forward(start.run(replies.drop_last()), replies.last());
    }
}

/// Replies keep the option word of a run fitting its stage.
pub proof fn lemma_run_keeps_consistent(start: EraseRunView, replies: Seq<ProbeReplyView>)
    requires
        start.consistent(),
    ensures
        start.run(replies).consistent(),
    decreases replies.len(),
{
    if replies.len() > 0 {
        lemma_run_keeps_consistent(start, replies.drop_last());
        lemma_advance_keeps_consistent(start.run(replies.drop_last()), replies.last());
    }
}

/// A run goes through its requests in order: after more replies it stands
/// no earlier than after fewer, and once it is over it stays as it is.
pub proof fn lemma_run_goes_forward(
    start: EraseRunView,
    replies: Seq<ProbeReplyView>,
    i: int,
    j: int,
)
    requires
        start.well_formed(),
        0 <= i <= j <= replies.len(),
    ensures
        start.run(replies.take(i)).position() <= start.run(replies.take(j)).position(),
        start.run(replies.take(i)).finished() ==> start.run(replies.take(j)) == start.run(
            replies.take(i),
        ),
    decreases j - i,
{
    if i < j {
        lemma_run_goes_forward(start, replies, i, j - 1);
        lemma_run_step(start, replies, j - 1);
        lemma_run_keeps_well_formed(start, replies.take(j - 1));
        lemma_advance_goes_forward(start.run(replies.take(j - 1)), replies[j - 1]);
    }
}

/// A write to the first option-byte word is asked for in two places only:
/// where the level is raised, with the value zero, and where it is
/// regressed, with the regression word of the option word that was read.
/// In that word the low byte is the level-0 marker and the high
/// half-word is the complement of the low half-word.
pub proof fn lemma_option_byte_writes(run: EraseRunView, value: u32)
    requires
        run.well_formed(),
        run.request() == Some(ProbeRequest::WriteWord32 { address: FLASH_OPT_BASE, value }),
    ensures
        run.stage == Stage::RaiseProtection || run.stage == Stage::Regress,
        run.stage == Stage::RaiseProtection ==> value == 0,
        run.stage == Stage::Regress ==> {
            &&& value == spec_regression_word(run.option_word)
            &&& value & 0xff == RDP_LEVEL_0
            &&& value >> 16 == !(value & 0xffff) & 0xffff
            &&& value & 0xff00 == run.option_word & 0xff00
        },
{
    lemma_regression_word(run.option_word);
}

/// A device at level 2 is refused and its option bytes are left alone.
///
/// When the option register is read and its low byte is the level-2
/// marker, the run ends at once with `InvalidProtectionLevel`, and at no
/// point, before or after, does it ask for a write to the option bytes.
pub proof fn lemma_level_two_is_refused(
    start: EraseRunView,
    replies: Seq<ProbeReplyView>,
    i: int,
    word: u32,
)
    requires
        start.well_formed(),
        0 <= i < replies.len(),
        start.run(replies.take(i)).request() == Some(
            ProbeRequest::ReadWord32 { address: FLASH_OPTR },
        ),
        replies[i] == ProbeReplyView::Word(word),
        word & 0xff == RDP_LEVEL_2,
    ensures
        start.run(replies).outcome == Some(
            Err::<(), PlungerErrorView>(PlungerErrorView::InvalidProtectionLevel),
        ),
        forall|j: int|
            0 <= j <= replies.len() ==> !is_option_byte_write(
                #[trigger] start.run(replies.take(j)).request(),
            ),
{
    let asked = start.run(replies.take(i));
    let refused = start.run(replies.take(i + 1));
    lemma_run_keeps_well_formed(start, replies.take(i));
    lemma_run_step(start, replies, i);
    assert(asked.stage == Stage::ReadOptions);
    assert(refused.outcome == Some(
        Err::<(), PlungerErrorView>(PlungerErrorView::InvalidProtectionLevel),
    ));
    lemma_run_goes_forward(start, replies, i + 1, replies.len() as int);
    assert forall|j: int| 0 <= j <= replies.len() implies !is_option_byte_write(
        #[trigger] start.run(replies.take(j)).request(),
    ) by {
        if j <= i {
            lemma_run_goes_forward(start, replies, j, i);
            lemma_run_keeps_well_formed(start, replies.take(j));
        } else {
            lemma_run_goes_forward(start, replies, i + 1, j);
        }
    }
}

/// What the low byte of the option register decides.
///
/// At the level-0 marker the run turns to raising the level; at any value
/// that is neither that nor the level-2 marker it turns to the regression
/// at once. Either way it keeps the word that was read.
pub proof fn lemma_option_register_decides(run: EraseRunView, word: u32)
    requires
        run.request() == Some(ProbeRequest::ReadWord32 { address: FLASH_OPTR }),
        word & 0xff != RDP_LEVEL_2,
    ensures
        run.advance(ProbeReplyView::Word(word)).option_word == word,
        word & 0xff == RDP_LEVEL_0 ==> run.advance(ProbeReplyView::Word(word)).at(
            Stage::RaiseProtection,
            0,
        ),
        word & 0xff != RDP_LEVEL_0 ==> run.advance(ProbeReplyView::Word(word)).at(
            Stage::Regress,
            0,
        ),
{
    assert(run.stage == Stage::ReadOptions);
}

/// A run misses no step on its way.
///
/// If a run has gone past a step, it has stood at that step, unfinished
/// and asking for the step's request, after some of its replies. The
/// steps of the detour are meant only where the option word reads
/// level 0.
pub proof fn lemma_no_step_is_skipped(
    start: EraseRunView,
    replies: Seq<ProbeReplyView>,
    stage: Stage,
    step: nat,
)
    requires
        start.consistent(),
        step < stage.spec_len(),
        start.position() <= position_of(stage, step) < start.run(replies).position(),
        in_detour(stage) ==> start.run(replies).option_word & 0xff == RDP_LEVEL_0,
    ensures
        exists|j: int| 0 <= j < replies.len() && #[trigger] start.run(replies.take(j)).at(stage, step),
    decreases replies.len(),
{
    let before = start.run(replies.drop_last());
    let last = replies.len() - 1;
    lemma_run_keeps_consistent(start, replies.drop_last());
    lemma_advance_keeps_consistent(before, replies.last());
    lemma_advance_goes_forward(before, replies.last());
    assert(replies.take(last) =~= replies.drop_last());
    if position_of(stage, step) < before.position() {
        lemma_no_step_is_skipped(start, replies.drop_last(), stage, step);
        let j = choose|j: int|
            0 <= j < replies.drop_last().len() && #[trigger] start.run(
                replies.drop_last().take(j),
            ).at(stage, step);
        assert(replies.drop_last().take(j) =~= replies.take(j));
        assert(start.run(replies.take(j)).at(stage, step));
    } else {
        assert(before.at(stage, step));
        assert(start.run(replies.take(last)).at(stage, step));
    }
}

/// A device at level 0 is raised to level 1 before it is regressed.
///
/// A mass erase that holds an option word with the level-0 marker and has
/// reached the regression has stood, before that, at every step of
/// raising the level and of the unlock after it: among them the erase of
/// the option-byte word, the commit that follows it, and each key write
/// of the second unlock.
pub proof fn lemma_level_zero_takes_detour(
    start: EraseRunView,
    replies: Seq<ProbeReplyView>,
    stage: Stage,
    step: nat,
)
    requires
        start.at(Stage::Unlock, 0),
        start.run(replies).stage == Stage::Regress,
        start.run(replies).option_word & 0xff == RDP_LEVEL_0,
        in_detour(stage),
        step < stage.spec_len(),
    ensures
        exists|j: int| 0 <= j < replies.len() && #[trigger] start.run(replies.take(j)).at(stage, step),
{
    lemma_no_step_is_skipped(start, replies, stage, step);
}

/// A device at a level other than 0 and 2 is regressed at once.
///
/// When the option register is read and its low byte is neither marker,
/// the next step of the run is the first of the regression, and at no
/// point, before or after, does the run stand on the detour.
pub proof fn lemma_raised_level_skips_detour(
    start: EraseRunView,
    replies: Seq<ProbeReplyView>,
    i: int,
    word: u32,
)
    requires
        start.well_formed(),
        0 <= i < replies.len(),
        start.run(replies.take(i)).request() == Some(
            ProbeRequest::ReadWord32 { address: FLASH_OPTR },
        ),
        replies[i] == ProbeReplyView::Word(word),
        word & 0xff != RDP_LEVEL_0,
        word & 0xff != RDP_LEVEL_2,
    ensures
        start.run(replies.take(i + 1)).at(Stage::Regress, 0),
        start.run(replies.take(i + 1)).option_word == word,
        forall|j: int|
            0 <= j <= replies.len() ==> !in_detour(#[trigger] start.run(replies.take(j)).stage),
{
    let asked = start.run(replies.take(i));
    lemma_run_keeps_well_formed(start, replies.take(i));
    lemma_run_step(start, replies, i);
    lemma_option_register_decides(asked, word);
    assert(asked.stage == Stage::ReadOptions);
    assert forall|j: int| 0 <= j <= replies.len() implies !in_detour(
        #[trigger] start.run(replies.take(j)).stage,
    ) by {
        if j <= i {
            lemma_run_goes_forward(start, replies, j, i);
        } else {
            lemma_run_goes_forward(start, replies, i + 1, j);
            lemma_run_keeps_well_formed(start, replies.take(j));
        }
    }
}

/// Every wait reads the status register at least once.
///
/// If a run has gone past a step at which the status is read, it has
/// asked for that read, whether or not the first status reported ready.
pub proof fn lemma_every_wait_reads_the_status(
    start: EraseRunView,
    replies: Seq<ProbeReplyView>,
    stage: Stage,
    step: nat,
)
    requires
        start.consistent(),
        step < stage.spec_len(),
        stage.spec_request(step, 0, 0) == (ProbeRequest::ReadWord32 { address: FLASH_SR }),
        start.position() <= position_of(stage, step) < start.run(replies).position(),
        in_detour(stage) ==> start.run(replies).option_word & 0xff == RDP_LEVEL_0,
    ensures
        exists|j: int|
            0 <= j < replies.len() && (#[trigger] start.run(replies.take(j))).request() == Some(
                ProbeRequest::ReadWord32 { address: FLASH_SR },
            ),
{
    lemma_no_step_is_skipped(start, replies, stage, step);
    let j = choose|j: int|
        0 <= j < replies.len() && #[trigger] start.run(replies.take(j)).at(stage, step);
    assert(start.run(replies.take(j)).request() == Some(
        ProbeRequest::ReadWord32 { address: FLASH_SR },
    ));
}

/// The status register is read until it reports ready.
///
/// A run that waits on a read of the status register stays where it is,
/// asking for the same read, for as long as the replies have the busy bit
/// set. A status without the busy bit makes it leave that step, and no
/// other reply does without ending the run.
pub proof fn lemma_waits_for_flash(run: EraseRunView, busy: Seq<u32>, reply: ProbeReplyView)
    requires
        run.well_formed(),
        run.request() == Some(ProbeRequest::ReadWord32 { address: FLASH_SR }),
        forall|k: int| 0 <= k < busy.len() ==> busy[k] & 1 != 0,
    ensures
        run.run(status_replies(busy)) == run,
        reply matches ProbeReplyView::Word(status) && status & 1 == 0 ==> run.advance(reply)
            != run && run.advance(reply).request() != run.request(),
        !(reply matches ProbeReplyView::Word(status) && status & 1 == 0) ==> run.advance(reply)
            == run || run.advance(reply).outcome is Some,
    decreases busy.len(),
{
    if busy.len() > 0 {
        lemma_waits_for_flash(run, busy.drop_last(), reply);
        assert(status_replies(busy).drop_last() =~= status_replies(busy.drop_last()));
        assert(status_replies(busy).last() == ProbeReplyView::Word(busy.last()));
    }
}

} // verus!
