//! What holds of every run of an identifier.

use crate::common::plunger_error::PlungerErrorView;
use crate::common::probe_info::ProbeSelector;
use crate::eraser::stm32l0_eraser::HALT_TIMEOUT_MS;
use crate::identifier::base_identifier::TargetIdentityView;
use crate::identifier::identify_run::{Goal, IdentifyRunView, Reading};
use crate::identifier::stm32l0_identifier::{
    spec_flash_size, FL_SIZE_BYTES, STM32L0_FL_SIZE, STM32L0_UID_LSB, STM32L0_UID_MID,
    STM32L0_UID_MSB, UID_WORD_BYTES,
};
use crate::probe::link::{ProbeReplyView, ProbeRequest};
use vstd::prelude::*;

verus! {

/// The run after the host has opened the probe, detached, attached, taken
/// the core and reported whether the core was halted, and has halted it
/// if it was not.
pub open spec fn session_opened(run: IdentifyRunView, halted: bool) -> IdentifyRunView {
    let asked = run.advance(ProbeReplyView::Done).advance(ProbeReplyView::Done).advance(
        ProbeReplyView::Done,
    ).advance(ProbeReplyView::Done);
    if halted {
        asked.advance(ProbeReplyView::Halted(true))
    } else {
        asked.advance(ProbeReplyView::Halted(false)).advance(ProbeReplyView::Done)
    }
}

/// How many bytes of the unique id a run holds where it stands: four for
/// each word that it has read.
pub open spec fn bytes_held(goal: Goal, reading: Reading, step: nat) -> nat {
    match reading {
        Reading::UniqueId => if step <= 6 {
            0
        } else {
            (4 * (step - 6)) as nat
        },
        Reading::FlashSize => if goal == Goal::Identity {
            12
        } else {
            0
        },
    }
}

impl IdentifyRunView {
    /// The run stands at a request of a reading that its goal calls for,
    /// and holds the bytes of the unique id that it has read by then. A
    /// run that has ended with an identity reports what its goal called
    /// for, with a unique id of twelve bytes.
    pub open spec fn well_formed(self) -> bool {
        &&& self.step < self.reading.spec_len()
        &&& self.goal == Goal::UniqueId ==> self.reading == Reading::UniqueId
        &&& self.goal == Goal::FlashSize ==> self.reading == Reading::FlashSize
        &&& self.outcome matches Some(Ok(identity)) ==> {
            &&& identity.flash_size is Some <==> self.goal != Goal::UniqueId
            &&& identity.unique_id is Some <==> self.goal != Goal::FlashSize
            &&& identity.unique_id matches Some(unique_id) ==> unique_id.len() == 12
        }
        &&& !(self.outcome matches Some(Ok(_))) ==> self.unique_id.len() == bytes_held(
            self.goal,
            self.reading,
            self.step,
        )
    }
}

/// A reply leaves a run well formed.
pub proof fn lemma_advance_keeps_identification_well_formed(
    run: IdentifyRunView,
    reply: ProbeReplyView,
)
    requires
        run.well_formed(),
    ensures
        run.advance(reply).well_formed(),
{
}

/// An identification reports what was asked for, and a unique id of twelve
/// bytes.
///
/// Whatever the host replies, a run stays well formed: if it ends with an
/// identity, the identity holds the unique id exactly if the id was to be
/// read, the flash size exactly if the size was to be read, and the
/// unique id has twelve bytes.
pub proof fn lemma_identification_is_well_formed(
    probe: ProbeSelector,
    target_name: Seq<char>,
    goal: Goal,
    replies: Seq<ProbeReplyView>,
)
    ensures
        IdentifyRunView::start(probe, target_name, goal).run(replies).well_formed(),
    decreases replies.len(),
{
    if replies.len() > 0 {
        lemma_identification_is_well_formed(probe, target_name, goal, replies.drop_last());
        lemma_advance_keeps_identification_well_formed(
            IdentifyRunView::start(probe, target_name, goal).run(replies.drop_last()),
            replies.last(),
        );
    }
}

/// Every reading is a session of its own: its first request opens the
/// probe, so nothing that an earlier reading held is used again.
pub proof fn lemma_every_reading_opens_the_probe(reading: Reading)
    ensures
        reading.spec_request(0) == ProbeRequest::Open,
        0 < reading.spec_len(),
{
}

/// A failure that the host reports ends a run with that failure, whatever
/// the run was waiting on.
pub proof fn lemma_failure_ends_identification(run: IdentifyRunView, err: PlungerErrorView)
    requires
        !run.finished(),
    ensures
        run.advance(ProbeReplyView::Failed(err)).outcome == Some(
            Err::<TargetIdentityView, PlungerErrorView>(err),
        ),
{
}

/// A core is halted only if it runs.
///
/// Where a run asks whether the core is halted, the answer that it is
/// makes the first read the next request, and the answer that it is not
/// makes the halt, with its bounded wait, the next request.
pub proof fn lemma_halts_a_running_core_only(run: IdentifyRunView)
    requires
        run.request() == Some(ProbeRequest::CoreHalted),
    ensures
        run.advance(ProbeReplyView::Halted(false)).request() == Some(
            ProbeRequest::Halt { timeout_ms: HALT_TIMEOUT_MS },
        ),
        run.advance(ProbeReplyView::Halted(true)).request() == run.advance(
            ProbeReplyView::Halted(false),
        ).advance(ProbeReplyView::Done).request(),
        run.advance(ProbeReplyView::Halted(true)).request() matches Some(
            ProbeRequest::Read8 { .. },
        ),
{
}

/// The unique id is the low word, the middle word and the high word, in
/// that order.
///
/// A run that is to read the unique id asks, in a session of its own, for
/// four bytes at each of the three addresses and ends with the twelve
/// bytes that it was handed, in the order in which it asked.
pub proof fn lemma_unique_id_is_low_mid_high(
    probe: ProbeSelector,
    target_name: Seq<char>,
    halted: bool,
    low: Seq<u8>,
    mid: Seq<u8>,
    high: Seq<u8>,
)
    requires
        low.len() == UID_WORD_BYTES,
        mid.len() == UID_WORD_BYTES,
        high.len() == UID_WORD_BYTES,
    ensures
        ({
            let opened = session_opened(
                IdentifyRunView::start(probe, target_name, Goal::UniqueId),
                halted,
            );
            let first = opened.advance(ProbeReplyView::Bytes(low));
            let second = first.advance(ProbeReplyView::Bytes(mid));
            let third = second.advance(ProbeReplyView::Bytes(high));
            &&& opened.request() == Some(
                ProbeRequest::Read8 { address: STM32L0_UID_LSB, len: UID_WORD_BYTES },
            )
            &&& first.request() == Some(
                ProbeRequest::Read8 { address: STM32L0_UID_MID, len: UID_WORD_BYTES },
            )
            &&& second.request() == Some(
                ProbeRequest::Read8 { address: STM32L0_UID_MSB, len: UID_WORD_BYTES },
            )
            &&& third.outcome == Some(
                Ok::<TargetIdentityView, PlungerErrorView>(
                    TargetIdentityView { unique_id: Some(low + mid + high), flash_size: None },
                ),
            )
        }),
        (low + mid + high).len() == 12,
{
    let opened = session_opened(IdentifyRunView::start(probe, target_name, Goal::UniqueId), halted);
    assert(opened.at(Reading::UniqueId, 6));
    assert(opened.unique_id + low + mid + high =~= low + mid + high);
}

/// The flash size is a count of kilobytes, low byte first.
///
/// A run that is to read the flash size asks, in a session of its own,
/// for the two bytes at the size address and ends with 1024 times the
/// number that they spell, the first byte being the low one.
pub proof fn lemma_flash_size_is_kilobytes(
    probe: ProbeSelector,
    target_name: Seq<char>,
    halted: bool,
    low: u8,
    high: u8,
)
    ensures
        ({
            let opened = session_opened(
                IdentifyRunView::start(probe, target_name, Goal::FlashSize),
                halted,
            );
            let read = opened.advance(ProbeReplyView::Bytes(seq![low, high]));
            &&& opened.request() == Some(
                ProbeRequest::Read8 { address: STM32L0_FL_SIZE, len: FL_SIZE_BYTES },
            )
            &&& read.outcome == Some(
                Ok::<TargetIdentityView, PlungerErrorView>(
                    TargetIdentityView {
                        unique_id: None,
                        flash_size: Some(spec_flash_size(seq![low, high])),
                    },
                ),
            )
        }),
        spec_flash_size(seq![low, high]) == (high as int * 256 + low as int) * 1024,
{
    let opened = session_opened(
        IdentifyRunView::start(probe, target_name, Goal::FlashSize),
        halted,
    );
    assert(opened.at(Reading::FlashSize, 6));
    assert(seq![low, high].len() == 2);
}

/// An identification reads the unique id and then the flash size, each in
/// a session of its own, and reports both.
pub proof fn lemma_identity_holds_both(
    probe: ProbeSelector,
    target_name: Seq<char>,
    halted_first: bool,
    halted_second: bool,
    low: Seq<u8>,
    mid: Seq<u8>,
    high: Seq<u8>,
    size_low: u8,
    size_high: u8,
)
    requires
        low.len() == UID_WORD_BYTES,
        mid.len() == UID_WORD_BYTES,
        high.len() == UID_WORD_BYTES,
    ensures
        ({
            let opened = session_opened(
                IdentifyRunView::start(probe, target_name, Goal::Identity),
                halted_first,
            );
            let known = opened.advance(ProbeReplyView::Bytes(low)).advance(
                ProbeReplyView::Bytes(mid),
            ).advance(ProbeReplyView::Bytes(high));
            let reopened = session_opened(known, halted_second);
            let read = reopened.advance(ProbeReplyView::Bytes(seq![size_low, size_high]));
            &&& known.request() == Some(ProbeRequest::Open)
            &&& reopened.request() == Some(
                ProbeRequest::Read8 { address: STM32L0_FL_SIZE, len: FL_SIZE_BYTES },
            )
            &&& read.outcome == Some(
                Ok::<TargetIdentityView, PlungerErrorView>(
                    TargetIdentityView {
                        unique_id: Some(low + mid + high),
                        flash_size: Some(spec_flash_size(seq![size_low, size_high])),
                    },
                ),
            )
        }),
{
    let opened = session_opened(
        IdentifyRunView::start(probe, target_name, Goal::Identity),
        halted_first,
    );
    assert(opened.at(Reading::UniqueId, 6));
    assert(opened.unique_id + low + mid + high =~= low + mid + high);
    let known = opened.advance(ProbeReplyView::Bytes(low)).advance(
        ProbeReplyView::Bytes(mid),
    ).advance(ProbeReplyView::Bytes(high));
    assert(known.at(Reading::FlashSize, 0));
    assert(known.unique_id == low + mid + high);
    let reopened = session_opened(known, halted_second);
    assert(reopened.at(Reading::FlashSize, 6));
    assert(seq![size_low, size_high].len() == 2);
}

} // verus!
