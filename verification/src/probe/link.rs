//! Requests that the library makes of the host that owns the debug probe,
//! and the replies that the host hands back.
//!
//! The host holds at most one session. `Open` lets go of whatever it still
//! holds and opens the selected probe afresh; the end of a run lets go of
//! it too. Every request but `Sleep` may fail.

use crate::common::plunger_error::{PlungerError, PlungerErrorView};
use vstd::prelude::*;

verus! {

/// One operation on the probe, the session or the halted core.
#[derive(Debug, Clone, Copy, PartialEq, Eq, Structural)]
pub enum ProbeRequest {
    /// Open the selected probe.
    Open,
    /// Detach the probe from whatever it is attached to.
    Detach,
    /// Attach to the named target.
    Attach,
    /// Attach to the named target while holding it in reset.
    AttachUnderReset,
    /// Attach to whatever target the probe detects.
    AttachAuto,
    /// Take the core with this index.
    Core { index: usize },
    /// Halt the core, waiting at most this long.
    Halt { timeout_ms: u64 },
    /// Ask whether the core is halted.
    CoreHalted,
    /// Read the 32-bit word at `address`.
    ReadWord32 { address: u32 },
    /// Read `len` bytes from `address` on.
    Read8 { address: u32, len: usize },
    /// Write the 32-bit word `value` to `address`.
    WriteWord32 { address: u32, value: u32 },
    /// Erase the whole chip with the probe layer's own routine.
    EraseAll,
    /// Let this much time pass.
    Sleep { micros: u64 },
}

/// What came of a request.
#[derive(Debug, Clone, PartialEq, Eq)]
pub enum ProbeReply {
    /// The operation was carried out and has nothing to report.
    Done,
    /// Whether the core is halted.
    Halted(bool),
    /// The word that was read.
    Word(u32),
    /// The bytes that were read.
    Bytes(Vec<u8>),
    /// The operation failed.
    Failed(PlungerError),
}

/// A `ProbeReply` with its bytes and texts as sequences.
pub enum ProbeReplyView {
    Done,
    Halted(bool),
    Word(u32),
    Bytes(Seq<u8>),
    Failed(PlungerErrorView),
}

impl View for ProbeReply {
    type V = ProbeReplyView;

    open spec fn view(&self) -> ProbeReplyView {
        match self {
            ProbeReply::Done => ProbeReplyView::Done,
            ProbeReply::Halted(halted) => ProbeReplyView::Halted(*halted),
            ProbeReply::Word(word) => ProbeReplyView::Word(*word),
            ProbeReply::Bytes(bytes) => ProbeReplyView::Bytes(bytes@),
            ProbeReply::Failed(err) => ProbeReplyView::Failed(err@),
        }
    }
}

impl ProbeReplyView {
    /// The reply is of the kind that `request` calls for: a word for a word
    /// read, as many bytes as were asked for, the halt state for the halt
    /// query, and `Done` for everything else. A failure answers nothing.
    pub open spec fn answers(self, request: ProbeRequest) -> bool {
        match request {
            ProbeRequest::CoreHalted => self is Halted,
            ProbeRequest::ReadWord32 { .. } => self is Word,
            ProbeRequest::Read8 { len, .. } => self matches ProbeReplyView::Bytes(bytes)
                && bytes.len() == len,
            _ => self is Done,
        }
    }
}

impl ProbeReply {
    /// Whether the reply is of the kind that `request` calls for.
    pub fn answers(&self, request: &ProbeRequest) -> (fits: bool)
        ensures
            fits == self@.answers(*request),
    {
        match request {
            ProbeRequest::CoreHalted => match self {
                ProbeReply::Halted(_) => true,
                _ => false,
            },
            ProbeRequest::ReadWord32 { .. } => match self {
                ProbeReply::Word(_) => true,
                _ => false,
            },
            ProbeRequest::Read8 { len, .. } => match self {
                ProbeReply::Bytes(bytes) => bytes.len() == *len,
                _ => false,
            },
            _ => match self {
                ProbeReply::Done => true,
                _ => false,
            },
        }
    }
}

/// The text of the error with which a run ends when a reply does not answer
/// the request that was pending.
pub const UNEXPECTED_REPLY: &'static str = "the reply does not answer the pending request";

} // verus!
