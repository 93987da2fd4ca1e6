//! The ways in which a run can fail inside the library.

use vstd::prelude::*;

verus! {

/// Why a step of a run was refused.
#[derive(Clone, Copy, Debug, PartialEq, Eq, Structural)]
pub enum Failure {
    /// Both a new conversation and an existing one were asked for.
    ConflictingSelection,
    /// The history holds no conversation with this id.
    UnknownConversation(i64),
    /// The completion service answered without any reply.
    NoReply,
    /// The reply carries no textual body.
    NoReplyBody,
    /// The history holds more conversations than an id can count.
    HistoryFull,
    /// An event arrived that the run was not waiting for.
    OutOfTurn,
}

} // verus!
