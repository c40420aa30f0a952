use vstd::prelude::*;

verus! {

/// The reaction that the bot puts on a message of a game.
#[derive(Debug, Clone, Copy, PartialEq, Eq, Structural)]
pub enum Reaction {
    /// ✅: the move was taken.
    Approve,
    /// ❌: the move was refused.
    Reject,
}

/// What the bot answers to a message in one of its game channels.
#[derive(Debug)]
pub struct Reply {
    /// The reaction put on the message.
    pub reaction: Reaction,
    /// A short notice posted in the channel and deleted a few seconds later.
    pub notice: Option<String>,
    /// Whether the message itself is deleted together with the notice.
    pub delete_original: bool,
    /// A message posted in the channel that stays there.
    pub announcement: Option<String>,
}

/// The view of an optional text.
pub open spec fn opt_view(t: Option<String>) -> Option<Seq<char>> {
    match t {
        Some(s) => Some(s@),
        None => None,
    }
}

} // verus!
