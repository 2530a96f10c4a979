//! The filler opponent: an automated participant that plays random moves.
use vstd::prelude::*;
use crate::protocol::{choice_label, Choice, ServerMessage};
use crate::session::PlayerChoice;

verus! {

/// Delay, in milliseconds, before a filler plays in a new round.
pub const FILLER_MOVE_DELAY_MS: u64 = 3000;

/// Relies on `rand::Rng::gen_range` over `0..3` with the thread-local
/// generator: a value below 3 (the range is not empty, so it cannot panic).
#[verifier::external_body]
fn random_below_three() -> (r: usize)
    ensures
        r < 3,
{
    rand::Rng::gen_range(&mut rand::thread_rng(), 0..3)
}

/// The move with index 0, 1 or 2.
pub open spec fn choice_at(i: int) -> Choice {
    if i == 0 {
        Choice::Rock
    } else if i == 1 {
        Choice::Paper
    } else {
        Choice::Scissors
    }
}

/// The move with index `i`: rock, paper, scissors.
pub fn choice_from_index(i: usize) -> (r: Choice)
    requires
        i < 3,
    ensures
        r == choice_at(i as int),
{
    if i == 0 {
        Choice::Rock
    } else if i == 1 {
        Choice::Paper
    } else {
        Choice::Scissors
    }
}

/// A move picked uniformly at random.
pub fn random_choice() -> (r: Choice)
    ensures
        exists|i: int| 0 <= i < 3 && r == choice_at(i),
{
    let i = random_below_three();
    choice_from_index(i)
}

/// What a filler does about a session frame.
#[derive(Clone, Copy, Debug, PartialEq, Eq, Structural)]
pub enum FillerReaction {
    /// Nothing.
    Ignore,
    /// Play a move after [`FILLER_MOVE_DELAY_MS`].
    PlayLater,
}

/// The state of a filler opponent.
pub struct AiPlayerActor {
    pub user_id: String,
    /// Whether a session is attached.
    pub has_session: bool,
    /// Set once a match is found; from then on every round start brings a
    /// delayed move.
    pub auto_play_enabled: bool,
}

impl AiPlayerActor {
    pub fn new(user_id: String) -> (r: AiPlayerActor)
        ensures
            r.user_id == user_id,
            !r.has_session,
            !r.auto_play_enabled,
    {
        AiPlayerActor { user_id, has_session: false, auto_play_enabled: false }
    }

    /// Reacts to a frame that the session sends: a match found enables
    /// automatic play; a round start then asks for a delayed move; anything
    /// else is ignored.
    pub fn handle(&mut self, msg: &ServerMessage) -> (r: FillerReaction)
        ensures
            final(self).user_id == old(self).user_id,
            final(self).has_session == old(self).has_session,
            final(self).auto_play_enabled == (old(self).auto_play_enabled
                || msg is MatchFound),
            r == if msg is RoundStart && old(self).auto_play_enabled {
                FillerReaction::PlayLater
            } else {
                FillerReaction::Ignore
            },
    {
        match msg {
            ServerMessage::RoundStart { .. } => {
                if self.auto_play_enabled {
                    FillerReaction::PlayLater
                } else {
                    FillerReaction::Ignore
                }
            },
            ServerMessage::MatchFound { .. } => {
                self.auto_play_enabled = true;
                FillerReaction::Ignore
            },
            _ => FillerReaction::Ignore,
        }
    }

    /// The move with index `i` for the attached session, if there is one.
    pub fn choice_with_index(&self, i: usize) -> (r: Option<PlayerChoice>)
        requires
            i < 3,
        ensures
            self.has_session ==> (r matches Some(c) && c.user_id@ == self.user_id@ && c.choice@
                == choice_label(choice_at(i as int))),
            !self.has_session ==> r is None,
    {
        if self.has_session {
            let c = choice_from_index(i);
            Some(PlayerChoice { user_id: self.user_id.clone(), choice: c.label() })
        } else {
            None
        }
    }

    /// A random move for the attached session, if there is one.
    pub fn make_random_choice(&self) -> (r: Option<PlayerChoice>)
        ensures
            match r {
                Some(c) => self.has_session && c.user_id@ == self.user_id@ && exists|i: int|
                    0 <= i < 3 && c.choice@ == choice_label(choice_at(i)),
                None => !self.has_session,
            },
    {
        let i = random_below_three();
        self.choice_with_index(i)
    }

    /// A session is attached. The first attachment brings an immediate
    /// move, so that the first round does not wait on the filler.
    pub fn attach_session(&mut self) -> (r: Option<PlayerChoice>)
        ensures
            final(self).has_session,
            final(self).user_id == old(self).user_id,
            final(self).auto_play_enabled == old(self).auto_play_enabled,
            old(self).has_session ==> r is None,
            !old(self).has_session ==> (r matches Some(c) && c.user_id@ == old(self).user_id@
                && exists|i: int| 0 <= i < 3 && c.choice@ == choice_label(choice_at(i))),
    {
        let i = random_below_three();
        self.attach_session_with_index(i)
    }

    /// A session is attached, with `i` the index of the move to play at
    /// once on a first attachment; a later attachment plays nothing.
    pub fn attach_session_with_index(&mut self, i: usize) -> (r: Option<PlayerChoice>)
        requires
            i < 3,
        ensures
            final(self).has_session,
            final(self).user_id == old(self).user_id,
            final(self).auto_play_enabled == old(self).auto_play_enabled,
            old(self).has_session ==> r is None,
            !old(self).has_session ==> (r matches Some(c) && c.user_id@ == old(self).user_id@
                && c.choice@ == choice_label(choice_at(i as int))),
    {
        if self.has_session {
            return None;
        }
        self.has_session = true;
        self.choice_with_index(i)
    }
}

} // verus!
