use crate::game::{Game, GameView, Player};
use vstd::prelude::*;

verus! {

/// The record kept for one ordered pair of players (host, guest).
#[derive(Clone, Debug, PartialEq)]
pub struct Games {
    /// The host has invited the guest and the guest has not answered yet.
    pub pending_invition: bool,
    /// The symbol of the host, fixed when the record is created.
    pub host: Player,
    /// The round being played, if any.
    pub current: Option<Game>,
    /// The finished rounds, oldest first.
    pub completed: Vec<Game>,
}

/// The abstract content of a session record.
pub struct GamesView {
    pub pending_invitation: bool,
    pub host: Player,
    pub current: Option<GameView>,
    pub completed: Seq<GameView>,
}

/// The abstract state of an optional round.
pub open spec fn round_view(g: Option<Game>) -> Option<GameView> {
    match g {
        Some(g) => Some(g@),
        None => None,
    }
}

impl View for Games {
    type V = GamesView;

    open spec fn view(&self) -> GamesView {
        GamesView {
            pending_invitation: self.pending_invition,
            host: self.host,
            current: round_view(self.current),
            completed: self.completed@.map_values(|g: Game| g@),
        }
    }
}

/// The abstract content of an optional record.
pub open spec fn record_view(r: Option<Games>) -> Option<GamesView> {
    match r {
        Some(r) => Some(r@),
        None => None,
    }
}

impl GamesView {
    /// A record is valid when the host holds one of the two player symbols and an
    /// invitation never waits while a round is being played.
    pub open spec fn wf(self) -> bool {
        &&& self.host != Player::Empty
        &&& !(self.pending_invitation && self.current is Some)
    }
}

} // verus!
