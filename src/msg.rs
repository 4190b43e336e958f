use crate::game::{Game, Player};
use vstd::prelude::*;

verus! {

/// The message that sets the library up; it carries nothing.
#[derive(Clone, Debug, PartialEq, Eq)]
pub struct InstantiateMsg {}

/// The commands that change a session.
#[derive(Clone, Debug, PartialEq, Eq)]
pub enum ExecuteMsg {
    /// Invite a player to play a game.
    Invite {
        /// The address of the player to invite.
        guest: String,
    },
    /// Accept an invitation to play a game.
    Accept {
        /// The address of the player who invited you.
        host: String,
    },
    /// Reject an invitation to play a game.
    Reject {
        /// The address of the player who invited you.
        host: String,
    },
    /// Play a move in the game.
    Play {
        /// The address of the host of the game.
        host: String,
        /// The address of the guest of the game.
        guest: String,
        /// The cell to play in.
        cell: usize,
    },
}

/// The questions that read sessions.
#[derive(Clone, Debug, PartialEq, Eq)]
pub enum QueryMsg {
    /// Get all the games between two players.
    Games {
        /// The address of the host of the game.
        host: String,
        /// The address of the guest of the game.
        guest: String,
    },
    /// Get all the games for all players.
    AllGamesList {},
}

/// The information about games between two players.
#[derive(Clone, Debug, PartialEq)]
pub struct GamesInfo {
    pub host: String,
    pub guest: String,
    pub host_role: Player,
    pub guest_role: Player,
    pub pending_invitation: bool,
    pub current_game: Option<Game>,
    pub completed_games: Vec<Game>,
}

/// All the games between two players.
#[derive(Clone, Debug, PartialEq)]
pub struct GamesResponse {
    pub info: GamesInfo,
}

/// A list of games.
#[derive(Clone, Debug, PartialEq)]
pub struct AllGamesListResponse {
    pub games: Vec<GamesInfo>,
}

} // verus!
