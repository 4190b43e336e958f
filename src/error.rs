use crate::game::GameError;
use vstd::prelude::*;

verus! {

/// cosmwasm_std::StdError, the host environment's error (a missing record, a malformed
/// address): declared so that the library can carry it; nothing is read from it.
#[verifier::external_type_specification]
#[verifier::external_body]
pub struct ExStdError(cosmwasm_std::StdError);

/// Why a command or a query was refused.
#[derive(Debug, PartialEq)]
pub enum ContractError {
    /// An error of the host environment, such as a session that does not exist.
    StdError(cosmwasm_std::StdError),
    /// The move itself was refused by the game rules.
    GameError(GameError),
    /// A round between the two players is still being played.
    GameInProgress { host: String, guest: String },
    /// The guest has no invitation from the host to answer.
    NoPendingInvitation { host: String, guest: String },
    /// No round is being played between the two players.
    NoGameInProgress { host: String, guest: String },
    /// The sender is neither the host nor the guest of the session.
    NotInvolved { host: String, guest: String, player: String },
}

} // verus!
