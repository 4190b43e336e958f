//! A two-player tic-tac-toe engine and the session rules that pair players,
//! hand out symbols and keep the history of finished rounds.

pub mod error;
pub mod game;
pub mod msg;
pub mod state;
pub mod contract;
