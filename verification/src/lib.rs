//! State engine for a chat-driven tabletop-game assistant.
//!
//! The library tracks logged-in players, campaigns bound to chat channels,
//! and channel-scoped monsters, and validates a small command protocol that
//! mutates this state and produces a single user-facing reply per command.
//! Chat-wire delivery and the on-disk storage of records are left to the
//! surrounding program; the library works on plain values.

pub mod commands;
pub mod entity;
pub mod func;
pub mod game;
pub mod monster;
pub mod player;
pub mod stats;
pub mod store;
pub mod text;
pub mod world;

use vstd::prelude::*;

verus! {

/// The failure taxonomy of the library.
///
/// `NotFound`: a referenced user, game, monster or record does not exist.
/// `InvalidInput`: malformed identifier syntax, a non-numeric index, or a
/// missing required context (such as a monster reference without a channel).
/// `Propagated`: a semantically valid but rejected command; carries the
/// identity to reply to and the user-facing message.
#[derive(Debug)]
pub enum BotError {
    NotFound(String),
    InvalidInput(String),
    Propagated(String, String),
}

pub type BotResult<T> = Result<T, BotError>;

} // verus!
