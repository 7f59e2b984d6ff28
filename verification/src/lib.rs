//! Relay rules for a chat channel shared by several bots: who wrote a
//! message, what a confirmation sentence names, what is remembered between
//! messages, and which command text goes out in answer.
//!
//! The library decides and the caller acts. Every function here takes plain
//! values and gives back what is to be sent or set; sending it, waiting and
//! locking are the caller's.
//!
//! - [`registry`]: the accounts the relay listens to and their roles.
//! - [`intent`]: the author named by a confirmation sentence.
//! - [`session`]: the two slots of remembered state.
//! - [`router`]: what one message of the channel does to the slots, and the
//!   answer to it.
//! - [`argument`]: the numeric argument of a stage command.
//! - [`commands`]: the text of each stage command and the calls of the
//!   reaction commands.
//! - [`decimal`], [`text`]: numbers as digits, and search in text.

pub mod argument;
pub mod commands;
pub mod decimal;
pub mod intent;
pub mod registry;
pub mod router;
pub mod session;
pub mod text;
