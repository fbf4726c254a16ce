//! The decisions of a Discord gateway handler, apart from the calls that carry them out.
//!
//! A message is screened ([`handler`]), taken in ([`intake`], [`starter`], [`prompt`]) and
//! answered ([`turn`], [`chunks`]); a slash command is answered too ([`slash`]). What takes more
//! than one call to Discord is a state machine: it says what to do next, and is told what came of
//! it.

pub mod callback;
pub mod chunks;
pub mod handler;
pub mod ids;
pub mod intake;
pub mod mention;
pub mod message;
pub mod prompt;
pub mod slash;
pub mod starter;
pub mod text;
pub mod turn;
