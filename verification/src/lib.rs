//! A verified round-arbitration engine for a group-chat trivia game.
//!
//! The engine broadcasts a question to a set of subscribers, accepts
//! free-text answers, and declares the first subscriber with a correct
//! answer the winner of the round.  Answer correctness is judged by an
//! external service when one is reachable, with a pure case-insensitive
//! fallback; calls to that service are spaced by a rate limiter.

pub mod engine;
pub mod errors;
pub mod judge;
pub mod limiter;
pub mod registry;
pub mod round;
pub mod source;
pub mod text;
