//! Observation encoding and bridge protocol for a turn-taking agent that plays
//! a multiplayer board game running on a worker of its own.
//!
//! The encoder turns a snapshot of the game into fixed-shape numeric arrays, seen
//! from one seat. The bridge decides which calls of `start`, `play` and `result`
//! are in order and what record each observation becomes.

pub mod relative;
pub mod arrays;
pub mod state;
pub mod format;
pub mod layout;
pub mod observation;
pub mod bridge;
pub mod environment;
pub mod perspective;
