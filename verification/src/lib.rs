//! Synchronisation engine of a starboard: the rules that turn reaction events
//! into create, update and delete operations on mirror messages, and the
//! rendering of a mirror message from the message it summarises.

pub mod config;
pub mod engine;
pub mod laws;
pub mod links;
pub mod message;
pub mod render;
pub mod tally;
pub mod text;
