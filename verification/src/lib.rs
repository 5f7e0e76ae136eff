//! State-transition logic of an append-only, linked message feed.
//!
//! The feed lives in fixed-size binary records, one per storage slot. A host
//! hands the handler an ordered list of slots and a payload; the handler
//! checks authorization, reads the slots as user or message records, writes
//! them in place and enforces the chain rules.
//!
//! * [`bytes`] holds identities and the operations on byte ranges.
//! * [`text`] validates a payload as UTF-8.
//! * [`record`] lays the two record kinds out over a byte buffer.
//! * [`account`] is the slot as the handler sees it.
//! * [`error`] lists why an instruction can be refused.
//! * [`processor`] is the handler and its transition function.
//! * [`laws`] states what holds of every instruction.
//! * [`chain`] states what holds of a chain built by a run of posts.

pub mod account;
pub mod bytes;
pub mod chain;
pub mod error;
pub mod laws;
pub mod processor;
pub mod record;
pub mod text;
