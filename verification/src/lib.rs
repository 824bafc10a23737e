//! PBFT finality gadget: the verified core of the protocol.
//!
//! The [`leader`] module holds the message types, the voter set, the per-round
//! message log with its phase transitions, and the decisions a voter takes
//! between network steps. The [`simple`] module holds the same protocol in a
//! single-block form, where a view round finalizes one block and a view change
//! is decided by counting view-change votes.
pub mod leader;
pub mod simple;
