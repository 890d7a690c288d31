//! A governance engine for an account shared by a group of trusted parties,
//! and a queue that forwards calls to other contracts.
//!
//! Proposers submit actions, board members sign them, and an action runs once
//! enough current board members have signed it.
pub mod address;
pub mod forwarder_queue;
pub mod user_role;
pub mod action;
pub mod model;
mod seq_facts;
pub mod multisig;
pub mod laws;
