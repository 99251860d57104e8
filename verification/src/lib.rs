//! An escrow-backed dare marketplace.
//!
//! A challenger locks funds against a task. A daree carries the task out,
//! submits a proof and, once the challenger approves, receives the funds. A
//! dare that runs out of time is resolved by anyone who cares to: the funds
//! go back to the challenger, or on to the daree whose proof the challenger
//! left unanswered.
//!
//! The library holds the rules: the lifecycle of a dare, who may move it on
//! and when, the custody of the escrow and the statistics of the
//! participants. It works on plain values. The host looks records up, says
//! who is calling and what time it is, and carries out the movement of funds
//! that a transition decides on.
//!
//! - [`state`]: the dare record and the statistics record, with their views.
//! - [`instructions`]: the transitions. For each, `rejection` says on which
//!   inputs it is rejected and why, `outcome` what it leaves otherwise.
//! - [`contract`]: the operations that the marketplace offers.
//! - [`vault`] and [`accounting`]: escrow custody and statistics.
//! - [`laws`] and [`history`]: what holds of every transition, and of every
//!   sequence of them.

pub mod accounting;
pub mod constants;
pub mod contract;
pub mod error;
pub mod history;
pub mod identity;
pub mod instructions;
pub mod laws;
pub mod state;
pub mod vault;
