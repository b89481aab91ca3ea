//! A record-keeping backend for a research-funding workflow: a store
//! of five related entity tables (researchers, proposals, milestones,
//! reviews, reproduction proofs) with monotonic id assignment,
//! per-operation validation, and referential integrity between
//! parents and children. The host passes caller identity and time in
//! as plain values; transport and persistence framing stay outside.

pub mod entities;
pub mod laws;
pub mod store;
pub mod text;
