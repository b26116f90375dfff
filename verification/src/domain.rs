//! The ward, its beds and patients, and the rules that govern them.

pub mod bed;
pub mod constants;
pub mod hospital;
pub mod invariants;
pub mod laws;
pub mod patient;
pub mod refusal;
pub mod rules;
