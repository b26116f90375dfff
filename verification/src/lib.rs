//! Bed assignment for a hospital ward of two-bed rooms.
//!
//! The ward keeps one entry per bed and changes it only through the
//! operations of [`domain::hospital::Hospital`], each of which either commits
//! a coherent update or reports why it was refused.

pub mod domain;
