//! Wire-level message shapes.
//!
//! These mirror what travels between nodes: every field is optional or
//! unvalidated exactly as the wire format leaves it. The validated
//! counterparts live in [`crate::execution`], [`crate::bridge`] and
//! [`crate::primitive`].

pub mod bridge;
pub mod execution;
pub mod primitive;
