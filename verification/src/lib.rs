//! Commitment-state bookkeeping, withdrawal submission and bridge-account
//! queries for a rollup node.
//!
//! - [`execution`]: blocks and the commitment state, which never holds a
//!   firm block numbered above its soft block;
//! - [`bridge`]: the responses to bridge-account queries and their
//!   validation;
//! - [`query`]: what a bridge-account query reads and answers, step by
//!   step;
//! - [`startup`]: the handshake that precedes all submission;
//! - [`submitter`]: the decisions of the submitter, which submits batches
//!   one at a time in the order received;
//! - [`raw`]: the wire-level counterparts of the validated types;
//! - [`primitive`], [`abci`], [`text`], [`outcome`]: identifiers, response
//!   codes, decimal rendering and views of results;
//! - [`buffer`], [`hexadecimal`]: what is believed of the `bytes` and `hex`
//!   crates.

pub mod abci;
pub mod bridge;
pub mod buffer;
pub mod execution;
pub mod hexadecimal;
pub mod outcome;
pub mod primitive;
pub mod query;
pub mod raw;
pub mod startup;
pub mod submitter;
pub mod text;
