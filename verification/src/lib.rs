//! A multi-tenant note/board sharing service core.
//!
//! Users own boards, invite other users to boards with read/write
//! permissions, and create notes scoped to a board. The heart of the crate
//! is the permission evaluator in [`auth`], which gates every read, write,
//! update and delete against a caller's identity and their role relative to
//! a board (owner, invited reader, invited writer, or stranger). Identity is
//! established by comparing a one-way digest of a presented bearer token
//! against stored credential digests.

pub mod auth;
pub mod digest;
pub mod errors;
pub mod identity;
pub mod models;
pub mod modes;
pub mod provider;
pub mod service;
pub mod store;
pub mod table;
