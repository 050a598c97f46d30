//! Core logic of a sequential account-registration batch tool.
//!
//! A batch derives one email alias per index in a configured range and runs
//! one registration cycle per alias. Each cycle submits a registration form,
//! waits for a verification email to arrive in a remote mailbox, extracts a
//! six-digit code from the newest message, and finishes the sign-up. The
//! mailbox is watched through a watermark (the last seen total message
//! count), so each poll inspects at most one message.
//!
//! This crate holds the decision logic: code extraction, watermark tracking,
//! the poll loop, the per-cycle step order, alias derivation, and fail-fast
//! batch sequencing. The browser and the network are driven by the caller,
//! which feeds observations in and carries actions out.

pub mod alias;
pub mod auth;
pub mod batch;
pub mod bytes;
pub mod codes;
pub mod config;
pub mod cycle;
pub mod errors;
pub mod mailbox;
pub mod tracker;
