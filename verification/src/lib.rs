//! Verified core of a community-repository package-manager helper.
//!
//! The library decides; an embedding binary performs the outside work
//! (process spawning, HTTP, threads) and feeds the outcomes back in as
//! plain values.

pub mod clean;
pub mod commands;
pub mod error;
pub mod exit_code;
pub mod rpc;
pub mod sort;
pub mod strutil;
pub mod sudoloop;
pub mod upgrade;
