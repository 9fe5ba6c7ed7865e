//! A chat-server verification agent: new members are challenged with a short
//! random token and receive a trusted role once they echo the token back in a
//! designated channel. An administrator can reconfigure the channel and role
//! at runtime.
//!
//! This crate holds the verified core: the configuration store, the
//! pending-verification table, command parsing, and the event-decision
//! functions. The hosting process performs the platform I/O and hands plain
//! values in and out.

pub mod config;
pub mod handler;
pub mod laws;
pub mod parse;
pub mod pending;
pub mod token;
