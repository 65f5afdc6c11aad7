//! A multi-provider AI chat client adapter.
//!
//! The crate maps a provider tag to its connection parameters and
//! capabilities, builds normalized chat requests from role-tagged
//! messages, drives the streaming-completion event protocol, and plans
//! model discovery.  All of that logic is pure and verified; the
//! network transport around it lives outside this crate and hands it
//! plain values.

pub mod client;
pub mod models;
pub mod options;
pub mod provider;
pub mod stream;
pub mod text;
