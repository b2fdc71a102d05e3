//! Decisions of the remote-run protocol and of the session channel it feeds.
//!
//! A remote-run target is reached in one of three ways: by running commands before the
//! login, by asking a provisioning service for a host, or by attaching to a pod with
//! `kubectl`. [`runner::RemoteRunner`] says what to do for each; [`session::SessionChannel`]
//! carries the data of the channel that comes out of it.
//!
//! Nothing here performs input or output. A caller fetches, runs and sends, and hands the
//! outcome back as a plain value.

pub mod error;
pub mod json;
pub mod kubectl;
pub mod laws;
pub mod options;
pub mod provision;
pub mod runner;
pub mod session;
pub mod text;
