//! Assembly of validated, immutable connection tasks for monitored database
//! endpoints.
//!
//! A configured [`endpoint::Endpoint`] feeds a [`backend::TaskBuilder`], which
//! validates that both a target and a connectivity backend were chosen and
//! freezes them into an immutable [`backend::Task`]. Credentials are resolved
//! separately, as a pure function of the authentication mode.

pub mod backend;
pub mod endpoint;
