//! Client core for a cloud device-management service: credential resolution,
//! session-token caching, and an authenticated request pipeline that
//! re-authenticates exactly once when the remote service reports an expired
//! token. Network and file I/O are left to the surrounding program; this crate
//! holds the decisions, the request and response shaping, and their proofs.

pub mod devices;
pub mod errors;
pub mod requests;
pub mod response;
pub mod session;
pub mod settings;
