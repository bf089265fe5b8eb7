//! Loads one mail account's connection details and drives a single
//! fetch-and-store cycle of the first message in its inbox.
//!
//! The database and network work happens outside this crate: callers hand the
//! library the rows and protocol outcomes they observed, and the library decides
//! what the result is and what must happen next.

pub mod account;
pub mod laws;
pub mod session;
mod text;
