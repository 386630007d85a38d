//! A bridge between a sandboxed script and the policy host that runs it.
//!
//! The script sees two globals: one hands out the single startup argument of the process,
//! the other forwards a request to the host and tells whether the host accepted it.

pub mod arguments;
pub mod bootstrap;
pub mod bridge;
pub mod engine;
pub mod error;
pub mod request;
