//! A one-shot network diagnostic: resolve a host, learn the caller's public
//! address, test TCP reachability, and assemble the findings into a report.
//!
//! The network itself is reached by the caller: this crate decides what to
//! ask for and what the answers mean.

pub mod prober;
pub mod echo;
pub mod resolver;
pub mod timestamp;
pub mod report;
