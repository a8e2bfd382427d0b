//! Verified core of a container-control library over a native
//! handle-and-function-table interface.
//!
//! The native layer itself (allocation, handle reference counting, the
//! container operations) is modeled as explicit data so that the ownership
//! discipline the interface demands — every transferred allocation freed
//! exactly once, every acquired handle released exactly once, every transient
//! record pointing only at storage its builder owns — is stated in contracts
//! and proved.

pub mod args;
pub mod attach_options;
pub mod codec;
pub mod cvec;
pub mod error;
pub mod heap;
pub mod log_options;
pub mod lxc;
pub mod native;
pub mod strarray;
