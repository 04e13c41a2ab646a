//! Verified core of a device-control library: a fixed-layout control-block
//! codec for synthetic input events, a resolver state machine that locates a
//! device's symbolic link in a kernel object directory, and a device session
//! state machine that survives handle invalidation.
//!
//! All operating-system calls (directory queries, device opens, control
//! requests) are performed by the host around this crate; the library makes
//! every decision and builds every value that crosses that boundary.

pub mod codec;
pub mod resolver;
pub mod session;
