//! Verified core of the CTRE motor-controller bindings.
//!
//! The device itself is driven through the CTRE Phoenix C interface, which
//! lives outside this library: what is decided here is which calls are made,
//! with which raw arguments, and how the codes and values that come back are
//! combined.

pub mod canifier;
pub mod error;
pub mod mot;
pub mod motion;
pub mod param;
