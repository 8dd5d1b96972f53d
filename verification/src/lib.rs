//! A verified model of a kernel-style busy-wait lock.
//!
//! The crate has two parts:
//! - [`spinlock`]: the core mutual-exclusion primitive — an opaque busy-wait
//!   lock with a two-phase construction/registration protocol, a scoped
//!   exclusive-access guard, and an interrupt-state-saving acquire/release
//!   pair specified against an explicit model of the local interrupt-enable
//!   state;
//! - [`ktime`]: monotonic-time arithmetic helpers, pure value computations
//!   over nanosecond counts.
//!
//! Reading the native clock itself is left to the surrounding program; the
//! library only computes on the values it is handed.

pub mod ktime;
pub mod spinlock;
