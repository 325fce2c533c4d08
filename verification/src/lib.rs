//! Keeps the machine awake on demand.
//!
//! A [`guard::SleepGuard`] owns at most one hold on the operating system's
//! power management. While it owns one, the display does not dim and the
//! machine neither idles out nor suspends; once the hold is given up, the
//! operating system is back to its normal behaviour.
//!
//! - [`model`]: the two states, their transitions, and the laws that hold of
//!   them.
//! - [`guard`]: the guard itself, for any kind of hold.
//! - [`options`]: what a request for a hold says to the operating system.
//! - [`system`]: the guard on the holds that the `keepawake` crate creates.

pub mod model;
pub mod guard;
pub mod options;
pub mod system;
