//! Tools for testing parallel compute workloads against host references.
//!
//! The crate has four parts:
//!
//! * [`composer`] deterministically concatenates ordered source fragments
//!   into one compilation unit, inserting location-reset directives so that
//!   compiler diagnostics map back to the original files and lines.
//! * [`descriptor`] describes a workload: named, typed, fixed-length buffer
//!   bindings, an optional constant block, and a positive three-dimensional
//!   dispatch extent, all validated eagerly at construction.
//! * [`harness`] tracks a submitted workload through its fixed state
//!   sequence, enforcing that each buffer is owned by exactly one side
//!   (host or device) at any instant and that a timed-out or lost workload
//!   is never accessed again.
//! * [`validator`] compares device-produced results against a host-computed
//!   reference, element for element, reporting the first mismatching index,
//!   and replays a seeded two-word generator in lock step.
//!
//! Reading fragments from disk, writing the composite unit, and driving the
//! external accelerator are left to the surrounding program; this crate
//! works on plain values and is verified.

pub mod composer;
pub mod descriptor;
pub mod errors;
pub mod harness;
pub mod validator;
