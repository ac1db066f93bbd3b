//! Host-side core of a progressive GPU path tracer: the input state machine of
//! the camera controller, the accumulation bookkeeping, and the planning of
//! compute dispatches for the direct, mega-kernel and wavefront backends.
//!
//! Everything here is integer and boolean logic with machine-checked
//! contracts. Values that only the host can interpret (scalars of the camera
//! basis, pointer samples, ray payloads) are carried through as type
//! parameters and never inspected.

pub mod accumulation;
pub mod camera;
pub mod compute_pass;
pub mod controller;
pub mod model;
mod seed;
pub mod state;
pub mod wavefront;
