//! Verified core of a small windowed graphics demo.
//!
//! The demo opens a fixed-size window and draws one procedurally shaded
//! shape, animated by a per-frame uniform record. Everything the GPU and
//! windowing libraries decide for themselves stays outside; this crate
//! holds the parts that can be stated and proved: the byte layout of the
//! uniform record, the surface-dimension bookkeeping, the reaction to
//! window events and frame acquisition, and the wrap-around of the
//! animation phase.

pub mod animation;
pub mod events;
pub mod surface;
pub mod uniform;
