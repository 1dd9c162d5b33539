//! Core of a minimal real-time renderer: a 3D scene pass and a GUI overlay
//! pass composed into one command stream per frame.
//!
//! The crate models the per-frame state of the pipeline — surface and depth
//! dimensions, the accumulated model rotation, the uniform block contents,
//! and the exact order of operations recorded for a frame — and proves the
//! invariants that the composition relies on. The floating-point matrix
//! arithmetic and the platform's window, input and device negotiation live
//! with the caller; the library takes their results as plain values.

pub mod backend;
pub mod gpu;
pub mod renderer;
pub mod scene;
pub mod shell;
pub mod uniform;
pub mod vertex;
