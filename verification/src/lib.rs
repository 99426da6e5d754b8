//! Core of an interactive volume renderer.
//!
//! The library models the three hard parts of the renderer as verified,
//! platform-independent logic:
//!
//! - [`app_state`]: the shared render state — canvas size, mouse/button
//!   tracking, the camera operation log, and the dirty flag that gates
//!   redraws.
//! - [`volumetric_3d`]: the GPU pipeline state machine — a linear chain of
//!   typed stages from an empty context through vertex setup, shader
//!   compilation, texture upload and metadata binding to a renderable
//!   program.  Each transition consumes its predecessor, so a stage can
//!   neither be skipped nor repeated.
//! - [`matrix`]: small integer vector/matrix helpers.
//!
//! Everything that talks to the platform (the graphics context, the DOM,
//! floating-point camera math) lives outside this crate; the library takes
//! the outcomes of those calls as plain values and decides what happens
//! next.

pub mod app_state;
pub mod matrix;
pub mod volumetric_3d;
