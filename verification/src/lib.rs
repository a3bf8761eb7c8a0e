//! Core of a GPU-driven particle-field visualizer.
//!
//! The crate verifies the algorithmic heart of the pipeline: compute-dispatch
//! sizing, the grid enumeration that drives the field bake, the wireframe
//! reference-cell geometry, the per-frame state machine of the top-level
//! context (camera uniform refresh, ordered simulation phases, render-pass
//! composition, resize handling), and the surface-error recovery policy.
//! The unverifiable edges — device and surface acquisition, floating-point
//! shading math, and command submission — live outside, driven by the plans
//! and effects this crate returns.

pub mod context;
pub mod dispatch;
pub mod field;
pub mod surface;
pub mod wireframe;
