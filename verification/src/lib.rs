//! Core of a minimal real-time rendering engine: the GPU context lifecycle
//! and the fence-gated frame submission protocol.
//!
//! The library models the driver-facing side of the engine — device and
//! memory-type selection, swapchain configuration, the record/submit/reuse
//! command-buffer discipline, construction and reverse-order teardown of the
//! graphics context, and the per-frame acquire/record/submit/present cycle —
//! as verified code over a stub device that records every driver call.
//! The unverifiable edge (the real GPU driver, the window system, file I/O)
//! lives outside this crate and consults these functions for every decision.

pub mod context;
pub mod device;
pub mod memory;
pub mod resource;
pub mod shader;
pub mod stub;
pub mod submit;
pub mod swapchain;
