//! Core of a real-time 2D sprite rendering engine: geometry accumulation into
//! layers, texture-atlas bucket assignment, blend-mode state, and a
//! render-target stack with scoped redirection.
//!
//! The library owns the decision and bookkeeping logic. Screen output, GPU
//! calls and file reads are performed by the embedding application, which
//! receives fully resolved draw descriptions from the functions here.
//!
//! All fractional quantities (coordinates, angles, color channels) are carried
//! as opaque 32-bit scalar payloads ([`scalar::Scalar`]); the engine core never
//! interprets them numerically, it only routes them into vertices, uniforms
//! and draw descriptions.

pub mod scalar;
pub mod color;
pub mod fontquery;
pub mod buffer;
pub mod blendmode;
pub mod program;
pub mod layer;
pub mod renderer;
pub mod postprocess;
pub mod scene;

use vstd::prelude::*;

verus! {

/// Engine errors surfaced to the caller. Errors from the engine's outside
/// collaborators (image decoding, file reads, shader compilation) are carried
/// as their messages.
#[derive(Debug)]
pub enum Error {
    /// An image could not be decoded or converted.
    ImageError(String),
    /// A shader source was rejected.
    ShaderError(String),
    /// An input or output operation failed.
    IoError(String),
    /// Unspecified failure.
    Failed,
}

} // verus!
