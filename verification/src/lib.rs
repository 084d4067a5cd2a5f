//! Capability and descriptor types for a cross-backend GPU abstraction.
//!
//! This crate holds the value types that describe what a GPU adapter can do
//! (features, limits), what resources a client wants created (buffers,
//! textures, samplers, bind groups, pipelines), and the pure rules that decide
//! whether a given combination of fields is legal before it reaches a native
//! driver. Device creation, command submission and the driver calls themselves
//! are outside collaborators: they consume the descriptors defined here and
//! hand back opaque resource handles.

use vstd::prelude::*;

pub mod backend;
pub mod binding;
pub mod blend;
pub mod buffer;
pub mod command;
pub mod device;
pub mod features;
pub mod limits;
pub mod pipeline;
pub mod pipeline_layout;
pub mod sampler;
pub mod swapchain;
pub mod texture;
pub mod vertex;

verus! {

/// Integral type used for buffer offsets.
pub type BufferAddress = u64;

/// Integral type used for buffer slice sizes; zero is never a legal size.
pub type BufferSize = u64;

/// Integral type used for binding locations in shaders.
pub type ShaderLocation = u32;

/// Integral type used for dynamic bind group offsets.
pub type DynamicOffset = u32;

/// Buffer-texture copies must have their bytes-per-row aligned to this number.
///
/// This applies to copy commands only, not to direct queue writes.
pub const COPY_BYTES_PER_ROW_ALIGNMENT: u32 = 256;

/// Bound uniform/storage buffer offsets must be aligned to this number.
pub const BIND_BUFFER_ALIGNMENT: u64 = 256;

/// Buffer-to-buffer copy offsets and sizes must be aligned to this number.
pub const COPY_BUFFER_ALIGNMENT: u64 = 4;

/// Push constant range starts and ends must be aligned to this number.
pub const PUSH_CONSTANT_ALIGNMENT: u32 = 4;

} // verus!
