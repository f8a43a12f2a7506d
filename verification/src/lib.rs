//! A voxel ray-tracer library: scene parameters, GPU buffer layout,
//! dispatch planning, readback row handling and PNG encoding, with the
//! application tick logic, all verified.

use vstd::prelude::*;

pub mod app;
pub mod bytes;
pub mod readback;
pub mod render;
pub mod tracer;

verus! {

/// The ways the library can fail.
#[derive(Debug, Clone, Copy, PartialEq, Eq, Structural)]
pub enum TraceError {
    /// The requested output resolution is not a multiple of the workgroup
    /// size in both dimensions.
    InvalidResolution { width: u32, height: u32 },
    /// The PNG encoder rejected the image data.
    PngEncode,
}

/// Side length of one compute workgroup tile; the output resolution must be
/// a multiple of this in both dimensions.
pub const WORKGROUP_SIZE: u32 = 16;

/// Required alignment, in bytes, of a row stride in a texture-to-buffer copy.
pub const COPY_ALIGN: u32 = 256;

} // verus!
