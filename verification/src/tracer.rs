//! The ray-march pipeline's host-side data: scene parameter records, their
//! GPU buffer layout, and the per-dispatch plan.
//!
//! Scalars that the shader reads as 32-bit floats are carried here as their
//! IEEE-754 bit patterns (`*_bits` fields and the `Vec3Bits` / `Vec4Bits`
//! components): the GPU buffer layout depends only on those 32-bit words,
//! and the host converts with `f32::to_bits` at the boundary.

use vstd::prelude::*;
use crate::bytes::{le32, le32i, zeros, push_u32_le, push_i32_le, push_zeros};
use crate::readback::{
    spec_padded_bytes_per_row, padded_bytes_per_row, trimmed_rows, png_encoding,
    encode_frame_png,
};
use crate::{TraceError, WORKGROUP_SIZE, COPY_ALIGN};

verus! {

/// Byte size of the packed [`Uniforms`] record.
pub const UNIFORMS_BYTE_LEN: usize = 112;

/// Byte size of the packed [`Camera`] record.
pub const CAMERA_BYTE_LEN: usize = 32;

/// Byte stride of one packed [`Voxel`] in the grid storage buffer.
pub const VOXEL_BYTE_LEN: usize = 32;

/// A two-component vector of 32-bit unsigned integers.
#[derive(Debug, Clone, Copy, PartialEq, Eq, Structural)]
pub struct UVec2 {
    pub x: u32,
    pub y: u32,
}

/// A three-component float vector, carried as IEEE-754 bit patterns.
#[derive(Debug, Clone, Copy, PartialEq, Eq, Structural)]
pub struct Vec3Bits {
    pub x: u32,
    pub y: u32,
    pub z: u32,
}

/// A four-component float vector, carried as IEEE-754 bit patterns.
#[derive(Debug, Clone, Copy, PartialEq, Eq, Structural)]
pub struct Vec4Bits {
    pub x: u32,
    pub y: u32,
    pub z: u32,
    pub w: u32,
}

/// A three-component vector of 32-bit signed integers: a lattice position.
#[derive(Debug, Clone, Copy, PartialEq, Eq, Structural)]
pub struct IVec3 {
    pub x: i32,
    pub y: i32,
    pub z: i32,
}

/// The scene-wide uniforms, one record per dispatch.
#[derive(Debug, Clone, Copy, PartialEq, Eq, Structural)]
pub struct Uniforms {
    /// Seconds since program start, as a float bit pattern.
    pub time_bits: u32,
    /// Monotonic frame counter.
    pub frames: u32,
    /// Ray-march iteration cap.
    pub max_steps: u32,
    /// Number of voxels in the grid buffer.
    pub voxel_amount: u32,
    /// Output image size in pixels; fixed per pipeline instance.
    pub resolution: UVec2,
    /// RGBA written on a ray miss.
    pub background_color: Vec4Bits,
    /// RGBA of the ground plane.
    pub floor_color: Vec4Bits,
    /// RGB fallback albedo.
    pub object_color: Vec3Bits,
    /// World-space point light position.
    pub light_position: Vec3Bits,
    /// Light strength, as a float bit pattern.
    pub sun_intensity_bits: u32,
    /// Soft-min constant for SDF blending, as a float bit pattern.
    pub smoothing_bits: u32,
    /// Ambient-occlusion sample count.
    pub ambient_occlusion: i32,
}

/// The virtual camera.
#[derive(Debug, Clone, Copy, PartialEq, Eq, Structural)]
pub struct Camera {
    pub position: Vec3Bits,
    pub look_at: Vec3Bits,
    /// Positive scalar, as a float bit pattern.
    pub zoom_bits: u32,
}

/// A unit cube at an integer lattice position with a solid linear-RGB color.
#[derive(Debug, Clone, Copy, PartialEq, Eq, Structural)]
pub struct Voxel {
    pub position: IVec3,
    pub color: Vec3Bits,
}

impl Voxel {
    /// Construct a new [`Voxel`].
    pub fn new(position: IVec3, color: Vec3Bits) -> (r: Self)
        ensures
            r.position == position,
            r.color == color,
    {
        Voxel { position, color }
    }
}

/// The ordered sequence of voxels the shader iterates.
#[derive(Debug, Clone)]
pub struct VoxelGrid(pub Vec<Voxel>);

/// The packed bytes of a three-component float vector inside a struct whose
/// next member is 16-byte aligned: three words and four bytes of padding.
pub open spec fn spec_vec3_bytes(v: Vec3Bits) -> Seq<u8> {
    le32(v.x) + le32(v.y) + le32(v.z)
}

/// The packed bytes of a four-component float vector.
pub open spec fn spec_vec4_bytes(v: Vec4Bits) -> Seq<u8> {
    le32(v.x) + le32(v.y) + le32(v.z) + le32(v.w)
}

/// The packed bytes of a lattice position.
pub open spec fn spec_ivec3_bytes(v: IVec3) -> Seq<u8> {
    le32i(v.x) + le32i(v.y) + le32i(v.z)
}

/// The uniform-buffer layout of [`Uniforms`]: members at their std140
/// offsets, with explicit padding so that two-component vectors sit on
/// 8-byte and four-component vectors on 16-byte boundaries, and the record
/// size is a multiple of its 16-byte alignment.
pub open spec fn spec_uniforms_bytes(u: Uniforms) -> Seq<u8> {
    le32(u.time_bits)                   // offset 0
        + le32(u.frames)                // offset 4
        + le32(u.max_steps)             // offset 8
        + le32(u.voxel_amount)          // offset 12
        + le32(u.resolution.x)          // offset 16
        + le32(u.resolution.y)          // offset 20
        + zeros(8)                      // pad to the 16-byte boundary
        + spec_vec4_bytes(u.background_color)  // offset 32
        + spec_vec4_bytes(u.floor_color)       // offset 48
        + spec_vec3_bytes(u.object_color)      // offset 64
        + zeros(4)                      // pad to the next 16-byte boundary
        + spec_vec3_bytes(u.light_position)    // offset 80
        + le32(u.sun_intensity_bits)    // offset 92
        + le32(u.smoothing_bits)        // offset 96
        + le32i(u.ambient_occlusion)    // offset 100
        + zeros(8)                      // pad the record size to 112
}

/// The background color occupies exactly bytes 32 to 48 of the packed
/// uniforms: editing it between two dispatches changes those bytes of the
/// uploaded buffer to the new color's words and leaves every other byte as
/// it was.
pub proof fn lemma_background_edit_localized(u1: Uniforms, u2: Uniforms)
    requires
        u2 == (Uniforms { background_color: u2.background_color, ..u1 }),
    ensures
        spec_uniforms_bytes(u1).len() == spec_uniforms_bytes(u2).len(),
        spec_uniforms_bytes(u2).subrange(32, 48) == spec_vec4_bytes(u2.background_color),
        forall|i: int| 0 <= i < UNIFORMS_BYTE_LEN && !(32 <= i < 48)
            ==> spec_uniforms_bytes(u1)[i] == spec_uniforms_bytes(u2)[i],
{
    assert(spec_uniforms_bytes(u2).subrange(32, 48) =~= spec_vec4_bytes(u2.background_color));
    assert forall|i: int| 0 <= i < UNIFORMS_BYTE_LEN && !(32 <= i < 48)
        implies spec_uniforms_bytes(u1)[i] == spec_uniforms_bytes(u2)[i]
    by {
        assert(spec_uniforms_bytes(u1)[i] == spec_uniforms_bytes(u2)[i]);
    }
}

/// The uniform-buffer layout of [`Camera`]: two 16-byte-aligned
/// three-component vectors with the zoom scalar packed into the second
/// vector's tail slot.
pub open spec fn spec_camera_bytes(c: Camera) -> Seq<u8> {
    spec_vec3_bytes(c.position)         // offset 0
        + zeros(4)                      // pad to the 16-byte boundary
        + spec_vec3_bytes(c.look_at)    // offset 16
        + le32(c.zoom_bits)             // offset 28
}

/// The storage-buffer layout of one [`Voxel`]: a 16-byte-aligned lattice
/// position followed by a 16-byte-aligned color, 32 bytes in all.
pub open spec fn spec_voxel_bytes(v: Voxel) -> Seq<u8> {
    spec_ivec3_bytes(v.position)
        + zeros(4)
        + spec_vec3_bytes(v.color)
        + zeros(4)
}

/// The storage-buffer layout of the whole grid: each voxel's 32 bytes in
/// sequence order, with no length prefix.
pub open spec fn spec_grid_bytes(g: Seq<Voxel>) -> Seq<u8>
    decreases g.len(),
{
    if g.len() == 0 {
        Seq::empty()
    } else {
        spec_grid_bytes(g.drop_last()) + spec_voxel_bytes(g.last())
    }
}

/// The packed grid occupies exactly 32 bytes per voxel.
pub proof fn lemma_grid_bytes_len(g: Seq<Voxel>)
    ensures
        spec_grid_bytes(g).len() == (VOXEL_BYTE_LEN as int) * g.len(),
    decreases g.len(),
{
    if g.len() > 0 {
        lemma_grid_bytes_len(g.drop_last());
    }
}

/// Append the packed bytes of a three-component float vector.
fn push_vec3(out: &mut Vec<u8>, v: &Vec3Bits)
    ensures
        final(out)@ == old(out)@ + spec_vec3_bytes(*v),
{
    push_u32_le(out, v.x);
    push_u32_le(out, v.y);
    push_u32_le(out, v.z);
    assert(out@ =~= old(out)@ + spec_vec3_bytes(*v));
}

/// Append the packed bytes of a four-component float vector.
fn push_vec4(out: &mut Vec<u8>, v: &Vec4Bits)
    ensures
        final(out)@ == old(out)@ + spec_vec4_bytes(*v),
{
    push_u32_le(out, v.x);
    push_u32_le(out, v.y);
    push_u32_le(out, v.z);
    push_u32_le(out, v.w);
    assert(out@ =~= old(out)@ + spec_vec4_bytes(*v));
}

/// Append the packed bytes of a lattice position.
fn push_ivec3(out: &mut Vec<u8>, v: &IVec3)
    ensures
        final(out)@ == old(out)@ + spec_ivec3_bytes(*v),
{
    push_i32_le(out, v.x);
    push_i32_le(out, v.y);
    push_i32_le(out, v.z);
    assert(out@ =~= old(out)@ + spec_ivec3_bytes(*v));
}

/// Serialize the uniforms into their GPU buffer bytes.
pub fn uniforms_to_bytes(u: &Uniforms) -> (r: Vec<u8>)
    ensures
        r@ == spec_uniforms_bytes(*u),
        r@.len() == UNIFORMS_BYTE_LEN,
{
    let mut out: Vec<u8> = Vec::new();
    push_u32_le(&mut out, u.time_bits);
    push_u32_le(&mut out, u.frames);
    push_u32_le(&mut out, u.max_steps);
    push_u32_le(&mut out, u.voxel_amount);
    push_u32_le(&mut out, u.resolution.x);
    push_u32_le(&mut out, u.resolution.y);
    push_zeros(&mut out, 8);
    push_vec4(&mut out, &u.background_color);
    push_vec4(&mut out, &u.floor_color);
    push_vec3(&mut out, &u.object_color);
    push_zeros(&mut out, 4);
    push_vec3(&mut out, &u.light_position);
    push_u32_le(&mut out, u.sun_intensity_bits);
    push_u32_le(&mut out, u.smoothing_bits);
    push_i32_le(&mut out, u.ambient_occlusion);
    push_zeros(&mut out, 8);
    assert(out@ =~= spec_uniforms_bytes(*u));
    out
}

/// Serialize the camera into its GPU buffer bytes.
pub fn camera_to_bytes(c: &Camera) -> (r: Vec<u8>)
    ensures
        r@ == spec_camera_bytes(*c),
        r@.len() == CAMERA_BYTE_LEN,
{
    let mut out: Vec<u8> = Vec::new();
    push_vec3(&mut out, &c.position);
    push_zeros(&mut out, 4);
    push_vec3(&mut out, &c.look_at);
    push_u32_le(&mut out, c.zoom_bits);
    assert(out@ =~= spec_camera_bytes(*c));
    out
}

/// Append the packed bytes of one voxel.
fn push_voxel(out: &mut Vec<u8>, v: &Voxel)
    ensures
        final(out)@ == old(out)@ + spec_voxel_bytes(*v),
{
    push_ivec3(out, &v.position);
    push_zeros(out, 4);
    push_vec3(out, &v.color);
    push_zeros(out, 4);
    assert(out@ =~= old(out)@ + spec_voxel_bytes(*v));
}

/// Serialize the voxel grid into its storage-buffer bytes.
pub fn grid_to_bytes(grid: &VoxelGrid) -> (r: Vec<u8>)
    ensures
        r@ == spec_grid_bytes(grid.0@),
        r@.len() == (VOXEL_BYTE_LEN as int) * grid.0@.len(),
{
    let mut out: Vec<u8> = Vec::new();
    let mut i: usize = 0;
    while i < grid.0.len()
        invariant
            i <= grid.0@.len(),
            out@ == spec_grid_bytes(grid.0@.take(i as int)),
        decreases grid.0@.len() - i,
    {
        push_voxel(&mut out, &grid.0[i]);
        i = i + 1;
        proof {
            assert(grid.0@.take(i as int).drop_last() =~= grid.0@.take(i as int - 1));
            assert(grid.0@.take(i as int).last() == grid.0@[i as int - 1]);
        }
    }
    proof {
        assert(grid.0@.take(grid.0@.len() as int) =~= grid.0@);
        lemma_grid_bytes_len(grid.0@);
    }
    out
}

/// Everything one compute dispatch needs, ready for upload: the three packed
/// parameter buffers and the workgroup counts.
#[derive(Debug)]
pub struct DispatchPlan {
    /// Contents of the uniform buffer at binding 0.
    pub uniform_bytes: Vec<u8>,
    /// Contents of the uniform buffer at binding 1.
    pub camera_bytes: Vec<u8>,
    /// Contents of the read-only storage buffer at binding 2.
    pub grid_bytes: Vec<u8>,
    /// Workgroup counts of the dispatch over the output image.
    pub workgroups: (u32, u32, u32),
}

/// The host side of the compute pipeline: it owns the target resolution,
/// plans each dispatch, and drives the readback path.
pub struct Tracer {
    resolution: (u32, u32),
}

impl Tracer {
    /// The target resolution in pixels.
    pub closed spec fn spec_resolution(self) -> (u32, u32) {
        self.resolution
    }

    /// The resolution is a multiple of the workgroup size in both
    /// dimensions, so the dispatch grid tiles the output image exactly.
    pub open spec fn wf(self) -> bool {
        &&& self.spec_resolution().0 % WORKGROUP_SIZE == 0
        &&& self.spec_resolution().1 % WORKGROUP_SIZE == 0
    }

    /// Construct a new [`Tracer`] for the resolution the uniforms carry.
    /// A resolution that does not tile into whole workgroups is an
    /// invariant violation and is rejected here, before any dispatch.
    pub fn new(uniforms: &Uniforms) -> (r: Result<Self, TraceError>)
        ensures
            r is Ok <==> (uniforms.resolution.x % WORKGROUP_SIZE == 0
                && uniforms.resolution.y % WORKGROUP_SIZE == 0),
            r matches Ok(t) ==> t.wf() && t.spec_resolution()
                == (uniforms.resolution.x, uniforms.resolution.y),
            r matches Err(e) ==> e == (TraceError::InvalidResolution {
                width: uniforms.resolution.x,
                height: uniforms.resolution.y,
            }),
    {
        let width = uniforms.resolution.x;
        let height = uniforms.resolution.y;
        if width % WORKGROUP_SIZE == 0 && height % WORKGROUP_SIZE == 0 {
            Ok(Tracer { resolution: (width, height) })
        } else {
            Err(TraceError::InvalidResolution { width, height })
        }
    }

    /// Exact resolution getter.
    pub fn resolution(&self) -> (r: (u32, u32))
        ensures
            r == self.spec_resolution(),
    {
        self.resolution
    }

    /// Number of pixels in the output texture.
    pub fn pixel_count(&self) -> (n: u64)
        ensures
            n == self.spec_resolution().0 as int * self.spec_resolution().1 as int,
    {
        proof {
            assert(self.spec_resolution().0 as int * self.spec_resolution().1 as int
                <= 0xffff_ffff * 0xffff_ffff) by (nonlinear_arith)
                requires
                    self.spec_resolution().0 <= 0xffff_ffffu32,
                    self.spec_resolution().1 <= 0xffff_ffffu32,
            ;
        }
        (self.resolution.0 as u64) * (self.resolution.1 as u64)
    }

    /// Plan one dispatch: pack the three parameter buffers exactly as the
    /// bind-group layout declares them, and tile the output image into
    /// workgroups.
    pub fn trace(&self, uniforms: &Uniforms, grid: &VoxelGrid, camera: &Camera) -> (p: DispatchPlan)
        requires
            self.wf(),
            uniforms.resolution.x == self.spec_resolution().0,
            uniforms.resolution.y == self.spec_resolution().1,
            uniforms.voxel_amount as int == grid.0@.len(),
        ensures
            p.uniform_bytes@ == spec_uniforms_bytes(*uniforms),
            p.camera_bytes@ == spec_camera_bytes(*camera),
            p.grid_bytes@ == spec_grid_bytes(grid.0@),
            p.workgroups == (
                self.spec_resolution().0 / WORKGROUP_SIZE,
                self.spec_resolution().1 / WORKGROUP_SIZE,
                1u32,
            ),
    {
        let uniform_bytes = uniforms_to_bytes(uniforms);
        let camera_bytes = camera_to_bytes(camera);
        let grid_bytes = grid_to_bytes(grid);
        DispatchPlan {
            uniform_bytes,
            camera_bytes,
            grid_bytes,
            workgroups: (
                self.resolution.0 / WORKGROUP_SIZE,
                self.resolution.1 / WORKGROUP_SIZE,
                1,
            ),
        }
    }

    /// Size in bytes of the host-visible buffer a readback copy fills: one
    /// aligned row stride per pixel row.
    pub fn readback_buffer_size(&self) -> (n: u64)
        requires
            4 * self.spec_resolution().0 + COPY_ALIGN - 1 <= u32::MAX,
        ensures
            n == spec_padded_bytes_per_row(self.spec_resolution().0 as int)
                * self.spec_resolution().1,
    {
        let padded = padded_bytes_per_row(self.resolution.0);
        proof {
            assert((padded as int) * (self.resolution.1 as int)
                <= 0xffff_ffff * 0xffff_ffff) by (nonlinear_arith)
                requires
                    padded <= 0xffff_ffffu32,
                    self.resolution.1 <= 0xffff_ffffu32,
            ;
        }
        (padded as u64) * (self.resolution.1 as u64)
    }

    /// Turn a readback buffer, whose rows are padded to the copy alignment,
    /// into the PNG bytes of the frame: each row is trimmed to the tight
    /// `4 * width` bytes, so the encoded image is exactly the rendered
    /// resolution.
    pub fn frame_to_image(&self, data: &Vec<u8>) -> (r: Result<Vec<u8>, TraceError>)
        requires
            self.spec_resolution().0 >= 1,
            4 * self.spec_resolution().0 + COPY_ALIGN - 1 <= u32::MAX,
            data@.len() == spec_padded_bytes_per_row(self.spec_resolution().0 as int)
                * self.spec_resolution().1,
        ensures
            r matches Ok(png) ==> png@ == png_encoding(
                trimmed_rows(
                    data@,
                    self.spec_resolution().0 as int,
                    self.spec_resolution().1 as int,
                    spec_padded_bytes_per_row(self.spec_resolution().0 as int),
                ),
                self.spec_resolution().0 as int,
                self.spec_resolution().1 as int,
            ),
            self.spec_resolution().1 >= 1 ==> r is Ok,
            r matches Err(e) ==> e == TraceError::PngEncode,
    {
        let width = self.resolution.0;
        let height = self.resolution.1;
        let padded = padded_bytes_per_row(width);
        encode_frame_png(data, width, height, padded)
    }
}

} // verus!
