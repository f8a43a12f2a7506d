use voxeltracer::tracer::{
    camera_to_bytes, grid_to_bytes, uniforms_to_bytes, Camera, IVec3, Tracer, Uniforms, UVec2,
    Vec3Bits, Vec4Bits, Voxel, VoxelGrid, CAMERA_BYTE_LEN, UNIFORMS_BYTE_LEN, VOXEL_BYTE_LEN,
};
use voxeltracer::TraceError;

fn bits(v: f32) -> u32 {
    v.to_bits()
}

fn sample_uniforms() -> Uniforms {
    Uniforms {
        time_bits: bits(1.5),
        frames: 258,
        max_steps: 50,
        voxel_amount: 2,
        resolution: UVec2 { x: 64, y: 32 },
        background_color: Vec4Bits {
            x: bits(0.25),
            y: bits(0.5),
            z: bits(0.75),
            w: bits(1.0),
        },
        floor_color: Vec4Bits { x: bits(0.1), y: bits(0.1), z: bits(0.1), w: bits(1.0) },
        object_color: Vec3Bits { x: bits(1.0), y: bits(1.0), z: bits(1.0) },
        light_position: Vec3Bits { x: bits(0.0), y: bits(0.25), z: bits(0.0) },
        sun_intensity_bits: bits(1.0),
        smoothing_bits: bits(0.0),
        ambient_occlusion: 20,
    }
}

fn sample_camera() -> Camera {
    Camera {
        position: Vec3Bits { x: bits(0.0), y: bits(0.0), z: bits(2.0) },
        look_at: Vec3Bits { x: bits(0.0), y: bits(0.0), z: bits(0.0) },
        zoom_bits: bits(1.0),
    }
}

#[test]
fn construction_rejects_unaligned_resolution() {
    let mut u = sample_uniforms();
    u.resolution = UVec2 { x: 100, y: 100 };
    let r = Tracer::new(&u);
    assert!(matches!(r, Err(TraceError::InvalidResolution { width: 100, height: 100 })));

    u.resolution = UVec2 { x: 64, y: 100 };
    assert!(Tracer::new(&u).is_err());

    u.resolution = UVec2 { x: 100, y: 64 };
    assert!(Tracer::new(&u).is_err());
}

#[test]
fn construction_accepts_aligned_resolution() {
    let u = sample_uniforms();
    let t = Tracer::new(&u).unwrap();
    assert_eq!(t.resolution(), (64, 32));
    assert_eq!(t.pixel_count(), 64 * 32);
    // One 256-byte row stride per pixel row.
    assert_eq!(t.readback_buffer_size(), 256 * 32);
}

#[test]
fn uniforms_layout_matches_std140_offsets() {
    let u = sample_uniforms();
    let got = uniforms_to_bytes(&u);

    let mut expected: Vec<u8> = Vec::new();
    expected.extend_from_slice(&1.5f32.to_bits().to_le_bytes()); // time
    expected.extend_from_slice(&258u32.to_le_bytes()); // frames
    expected.extend_from_slice(&50u32.to_le_bytes()); // max_steps
    expected.extend_from_slice(&2u32.to_le_bytes()); // voxel_amount
    expected.extend_from_slice(&64u32.to_le_bytes()); // resolution.x
    expected.extend_from_slice(&32u32.to_le_bytes()); // resolution.y
    expected.extend_from_slice(&[0; 8]); // pad to 16
    for c in [0.25f32, 0.5, 0.75, 1.0] {
        expected.extend_from_slice(&c.to_bits().to_le_bytes()); // background
    }
    for c in [0.1f32, 0.1, 0.1, 1.0] {
        expected.extend_from_slice(&c.to_bits().to_le_bytes()); // floor
    }
    for c in [1.0f32, 1.0, 1.0] {
        expected.extend_from_slice(&c.to_bits().to_le_bytes()); // object color
    }
    expected.extend_from_slice(&[0; 4]); // pad to 16
    for c in [0.0f32, 0.25, 0.0] {
        expected.extend_from_slice(&c.to_bits().to_le_bytes()); // light
    }
    expected.extend_from_slice(&1.0f32.to_bits().to_le_bytes()); // sun
    expected.extend_from_slice(&0.0f32.to_bits().to_le_bytes()); // smoothing
    expected.extend_from_slice(&20i32.to_le_bytes()); // ambient occlusion
    expected.extend_from_slice(&[0; 8]); // pad record size to 112

    assert_eq!(got.len(), UNIFORMS_BYTE_LEN);
    assert_eq!(got, expected);
}

#[test]
fn camera_layout_packs_zoom_after_look_at() {
    let c = sample_camera();
    let got = camera_to_bytes(&c);
    assert_eq!(got.len(), CAMERA_BYTE_LEN);
    assert_eq!(&got[8..12], &2.0f32.to_bits().to_le_bytes());
    assert_eq!(&got[12..16], &[0; 4]); // padding after position
    assert_eq!(&got[16..28], &[0; 12]); // look_at is the origin
    assert_eq!(&got[28..32], &1.0f32.to_bits().to_le_bytes()); // zoom
}

#[test]
fn grid_layout_packs_each_voxel_in_32_bytes() {
    let v0 = Voxel::new(
        IVec3 { x: -1, y: 1, z: 0 },
        Vec3Bits { x: bits(0.0), y: bits(0.0), z: bits(1.0) },
    );
    let v1 = Voxel::new(
        IVec3 { x: 0, y: 1, z: -1 },
        Vec3Bits { x: bits(1.0), y: bits(0.0), z: bits(0.0) },
    );
    let grid = VoxelGrid(vec![v0, v1]);
    let got = grid_to_bytes(&grid);
    assert_eq!(got.len(), 2 * VOXEL_BYTE_LEN);

    assert_eq!(&got[0..4], &(-1i32).to_le_bytes());
    assert_eq!(&got[4..8], &1i32.to_le_bytes());
    assert_eq!(&got[8..12], &0i32.to_le_bytes());
    assert_eq!(&got[12..16], &[0; 4]); // padding
    assert_eq!(&got[16..20], &0.0f32.to_bits().to_le_bytes());
    assert_eq!(&got[24..28], &1.0f32.to_bits().to_le_bytes());
    assert_eq!(&got[28..32], &[0; 4]); // padding

    assert_eq!(&got[32..36], &0i32.to_le_bytes());
    assert_eq!(&got[40..44], &(-1i32).to_le_bytes());
    assert_eq!(&got[48..52], &1.0f32.to_bits().to_le_bytes());
}

#[test]
fn empty_grid_packs_to_no_bytes() {
    let grid = VoxelGrid(vec![]);
    assert_eq!(grid_to_bytes(&grid).len(), 0);
}

#[test]
fn trace_plans_buffers_and_workgroups() {
    let mut u = sample_uniforms();
    u.voxel_amount = 1;
    let t = Tracer::new(&u).unwrap();
    let grid = VoxelGrid(vec![Voxel::new(
        IVec3 { x: 0, y: 0, z: 0 },
        Vec3Bits { x: bits(1.0), y: bits(1.0), z: bits(1.0) },
    )]);
    let plan = t.trace(&u, &grid, &sample_camera());
    assert_eq!(plan.workgroups, (4, 2, 1));
    assert_eq!(plan.uniform_bytes, uniforms_to_bytes(&u));
    assert_eq!(plan.camera_bytes, camera_to_bytes(&sample_camera()));
    assert_eq!(plan.grid_bytes, grid_to_bytes(&grid));
}

#[test]
fn trace_is_deterministic() {
    let mut u = sample_uniforms();
    u.voxel_amount = 0;
    let t = Tracer::new(&u).unwrap();
    let grid = VoxelGrid(vec![]);
    let a = t.trace(&u, &grid, &sample_camera());
    let b = t.trace(&u, &grid, &sample_camera());
    assert_eq!(a.uniform_bytes, b.uniform_bytes);
    assert_eq!(a.camera_bytes, b.camera_bytes);
    assert_eq!(a.grid_bytes, b.grid_bytes);
    assert_eq!(a.workgroups, b.workgroups);
}

#[test]
fn background_edit_changes_only_its_bytes() {
    let u1 = sample_uniforms();
    let mut u2 = u1;
    u2.background_color = Vec4Bits { x: bits(1.0), y: bits(0.0), z: bits(0.0), w: bits(1.0) };
    let b1 = uniforms_to_bytes(&u1);
    let b2 = uniforms_to_bytes(&u2);
    assert_eq!(b1.len(), b2.len());
    for i in 0..b1.len() {
        if (32..48).contains(&i) {
            continue;
        }
        assert_eq!(b1[i], b2[i], "byte {} changed", i);
    }
    assert_eq!(&b2[32..36], &1.0f32.to_bits().to_le_bytes());
    assert_eq!(&b2[36..40], &0.0f32.to_bits().to_le_bytes());
    assert_eq!(&b2[44..48], &1.0f32.to_bits().to_le_bytes());
}
