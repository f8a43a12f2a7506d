use voxeltracer::app::{
    App, TickInput, F32_ONE_BITS, F32_QUARTER_BITS, F32_TENTH_BITS, F32_TWO_BITS, F32_ZERO_BITS,
};
use voxeltracer::render::SurfaceConfig;
use voxeltracer::tracer::Tracer;

fn idle_tick(now_ms: u64, realtime: bool) -> TickInput {
    TickInput {
        now_ms,
        time_bits: (now_ms as f32 / 1000.0).to_bits(),
        render_clicked: false,
        save_clicked: false,
        quit: false,
        realtime_toggle: realtime,
    }
}

#[test]
fn float_bit_constants_are_correct() {
    assert_eq!(F32_ZERO_BITS, 0.0f32.to_bits());
    assert_eq!(F32_ONE_BITS, 1.0f32.to_bits());
    assert_eq!(F32_TWO_BITS, 2.0f32.to_bits());
    assert_eq!(F32_QUARTER_BITS, 0.25f32.to_bits());
    assert_eq!(F32_TENTH_BITS, 0.1f32.to_bits());
}

#[test]
fn startup_state_matches_defaults() {
    let app = App::new();
    assert_eq!(app.grid.0.len(), 5);
    assert_eq!(app.uniforms.voxel_amount, 5);
    assert_eq!(app.uniforms.frames, 0);
    assert_eq!(app.uniforms.max_steps, 50);
    assert_eq!(app.uniforms.ambient_occlusion, 20);
    assert_eq!(app.uniforms.smoothing_bits, 0.0f32.to_bits());
    assert_eq!(app.uniforms.sun_intensity_bits, 1.0f32.to_bits());
    assert_eq!((app.uniforms.resolution.x, app.uniforms.resolution.y), (1080, 1080));
    // Background is opaque black, the floor a dark gray.
    assert_eq!(app.uniforms.background_color.x, 0.0f32.to_bits());
    assert_eq!(app.uniforms.background_color.w, 1.0f32.to_bits());
    assert_eq!(app.uniforms.floor_color.x, 0.1f32.to_bits());
    // The first voxel is white at the origin.
    let v = &app.grid.0[0];
    assert_eq!((v.position.x, v.position.y, v.position.z), (0, 0, 0));
    assert_eq!(v.color.x, 1.0f32.to_bits());
    // Camera two units out on the z axis, looking at the origin.
    assert_eq!(app.camera.position.z, 2.0f32.to_bits());
    assert_eq!(app.camera.look_at.z, 0.0f32.to_bits());
    assert_eq!(app.camera.zoom_bits, 1.0f32.to_bits());
    assert!(!app.realtime);
    assert!(app.should_run());
    assert_eq!(app.time_ms, 0);
}

#[test]
fn startup_resolution_is_not_workgroup_aligned() {
    // The classic parameter block asks for 1080 pixels a side, which does
    // not tile into 16-pixel workgroups; the tracer must refuse it at
    // construction rather than dispatch a partial grid.
    let app = App::new();
    assert!(Tracer::new(&app.uniforms).is_err());
}

#[test]
fn frames_strictly_monotonic_and_time_never_backwards() {
    let mut app = App::new();
    app.execute(idle_tick(100, false));
    assert_eq!(app.uniforms.frames, 1);
    assert_eq!(app.time_ms, 100);
    app.execute(idle_tick(250, false));
    assert_eq!(app.uniforms.frames, 2);
    assert_eq!(app.time_ms, 250);
    // A stale clock reading must not move time backwards.
    app.execute(idle_tick(200, false));
    assert_eq!(app.uniforms.frames, 3);
    assert_eq!(app.time_ms, 250);
    assert_eq!(app.uniforms.time_bits, (200f32 / 1000.0).to_bits());
}

#[test]
fn realtime_dispatches_once_per_tick() {
    let mut app = App::new();
    app.realtime = true;
    let mut dispatches = 0;
    for i in 0..8u64 {
        let actions = app.execute(idle_tick(i * 16, true));
        if actions.dispatch {
            dispatches += 1;
        }
    }
    assert_eq!(dispatches, 8);
}

#[test]
fn manual_mode_never_dispatches_without_click() {
    let mut app = App::new();
    let mut dispatches = 0;
    for i in 0..8u64 {
        let actions = app.execute(idle_tick(i * 16, false));
        if actions.dispatch {
            dispatches += 1;
        }
    }
    assert_eq!(dispatches, 0);
}

#[test]
fn render_button_dispatches_exactly_once() {
    let mut app = App::new();
    let mut dispatches = 0;
    for i in 0..8u64 {
        let mut input = idle_tick(i * 16, false);
        input.render_clicked = i == 3;
        let actions = app.execute(input);
        if actions.dispatch {
            dispatches += 1;
        }
    }
    assert_eq!(dispatches, 1);
}

#[test]
fn realtime_toggle_takes_effect_next_tick() {
    let mut app = App::new();
    // The checkbox is ticked during this frame's UI pass, after the
    // dispatch decision was made from the old flag.
    let actions = app.execute(idle_tick(0, true));
    assert!(!actions.dispatch);
    let actions = app.execute(idle_tick(16, true));
    assert!(actions.dispatch);
    // Unticking stops dispatching from the following tick.
    let actions = app.execute(idle_tick(32, false));
    assert!(actions.dispatch);
    let actions = app.execute(idle_tick(48, false));
    assert!(!actions.dispatch);
}

#[test]
fn save_click_requests_a_save() {
    let mut app = App::new();
    let mut input = idle_tick(0, false);
    input.save_clicked = true;
    let actions = app.execute(input);
    assert!(actions.save);
    assert!(!actions.dispatch);
    let actions = app.execute(idle_tick(16, false));
    assert!(!actions.save);
}

#[test]
fn close_request_stops_the_loop() {
    let mut app = App::new();
    let mut input = idle_tick(0, false);
    input.quit = true;
    app.execute(input);
    assert!(!app.should_run());
}

#[test]
fn resize_ignores_zero_dimensions() {
    let mut cfg = SurfaceConfig { width: 1280, height: 720 };
    cfg.resize(1920, 1080);
    assert_eq!(cfg, SurfaceConfig { width: 1920, height: 1080 });
    cfg.resize(0, 600);
    assert_eq!(cfg, SurfaceConfig { width: 1920, height: 1080 });
    cfg.resize(800, 0);
    assert_eq!(cfg, SurfaceConfig { width: 1920, height: 1080 });
    cfg.resize(800, 600);
    assert_eq!(cfg, SurfaceConfig { width: 800, height: 600 });
}
