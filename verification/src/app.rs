//! The application loop's decision logic: one tick of the control flow as a
//! pure state transition, with the default scene the program starts from.
//!
//! The host loop owns the windowing, GPU and UI layers; each display refresh
//! it gathers what happened (wall time, button presses, the realtime
//! checkbox, a close request) into a [`TickInput`], calls [`App::execute`],
//! and performs the returned [`TickActions`].

use vstd::prelude::*;
use crate::tracer::{Camera, IVec3, Uniforms, UVec2, Vec3Bits, Vec4Bits, Voxel, VoxelGrid};

verus! {

/// IEEE-754 single-precision bit pattern of 0.0.
pub const F32_ZERO_BITS: u32 = 0x0000_0000;

/// IEEE-754 single-precision bit pattern of 1.0.
pub const F32_ONE_BITS: u32 = 0x3F80_0000;

/// IEEE-754 single-precision bit pattern of 2.0.
pub const F32_TWO_BITS: u32 = 0x4000_0000;

/// IEEE-754 single-precision bit pattern of 0.25.
pub const F32_QUARTER_BITS: u32 = 0x3E80_0000;

/// IEEE-754 single-precision bit pattern of 0.1.
pub const F32_TENTH_BITS: u32 = 0x3DCC_CCCD;

/// What the host loop observed since the previous tick.
#[derive(Debug, Clone, Copy, PartialEq, Eq, Structural)]
pub struct TickInput {
    /// Milliseconds since program start, from a monotonic clock.
    pub now_ms: u64,
    /// Seconds since program start as a float bit pattern, for the shader.
    pub time_bits: u32,
    /// The one-shot render button was pressed (only shown in manual mode).
    pub render_clicked: bool,
    /// The save button was pressed.
    pub save_clicked: bool,
    /// The window received a close request.
    pub quit: bool,
    /// State of the realtime checkbox after the UI pass.
    pub realtime_toggle: bool,
}

/// What the host loop must do after a tick.
#[derive(Debug, Clone, Copy, PartialEq, Eq, Structural)]
pub struct TickActions {
    /// Upload the parameter block and dispatch the compute shader.
    pub dispatch: bool,
    /// Run the readback path and write the PNG.
    pub save: bool,
}

/// The scene parameter block and loop state: the single owner of what the
/// UI edits and the dispatcher reads.
#[derive(Debug, Clone)]
pub struct App {
    /// The voxel grid.
    pub grid: VoxelGrid,
    /// The scene-wide uniforms.
    pub uniforms: Uniforms,
    /// The camera.
    pub camera: Camera,
    /// Dispatch on every tick when set; otherwise only on the render button.
    pub realtime: bool,
    /// Cleared by a close request; the host loop stops when it is false.
    pub should_run: bool,
    /// Milliseconds since program start at the latest tick.
    pub time_ms: u64,
}

/// The five hand-placed voxels of the startup scene: a white cube at the
/// origin with green, yellow, blue and red cubes around it.
pub open spec fn spec_default_grid() -> Seq<Voxel> {
    seq![
        Voxel {
            position: IVec3 { x: 0, y: 0, z: 0 },
            color: Vec3Bits { x: F32_ONE_BITS, y: F32_ONE_BITS, z: F32_ONE_BITS },
        },
        Voxel {
            position: IVec3 { x: 1, y: 1, z: 0 },
            color: Vec3Bits { x: F32_ZERO_BITS, y: F32_ONE_BITS, z: F32_ZERO_BITS },
        },
        Voxel {
            position: IVec3 { x: 1, y: 2, z: 0 },
            color: Vec3Bits { x: F32_ONE_BITS, y: F32_ONE_BITS, z: F32_ZERO_BITS },
        },
        Voxel {
            position: IVec3 { x: -1i32, y: 1, z: 0 },
            color: Vec3Bits { x: F32_ZERO_BITS, y: F32_ZERO_BITS, z: F32_ONE_BITS },
        },
        Voxel {
            position: IVec3 { x: 0, y: 1, z: -1i32 },
            color: Vec3Bits { x: F32_ONE_BITS, y: F32_ZERO_BITS, z: F32_ZERO_BITS },
        },
    ]
}

/// The startup uniforms: a 1080 by 1080 output, 50 march steps, ambient
/// occlusion at 20 samples, a black background over a dark gray floor, and
/// the light just above the origin.
pub open spec fn spec_default_uniforms() -> Uniforms {
    Uniforms {
        time_bits: F32_ZERO_BITS,
        frames: 0,
        max_steps: 50,
        voxel_amount: 5,
        resolution: UVec2 { x: 1080, y: 1080 },
        background_color: Vec4Bits {
            x: F32_ZERO_BITS,
            y: F32_ZERO_BITS,
            z: F32_ZERO_BITS,
            w: F32_ONE_BITS,
        },
        floor_color: Vec4Bits {
            x: F32_TENTH_BITS,
            y: F32_TENTH_BITS,
            z: F32_TENTH_BITS,
            w: F32_ONE_BITS,
        },
        object_color: Vec3Bits { x: F32_ONE_BITS, y: F32_ONE_BITS, z: F32_ONE_BITS },
        light_position: Vec3Bits { x: F32_ZERO_BITS, y: F32_QUARTER_BITS, z: F32_ZERO_BITS },
        sun_intensity_bits: F32_ONE_BITS,
        smoothing_bits: F32_ZERO_BITS,
        ambient_occlusion: 20,
    }
}

/// The startup camera: two units in front of the origin, looking at it.
pub open spec fn spec_default_camera() -> Camera {
    Camera {
        position: Vec3Bits { x: F32_ZERO_BITS, y: F32_ZERO_BITS, z: F32_TWO_BITS },
        look_at: Vec3Bits { x: F32_ZERO_BITS, y: F32_ZERO_BITS, z: F32_ZERO_BITS },
        zoom_bits: F32_ONE_BITS,
    }
}

/// A tick dispatches when realtime mode is on, or when the render button
/// was pressed in manual mode.
pub open spec fn spec_should_dispatch(realtime: bool, render_clicked: bool) -> bool {
    realtime || render_clicked
}

/// How many of a run of ticks dispatch, starting from a given realtime
/// flag: each tick decides from the flag it starts with, then the checkbox
/// value of that tick carries into the next.
pub open spec fn spec_dispatch_count(realtime: bool, inputs: Seq<TickInput>) -> nat
    decreases inputs.len(),
{
    if inputs.len() == 0 {
        0
    } else {
        (if spec_should_dispatch(realtime, inputs[0].render_clicked) {
            1nat
        } else {
            0nat
        }) + spec_dispatch_count(inputs[0].realtime_toggle, inputs.drop_first())
    }
}

/// With realtime mode on throughout, a run of ticks issues exactly one
/// dispatch per tick.
pub proof fn lemma_realtime_dispatches_every_tick(realtime: bool, inputs: Seq<TickInput>)
    requires
        realtime,
        forall|i: int| 0 <= i < inputs.len() ==> inputs[i].realtime_toggle,
    ensures
        spec_dispatch_count(realtime, inputs) == inputs.len(),
    decreases inputs.len(),
{
    if inputs.len() > 0 {
        lemma_realtime_dispatches_every_tick(inputs[0].realtime_toggle, inputs.drop_first());
    }
}

/// With realtime mode off throughout and the render button never pressed,
/// a run of ticks issues no dispatch at all.
pub proof fn lemma_manual_mode_never_dispatches(realtime: bool, inputs: Seq<TickInput>)
    requires
        !realtime,
        forall|i: int| 0 <= i < inputs.len()
            ==> !inputs[i].realtime_toggle && !inputs[i].render_clicked,
    ensures
        spec_dispatch_count(realtime, inputs) == 0,
    decreases inputs.len(),
{
    if inputs.len() > 0 {
        lemma_manual_mode_never_dispatches(inputs[0].realtime_toggle, inputs.drop_first());
    }
}

impl App {
    /// Construct the parameter block in its startup state.
    pub fn new() -> (r: Self)
        ensures
            r.grid.0@ == spec_default_grid(),
            r.uniforms == spec_default_uniforms(),
            r.uniforms.voxel_amount as int == r.grid.0@.len(),
            r.camera == spec_default_camera(),
            !r.realtime,
            r.should_run,
            r.time_ms == 0,
    {
        let white = Vec3Bits { x: F32_ONE_BITS, y: F32_ONE_BITS, z: F32_ONE_BITS };
        let green = Vec3Bits { x: F32_ZERO_BITS, y: F32_ONE_BITS, z: F32_ZERO_BITS };
        let yellow = Vec3Bits { x: F32_ONE_BITS, y: F32_ONE_BITS, z: F32_ZERO_BITS };
        let blue = Vec3Bits { x: F32_ZERO_BITS, y: F32_ZERO_BITS, z: F32_ONE_BITS };
        let red = Vec3Bits { x: F32_ONE_BITS, y: F32_ZERO_BITS, z: F32_ZERO_BITS };
        let mut voxels: Vec<Voxel> = Vec::new();
        voxels.push(Voxel::new(IVec3 { x: 0, y: 0, z: 0 }, white));
        voxels.push(Voxel::new(IVec3 { x: 1, y: 1, z: 0 }, green));
        voxels.push(Voxel::new(IVec3 { x: 1, y: 2, z: 0 }, yellow));
        voxels.push(Voxel::new(IVec3 { x: -1, y: 1, z: 0 }, blue));
        voxels.push(Voxel::new(IVec3 { x: 0, y: 1, z: -1 }, red));
        assert(voxels@ =~= spec_default_grid());
        let uniforms = Uniforms {
            time_bits: F32_ZERO_BITS,
            frames: 0,
            max_steps: 50,
            voxel_amount: 5,
            resolution: UVec2 { x: 1080, y: 1080 },
            background_color: Vec4Bits {
                x: F32_ZERO_BITS,
                y: F32_ZERO_BITS,
                z: F32_ZERO_BITS,
                w: F32_ONE_BITS,
            },
            floor_color: Vec4Bits {
                x: F32_TENTH_BITS,
                y: F32_TENTH_BITS,
                z: F32_TENTH_BITS,
                w: F32_ONE_BITS,
            },
            object_color: Vec3Bits { x: F32_ONE_BITS, y: F32_ONE_BITS, z: F32_ONE_BITS },
            light_position: Vec3Bits {
                x: F32_ZERO_BITS,
                y: F32_QUARTER_BITS,
                z: F32_ZERO_BITS,
            },
            sun_intensity_bits: F32_ONE_BITS,
            smoothing_bits: F32_ZERO_BITS,
            ambient_occlusion: 20,
        };
        let camera = Camera {
            position: Vec3Bits { x: F32_ZERO_BITS, y: F32_ZERO_BITS, z: F32_TWO_BITS },
            look_at: Vec3Bits { x: F32_ZERO_BITS, y: F32_ZERO_BITS, z: F32_ZERO_BITS },
            zoom_bits: F32_ONE_BITS,
        };
        App {
            grid: VoxelGrid(voxels),
            uniforms,
            camera,
            realtime: false,
            should_run: true,
            time_ms: 0,
        }
    }

    /// Run one tick of the loop's control flow: decide whether this tick
    /// dispatches and saves, take over the checkbox and close-request state,
    /// advance the frame counter, and refresh the clock. Time never runs
    /// backwards even if the host hands in a stale reading, and the frame
    /// counter grows by exactly one per tick.
    pub fn execute(&mut self, input: TickInput) -> (actions: TickActions)
        requires
            old(self).uniforms.frames < u32::MAX,
        ensures
            actions.dispatch == spec_should_dispatch(old(self).realtime, input.render_clicked),
            actions.save == input.save_clicked,
            final(self).uniforms == (Uniforms {
                frames: (old(self).uniforms.frames + 1) as u32,
                time_bits: input.time_bits,
                ..old(self).uniforms
            }),
            final(self).uniforms.frames > old(self).uniforms.frames,
            final(self).time_ms == (if input.now_ms >= old(self).time_ms {
                input.now_ms
            } else {
                old(self).time_ms
            }),
            final(self).time_ms >= old(self).time_ms,
            final(self).realtime == input.realtime_toggle,
            final(self).should_run == !input.quit,
            final(self).grid.0@ == old(self).grid.0@,
            final(self).camera == old(self).camera,
    {
        let dispatch = self.realtime || input.render_clicked;
        self.realtime = input.realtime_toggle;
        self.should_run = !input.quit;
        self.uniforms.frames = self.uniforms.frames + 1;
        self.uniforms.time_bits = input.time_bits;
        if input.now_ms >= self.time_ms {
            self.time_ms = input.now_ms;
        }
        TickActions { dispatch, save: input.save_clicked }
    }

    /// Whether the host loop should keep ticking.
    pub fn should_run(&self) -> (r: bool)
        ensures
            r == self.should_run,
    {
        self.should_run
    }
}

} // verus!
