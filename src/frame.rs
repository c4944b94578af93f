use vstd::prelude::*;

use crate::camera::{integrated, FPSCamera, FPSCameraController, Heading, Point3};
use crate::input::{Input, InputEvent};
use crate::pacer::FixedTimestep;
use crate::parity::{read_index_for_render, render_slot, BufferGenerations};
use crate::projection::{CameraRig, Projection};
use crate::time::{FPSData, Time};

verus! {

/// Camera speed, micro-units per second.
pub const CAMERA_SPEED: u32 = 30_000_000;
/// Look sensitivity, microradians per pixel per second.
pub const CAMERA_SENSITIVITY: u32 = 400_000;
/// Vertical field of view, millidegrees.
pub const CAMERA_FOVY: u32 = 90_000;
/// Clip distances, micro-units.
pub const CAMERA_ZNEAR: u64 = 100;
pub const CAMERA_ZFAR: u64 = 100_000_000_000;
/// Starting distance of the camera from the origin along z, micro-units.
pub const CAMERA_START_Z: i64 = 100_000_000;
/// Starting yaw, a quarter turn clockwise, microradians.
pub const CAMERA_START_YAW: i64 = -1_570_796;
/// Length of one simulation step: a sixtieth of a second, in nanoseconds.
pub const SIM_STEP_NS: u64 = 16_666_667;
/// Interval between frames-per-second reports, nanoseconds.
pub const FPS_INTERVAL_NS: u64 = 1_000_000_000;
/// Most simulation steps run in one frame. Steps due beyond this are dropped,
/// so a slow simulation runs behind wall-clock time instead of falling ever
/// further back.
pub const MAX_STEPS_PER_FRAME: usize = 8;

/// What one displayed frame does: run the simulation steps of ticks
/// `previous_tick + 1 ..= previous_tick + steps` in order, then render from
/// buffer `render_slot`, and show the report `fps` if there is one.
#[derive(Clone, Copy, Debug, PartialEq, Eq, Structural)]
pub struct FramePlan {
    pub previous_tick: usize,
    pub steps: usize,
    pub render_slot: usize,
    pub fps: Option<FPSData>,
}

/// State of the frame loop: clock, input, camera, step accumulator and the
/// two particle buffers, handed explicitly through each phase of a frame.
pub struct FrameState<H> {
    pub time: Time,
    pub input: Input,
    pub rig: CameraRig,
    pub pacer: FixedTimestep,
    pub buffers: BufferGenerations<H>,
}

pub open spec fn min3(a: int, b: int, c: int) -> int {
    if a <= b && a <= c {
        a
    } else if b <= c {
        b
    } else {
        c
    }
}

/// Microseconds in `dt_ns` nanoseconds, stopping at the largest `u32`.
pub open spec fn micros_of(dt_ns: u64) -> int {
    if dt_ns / 1000 > u32::MAX {
        u32::MAX as int
    } else {
        (dt_ns / 1000) as int
    }
}

impl<H> FrameState<H> {
    pub open spec fn valid(self) -> bool {
        &&& self.time.valid()
        &&& self.rig.valid()
        &&& self.pacer.valid()
    }

    /// The starting state for an output of `width` by `height` pixels at `now`,
    /// with the particle buffers `first` and `second`; none for an empty output.
    pub fn new(first: H, second: H, width: u32, height: u32, now: u64) -> (r: Option<FrameState<H>>)
        ensures
            r is None <==> (width == 0 || height == 0),
            r matches Some(f) ==> {
                &&& f.valid()
                &&& f.buffers.spec_tick() == 0
                &&& f.buffers.spec_buffer(0) == first
                &&& f.buffers.spec_buffer(1) == second
                &&& f.time.render_ticks == 0
                &&& f.time.fps_update_duration == FPS_INTERVAL_NS
                &&& f.pacer == (FixedTimestep { step_ns: SIM_STEP_NS, accumulator_ns: 0 })
                &&& f.rig.projection == (Projection {
                    width,
                    height,
                    fovy: CAMERA_FOVY,
                    znear: CAMERA_ZNEAR,
                    zfar: CAMERA_ZFAR,
                })
                &&& f.rig.camera == (FPSCamera {
                    position: Point3 { x: 0, y: 0, z: CAMERA_START_Z },
                    yaw: CAMERA_START_YAW,
                    pitch: 0,
                })
                &&& f.rig.controller == FPSCameraController::initial(CAMERA_SPEED, CAMERA_SENSITIVITY)
                &&& f.input == Input::initial()
            },
    {
        let projection = match Projection::new(width, height, CAMERA_FOVY, CAMERA_ZNEAR, CAMERA_ZFAR) {
            Some(p) => p,
            None => return None,
        };
        let time = match Time::new(FPS_INTERVAL_NS, now) {
            Some(t) => t,
            None => return None,
        };
        let pacer = match FixedTimestep::new(SIM_STEP_NS) {
            Some(p) => p,
            None => return None,
        };
        let camera = FPSCamera::new(Point3 { x: 0, y: 0, z: CAMERA_START_Z }, CAMERA_START_YAW, 0);
        let controller = FPSCameraController::new(CAMERA_SPEED, CAMERA_SENSITIVITY);
        Some(FrameState {
            time,
            input: Input::new(),
            rig: CameraRig { camera, controller, projection },
            pacer,
            buffers: BufferGenerations::new(first, second),
        })
    }

    /// Applies a device event, tagged with the current render tick.
    pub fn handle_input(&mut self, event: &InputEvent)
        ensures
            final(self).input == old(self).input.after_event(*event, old(self).time.render_ticks),
            final(self).time == old(self).time,
            final(self).rig == old(self).rig,
            final(self).pacer == old(self).pacer,
            final(self).buffers == old(self).buffers,
    {
        let ticks = self.time.render_ticks();
        self.input.handle_input(event, ticks);
    }

    /// Takes a new output size: only the projection's aspect ratio changes, and
    /// an empty output changes nothing.
    pub fn resize(&mut self, width: u32, height: u32) -> (changed: bool)
        ensures
            changed == (width > 0 && height > 0),
            final(self).rig.camera == old(self).rig.camera,
            final(self).rig.controller == old(self).rig.controller,
            final(self).rig.projection == if changed {
                Projection { width, height, ..old(self).rig.projection }
            } else {
                old(self).rig.projection
            },
            final(self).time == old(self).time,
            final(self).input == old(self).input,
            final(self).pacer == old(self).pacer,
            final(self).buffers == old(self).buffers,
            old(self).valid() ==> final(self).valid(),
    {
        self.rig.projection.resize(width, height)
    }

    /// Runs the decisions of one displayed frame at `now`, `dt_ns` after the
    /// previous one, with `heading` the cosine and sine of the camera's yaw:
    /// stale pointer motion is cleared, the camera integrates the input over the
    /// frame time, the frame is counted, the due simulation steps (at most
    /// `MAX_STEPS_PER_FRAME`) are assigned ticks, and the render buffer and FPS
    /// report are chosen.
    pub fn tick(&mut self, now: u64, dt_ns: u64, heading: Heading) -> (plan: FramePlan)
        requires
            old(self).valid(),
            old(self).time.render_ticks < usize::MAX,
        ensures
            final(self).valid(),
            ({
                let input = old(self).input.after_clear(old(self).time.render_ticks);
                let controller = FPSCameraController {
                    amount_forward: input.movement.z,
                    amount_right: input.movement.x,
                    amount_up: input.movement.y,
                    rotate_horizontal: input.mouse_delta.delta.x,
                    rotate_vertical: input.mouse_delta.delta.y,
                    ..old(self).rig.controller
                };
                let due = (old(self).pacer.accumulator_ns + dt_ns) / (old(self).pacer.step_ns as int);
                let steps = min3(due, MAX_STEPS_PER_FRAME as int, usize::MAX - old(self).buffers.spec_tick());
                let (time, fps) = old(self).time.after_render_tick(now).after_get_fps(now);
                &&& final(self).input == input
                &&& final(self).rig.camera == integrated(controller, old(self).rig.camera, heading, micros_of(dt_ns) as u32)
                &&& final(self).rig.controller == (FPSCameraController { rotate_horizontal: 0, rotate_vertical: 0, ..controller })
                &&& final(self).rig.projection == old(self).rig.projection
                &&& final(self).time == time
                &&& final(self).pacer.step_ns == old(self).pacer.step_ns
                &&& final(self).pacer.accumulator_ns == (old(self).pacer.accumulator_ns + dt_ns) % (old(self).pacer.step_ns as int)
                &&& plan.previous_tick == old(self).buffers.spec_tick()
                &&& plan.steps == steps
                &&& final(self).buffers.spec_tick() == old(self).buffers.spec_tick() + steps
                &&& final(self).buffers.spec_buffer(0) == old(self).buffers.spec_buffer(0)
                &&& final(self).buffers.spec_buffer(1) == old(self).buffers.spec_buffer(1)
                &&& plan.render_slot == render_slot(final(self).buffers.spec_tick() as int)
                &&& plan.fps == fps
            }),
    {
        let ticks = self.time.render_ticks();
        self.input.clear(ticks);
        self.rig.controller.process_input(&self.input);
        let dt_us: u32 = if dt_ns / 1000 > u32::MAX as u64 {
            u32::MAX
        } else {
            (dt_ns / 1000) as u32
        };
        self.rig.update_camera(heading, dt_us);

        self.time.render_tick(now);

        let due = self.pacer.due_steps(dt_ns);
        let tick = self.buffers.tick();
        let room = usize::MAX - tick;
        let mut steps: usize = MAX_STEPS_PER_FRAME;
        if due < steps as u64 {
            steps = due as usize;
        }
        if room < steps {
            steps = room;
        }
        self.buffers.advance(steps);
        let render = read_index_for_render(self.buffers.tick());
        let fps = self.time.get_fps(now);
        FramePlan { previous_tick: tick, steps, render_slot: render, fps }
    }
}

} // verus!
