use gpu_particles::camera::Heading;
use gpu_particles::frame::{FrameState, MAX_STEPS_PER_FRAME, SIM_STEP_NS};
use gpu_particles::input::{InputEvent, Key, MouseButton};
use gpu_particles::parity::write_index;

const FACING: Heading = Heading { cos_yaw: 0, sin_yaw: -1_000_000 };

#[test]
fn empty_output_is_refused_at_startup() {
    assert!(FrameState::new(0u8, 1u8, 0, 1080, 0).is_none());
}

#[test]
fn frame_runs_due_steps_and_renders_previous_output() {
    let mut f = FrameState::new('a', 'b', 1920, 1080, 0).unwrap();
    let plan = f.tick(2 * SIM_STEP_NS, 2 * SIM_STEP_NS, FACING);
    assert_eq!(plan.previous_tick, 0);
    assert_eq!(plan.steps, 2);
    assert_eq!(f.buffers.tick(), 2);
    assert_eq!(plan.render_slot, 1);
    assert_eq!(*f.buffers.render_buffer(), 'b');
    assert_eq!(write_index(plan.previous_tick + plan.steps), 0);
    assert_eq!(f.time.render_ticks(), 1);
    assert!(plan.fps.is_none());

    let plan = f.tick(2 * SIM_STEP_NS + SIM_STEP_NS / 2, SIM_STEP_NS / 2, FACING);
    assert_eq!(plan.steps, 0);
    assert_eq!(plan.render_slot, 1);
}

#[test]
fn backlog_is_capped_per_frame() {
    let mut f = FrameState::new(0u8, 1u8, 800, 600, 0).unwrap();
    let plan = f.tick(SIM_STEP_NS * 100, SIM_STEP_NS * 100, FACING);
    assert_eq!(plan.steps, MAX_STEPS_PER_FRAME);
    assert_eq!(f.buffers.tick(), MAX_STEPS_PER_FRAME);
    assert_eq!(f.pacer.accumulator_ns, 0);
}

#[test]
fn fps_reported_after_one_second() {
    let mut f = FrameState::new(0u8, 1u8, 800, 600, 0).unwrap();
    let mut now = 0u64;
    let mut last = None;
    for _ in 0..61 {
        now += 16_500_000;
        last = f.tick(now, 16_500_000, FACING).fps;
    }
    let report = last.unwrap();
    assert_eq!(report.frames, 61);
    assert_eq!(f.time.frame_since_last_fps_check, 0);
}

#[test]
fn pointer_motion_turns_camera_once() {
    let mut f = FrameState::new(0u8, 1u8, 800, 600, 0).unwrap();
    f.handle_input(&InputEvent::MouseInput { button: MouseButton::Right, pressed: true });
    f.handle_input(&InputEvent::CursorMoved { x: 0, y: 0 });
    f.handle_input(&InputEvent::CursorMoved { x: 3, y: 0 });
    let yaw0 = f.rig.camera.yaw;
    f.tick(16_667_000, 16_667_000, FACING);
    let yaw1 = f.rig.camera.yaw;
    assert_eq!(yaw1 - yaw0, 20_000);
    f.tick(33_334_000, 16_667_000, FACING);
    assert_eq!(f.rig.camera.yaw, yaw1);
}

#[test]
fn held_key_moves_camera_every_frame() {
    let mut f = FrameState::new(0u8, 1u8, 800, 600, 0).unwrap();
    f.handle_input(&InputEvent::Keyboard { key: Key::W, pressed: true });
    let z0 = f.rig.camera.position.z;
    f.tick(1_000_000_000, 1_000_000_000, FACING);
    assert_eq!(f.rig.camera.position.z, z0 - 30_000_000);
    f.tick(2_000_000_000, 1_000_000_000, FACING);
    assert_eq!(f.rig.camera.position.z, z0 - 60_000_000);
}

#[test]
fn frame_resize_keeps_camera() {
    let mut f = FrameState::new(0u8, 1u8, 1920, 1080, 0).unwrap();
    let cam = f.rig.camera;
    assert!(f.resize(800, 600));
    assert_eq!(f.rig.camera, cam);
    assert_eq!((f.rig.projection.width, f.rig.projection.height), (800, 600));
    assert_eq!(f.rig.projection.znear, 100);
    assert_eq!(f.rig.projection.zfar, 100_000_000_000);
}
