use gpu_particles::input::{Input, InputEvent, Key, MouseButton};
use gpu_particles::orbit::{OrbitCamera, OrbitCameraController};

#[test]
fn orbit_camera_starts_one_unit_out() {
    assert_eq!(OrbitCamera::new(), OrbitCamera { horizontal: 0, vertical: 0, distance: 1_000_000 });
}

#[test]
fn orbit_input_scales_pointer_motion() {
    let mut i = Input::new();
    i.handle_input(&InputEvent::MouseInput { button: MouseButton::Right, pressed: true }, 0);
    i.handle_input(&InputEvent::CursorMoved { x: 0, y: 0 }, 0);
    i.handle_input(&InputEvent::CursorMoved { x: 4, y: 2 }, 0);
    i.handle_input(&InputEvent::Keyboard { key: Key::S, pressed: true }, 0);
    let mut c = OrbitCameraController::new(2_500_000, 100_000);
    c.process_input(&i);
    assert_eq!(c.horizontal, 400_000);
    assert_eq!(c.vertical, -200_000);
    assert_eq!(c.inout, -1);
    assert_eq!(c.speed, 2_500_000);
}

#[test]
fn orbit_input_saturates() {
    let mut i = Input::new();
    i.mouse_delta.delta.x = i64::MAX;
    i.mouse_delta.delta.y = i64::MIN;
    let mut c = OrbitCameraController::new(0, u32::MAX);
    c.process_input(&i);
    assert_eq!(c.horizontal, i64::MAX);
    assert_eq!(c.vertical, i64::MIN);
}

#[test]
fn orbit_update_leaves_camera() {
    let mut cam = OrbitCamera { horizontal: 5, vertical: 6, distance: 7 };
    let mut c = OrbitCameraController::new(1, 1);
    c.horizontal = 100;
    c.update_camera(&mut cam, 16_667);
    assert_eq!(cam, OrbitCamera { horizontal: 5, vertical: 6, distance: 7 });
    assert_eq!(c.horizontal, 100);
}
