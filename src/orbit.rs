use vstd::prelude::*;

use crate::camera::{saturate_i64, saturate_to_i64};
use crate::input::Input;

verus! {

/// Camera on a sphere round the origin, looking at it: `horizontal` and
/// `vertical` are the spherical angles in microradians, `distance` the radius
/// in micro-units.
#[derive(Clone, Copy, Debug, PartialEq, Eq, Structural)]
pub struct OrbitCamera {
    pub horizontal: i64,
    pub vertical: i64,
    pub distance: u64,
}

impl OrbitCamera {
    /// On the z axis, one unit from the origin.
    pub fn new() -> (r: OrbitCamera)
        ensures
            r == (OrbitCamera { horizontal: 0, vertical: 0, distance: 1_000_000 }),
    {
        OrbitCamera { horizontal: 0, vertical: 0, distance: 1_000_000 }
    }
}

/// Input for the orbit camera: pending angle changes in microradians and the
/// in/out direction.
#[derive(Clone, Copy, Debug, PartialEq, Eq, Structural)]
pub struct OrbitCameraController {
    pub horizontal: i64,
    pub vertical: i64,
    pub inout: i8,
    /// Micro-units per second.
    pub speed: u32,
    /// Microradians per pixel.
    pub sensitivity: u32,
}

impl OrbitCameraController {
    pub fn new(speed: u32, sensitivity: u32) -> (r: OrbitCameraController)
        ensures
            r == (OrbitCameraController { horizontal: 0, vertical: 0, inout: 0, speed, sensitivity }),
    {
        OrbitCameraController { horizontal: 0, vertical: 0, inout: 0, speed, sensitivity }
    }

    /// Scales the pointer displacement by the sensitivity (saturating at the
    /// ends of `i64`) and takes the forward key axis as the in/out direction.
    pub fn process_input(&mut self, input: &Input)
        ensures
            *final(self) == (OrbitCameraController {
                horizontal: saturate_i64(input.mouse_delta.delta.x * old(self).sensitivity) as i64,
                vertical: saturate_i64(input.mouse_delta.delta.y * old(self).sensitivity) as i64,
                inout: input.movement.z,
                ..*old(self)
            }),
    {
        let d = input.mouse_delta();
        let s = self.sensitivity as i128;
        proof {
            assert(-0x8000_0000_0000_0000_0000_0000 <= d.x * s <= 0x8000_0000_0000_0000_0000_0000) by (nonlinear_arith)
                requires
                    -0x8000_0000_0000_0000 <= d.x <= 0x8000_0000_0000_0000,
                    0 <= s <= 0xFFFF_FFFF,
            ;
            assert(-0x8000_0000_0000_0000_0000_0000 <= d.y * s <= 0x8000_0000_0000_0000_0000_0000) by (nonlinear_arith)
                requires
                    -0x8000_0000_0000_0000 <= d.y <= 0x8000_0000_0000_0000,
                    0 <= s <= 0xFFFF_FFFF,
            ;
        }
        self.horizontal = saturate_to_i64(d.x as i128 * s);
        self.vertical = saturate_to_i64(d.y as i128 * s);
        self.inout = input.movement.z;
    }

    /// The orbit camera has no motion model: its angles and distance are set
    /// directly, and an update leaves camera and controller as they are.
    pub fn update_camera(&mut self, camera: &mut OrbitCamera, dt_us: u32)
        ensures
            *final(self) == *old(self),
            *final(camera) == *old(camera),
    {
    }
}

} // verus!
