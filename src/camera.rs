use vstd::prelude::*;

use crate::input::Input;

verus! {

/// Fixed-point scale: one unit of length is a million micro-units, one radian a
/// million microradians, one second a million microseconds.
pub const MICRO: i128 = 1_000_000;

/// Largest pitch magnitude, in microradians: just short of a quarter turn, so the
/// look direction never reaches the vertical where yaw is undefined.
pub const MAX_PITCH: i64 = 1_570_696;

/// A point in space, each coordinate in micro-units.
#[derive(Clone, Copy, Debug, PartialEq, Eq, Structural)]
pub struct Point3 {
    pub x: i64,
    pub y: i64,
    pub z: i64,
}

/// Cosine and sine of the yaw, each scaled by a million.
#[derive(Clone, Copy, Debug, PartialEq, Eq, Structural)]
pub struct Heading {
    pub cos_yaw: i32,
    pub sin_yaw: i32,
}

/// First-person camera: a position and an orientation without roll. Angles are
/// in microradians; the pitch always lies within `[-MAX_PITCH, MAX_PITCH]`.
#[derive(Clone, Copy, Debug, PartialEq, Eq, Structural)]
pub struct FPSCamera {
    pub position: Point3,
    pub yaw: i64,
    pub pitch: i64,
}

/// Integer division rounding toward zero, as machine division does.
pub open spec fn div_trunc(a: int, b: int) -> int {
    if a >= 0 {
        a / b
    } else {
        -((-a) / b)
    }
}

pub open spec fn clamp_pitch(p: int) -> int {
    if p < -MAX_PITCH {
        -MAX_PITCH
    } else if p > MAX_PITCH {
        MAX_PITCH as int
    } else {
        p
    }
}

pub open spec fn saturate_i64(v: int) -> int {
    if v < i64::MIN {
        i64::MIN as int
    } else if v > i64::MAX {
        i64::MAX as int
    } else {
        v
    }
}

/// Rotation in microradians from `pixels` of pointer motion, at `sensitivity`
/// microradians per pixel per second, over `dt_us` microseconds.
pub open spec fn rotation(pixels: int, sensitivity: int, dt_us: int) -> int {
    div_trunc(pixels * sensitivity * dt_us, MICRO as int)
}

/// Distance in micro-units covered at `speed` micro-units per second over
/// `dt_us` microseconds along a direction weighted by `weight` (a million per unit).
pub open spec fn travel(weight: int, speed: int, dt_us: int) -> int {
    div_trunc(weight * speed * dt_us, MICRO * MICRO)
}

proof fn lemma_product_bound(a: int, b: int, ma: int, mb: int)
    requires
        -ma <= a <= ma,
        -mb <= b <= mb,
    ensures
        -(ma * mb) <= a * b <= ma * mb,
{
    assert(-(ma * mb) <= a * b <= ma * mb) by (nonlinear_arith)
        requires
            -ma <= a <= ma,
            -mb <= b <= mb,
    ;
}

proof fn lemma_mul_assoc3(a: int, b: int, c: int)
    ensures
        a * (b * c) == a * b * c,
{
    assert(a * (b * c) == a * b * c) by (nonlinear_arith);
}

fn div_trunc_exec(a: i128, b: i128) -> (r: i128)
    requires
        b > 0,
        a > i128::MIN,
    ensures
        r as int == div_trunc(a as int, b as int),
{
    a / b
}

pub(crate) fn saturate_to_i64(v: i128) -> (r: i64)
    ensures
        r as int == saturate_i64(v as int),
{
    if v < i64::MIN as i128 {
        i64::MIN
    } else if v > i64::MAX as i128 {
        i64::MAX
    } else {
        v as i64
    }
}

impl FPSCamera {
    pub open spec fn valid(self) -> bool {
        -MAX_PITCH <= self.pitch <= MAX_PITCH
    }

    /// A camera at `position` looking along `yaw` and `pitch`; the pitch is clamped.
    pub fn new(position: Point3, yaw: i64, pitch: i64) -> (r: FPSCamera)
        ensures
            r.valid(),
            r.position == position,
            r.yaw == yaw,
            r.pitch == clamp_pitch(pitch as int),
    {
        let p = if pitch < -MAX_PITCH {
            -MAX_PITCH
        } else if pitch > MAX_PITCH {
            MAX_PITCH
        } else {
            pitch
        };
        FPSCamera { position, yaw, pitch: p }
    }
}

/// Turns input into camera motion: movement amounts per axis and pointer
/// rotation waiting to be applied.
#[derive(Clone, Copy, Debug, PartialEq, Eq, Structural)]
pub struct FPSCameraController {
    pub amount_right: i8,
    pub amount_forward: i8,
    pub amount_up: i8,
    /// Pointer motion to the right, in pixels, not yet applied.
    pub rotate_horizontal: i64,
    /// Pointer motion upwards, in pixels, not yet applied; it raises the pitch.
    pub rotate_vertical: i64,
    /// Micro-units per second.
    pub speed: u32,
    /// Microradians per pixel per second.
    pub sensitivity: u32,
}

/// The camera after one integration step of `c` over `dt_us` microseconds.
pub open spec fn integrated(c: FPSCameraController, cam: FPSCamera, h: Heading, dt_us: u32) -> FPSCamera {
    let fwd = c.amount_forward as int;
    let right = c.amount_right as int;
    FPSCamera {
        position: Point3 {
            x: saturate_i64(cam.position.x + travel(h.cos_yaw * fwd - h.sin_yaw * right, c.speed as int, dt_us as int)) as i64,
            y: saturate_i64(cam.position.y + travel(c.amount_up * MICRO, c.speed as int, dt_us as int)) as i64,
            z: saturate_i64(cam.position.z + travel(h.sin_yaw * fwd + h.cos_yaw * right, c.speed as int, dt_us as int)) as i64,
        },
        yaw: saturate_i64(cam.yaw + rotation(c.rotate_horizontal as int, c.sensitivity as int, dt_us as int)) as i64,
        pitch: clamp_pitch(cam.pitch + rotation(c.rotate_vertical as int, c.sensitivity as int, dt_us as int)) as i64,
    }
}

impl FPSCameraController {
    /// A controller at rest.
    pub open spec fn initial(speed: u32, sensitivity: u32) -> FPSCameraController {
        FPSCameraController {
            amount_right: 0,
            amount_forward: 0,
            amount_up: 0,
            rotate_horizontal: 0,
            rotate_vertical: 0,
            speed,
            sensitivity,
        }
    }

    pub fn new(speed: u32, sensitivity: u32) -> (r: FPSCameraController)
        ensures
            r == FPSCameraController::initial(speed, sensitivity),
    {
        FPSCameraController {
            amount_right: 0,
            amount_forward: 0,
            amount_up: 0,
            rotate_horizontal: 0,
            rotate_vertical: 0,
            speed,
            sensitivity,
        }
    }

    /// Takes the held movement keys and the current pointer displacement.
    pub fn process_input(&mut self, input: &Input)
        ensures
            *final(self) == (FPSCameraController {
                amount_forward: input.movement.z,
                amount_right: input.movement.x,
                amount_up: input.movement.y,
                rotate_horizontal: input.mouse_delta.delta.x,
                rotate_vertical: input.mouse_delta.delta.y,
                ..*old(self)
            }),
    {
        let m = input.movement;
        self.amount_forward = m.z;
        self.amount_right = m.x;
        self.amount_up = m.y;
        let delta = input.mouse_delta();
        self.rotate_horizontal = delta.x;
        self.rotate_vertical = delta.y;
    }

    /// Moves and turns `camera` over `dt_us` microseconds. The forward basis is
    /// `(cos yaw, 0, sin yaw)` and the right basis `(-sin yaw, 0, cos yaw)`, taken
    /// from `heading`; vertical movement is applied directly. The pending
    /// rotation is consumed, so it is never applied twice.
    pub fn update_camera(&mut self, camera: &mut FPSCamera, heading: Heading, dt_us: u32)
        ensures
            *final(camera) == integrated(*old(self), *old(camera), heading, dt_us),
            final(camera).valid(),
            *final(self) == (FPSCameraController {
                rotate_horizontal: 0,
                rotate_vertical: 0,
                ..*old(self)
            }),
    {
        let dt = dt_us as i128;
        let speed = self.speed as i128;
        let fwd = self.amount_forward as i128;
        let right = self.amount_right as i128;
        let cos = heading.cos_yaw as i128;
        let sin = heading.sin_yaw as i128;

        proof {
            lemma_product_bound(cos as int, fwd as int, 0x8000_0000, 128);
            lemma_product_bound(sin as int, right as int, 0x8000_0000, 128);
            lemma_product_bound(sin as int, fwd as int, 0x8000_0000, 128);
            lemma_product_bound(cos as int, right as int, 0x8000_0000, 128);
            lemma_product_bound(speed as int, dt as int, 0x1_0000_0000, 0x1_0000_0000);
        }
        let wx = cos * fwd - sin * right;
        let wz = sin * fwd + cos * right;
        let wy = self.amount_up as i128 * MICRO;
        let sd = speed * dt;
        proof {
            lemma_product_bound(wx as int, sd as int, 0x100_0000_0000, 0x1_0000_0000_0000_0000);
            lemma_product_bound(wz as int, sd as int, 0x100_0000_0000, 0x1_0000_0000_0000_0000);
            lemma_product_bound(wy as int, sd as int, 0x100_0000_0000, 0x1_0000_0000_0000_0000);
            lemma_mul_assoc3(wx as int, speed as int, dt as int);
            lemma_mul_assoc3(wy as int, speed as int, dt as int);
            lemma_mul_assoc3(wz as int, speed as int, dt as int);
        }
        let dx = div_trunc_exec(wx * sd, MICRO * MICRO);
        let dy = div_trunc_exec(wy * sd, MICRO * MICRO);
        let dz = div_trunc_exec(wz * sd, MICRO * MICRO);
        camera.position.x = saturate_to_i64(camera.position.x as i128 + dx);
        camera.position.y = saturate_to_i64(camera.position.y as i128 + dy);
        camera.position.z = saturate_to_i64(camera.position.z as i128 + dz);

        let sens = self.sensitivity as i128;
        let rh = self.rotate_horizontal as i128;
        let rv = self.rotate_vertical as i128;
        proof {
            lemma_product_bound(sens as int, dt as int, 0xFFFF_FFFF, 0xFFFF_FFFF);
        }
        let sdt = sens * dt;
        proof {
            lemma_product_bound(rh as int, sdt as int, 0x8000_0000_0000_0000, 0xFFFF_FFFE_0000_0001);
            lemma_product_bound(rv as int, sdt as int, 0x8000_0000_0000_0000, 0xFFFF_FFFE_0000_0001);
            lemma_mul_assoc3(rh as int, sens as int, dt as int);
            lemma_mul_assoc3(rv as int, sens as int, dt as int);
        }
        let yaw_step = div_trunc_exec(rh * sdt, MICRO);
        let pitch_step = div_trunc_exec(rv * sdt, MICRO);
        camera.yaw = saturate_to_i64(camera.yaw as i128 + yaw_step);
        let pitch = camera.pitch as i128 + pitch_step;
        camera.pitch = if pitch < -(MAX_PITCH as i128) {
            -MAX_PITCH
        } else if pitch > MAX_PITCH as i128 {
            MAX_PITCH
        } else {
            pitch as i64
        };

        self.rotate_horizontal = 0;
        self.rotate_vertical = 0;
    }
}

/// Whatever the camera and the pending input, an integration step leaves the
/// pitch within `[-MAX_PITCH, MAX_PITCH]`; a rotation that would overshoot
/// stops exactly at the bound it crossed.
pub proof fn lemma_pitch_stays_clamped(c: FPSCameraController, cam: FPSCamera, h: Heading, dt_us: u32)
    ensures
        integrated(c, cam, h, dt_us).valid(),
        ({
            let wanted = cam.pitch + rotation(c.rotate_vertical as int, c.sensitivity as int, dt_us as int);
            &&& wanted > MAX_PITCH ==> integrated(c, cam, h, dt_us).pitch == MAX_PITCH
            &&& wanted < -MAX_PITCH ==> integrated(c, cam, h, dt_us).pitch == -MAX_PITCH
            &&& -MAX_PITCH <= wanted <= MAX_PITCH ==> integrated(c, cam, h, dt_us).pitch == wanted
        }),
{
}

} // verus!
