use vstd::prelude::*;

use crate::camera::{integrated, FPSCamera, FPSCameraController, Heading};

verus! {

/// Perspective projection. The aspect ratio is `width / height` of the output;
/// it is the only part that changes after construction.
#[derive(Clone, Copy, Debug, PartialEq, Eq, Structural)]
pub struct Projection {
    pub width: u32,
    pub height: u32,
    /// Vertical field of view, in millidegrees.
    pub fovy: u32,
    /// Near and far clip distances, in micro-units.
    pub znear: u64,
    pub zfar: u64,
}

impl Projection {
    pub open spec fn valid(self) -> bool {
        self.width > 0 && self.height > 0
    }

    /// The aspect ratio as the pair (numerator, denominator).
    pub open spec fn aspect(self) -> (int, int) {
        (self.width as int, self.height as int)
    }

    /// A projection for an output of `width` by `height` pixels; none for an
    /// empty output.
    pub fn new(width: u32, height: u32, fovy: u32, znear: u64, zfar: u64) -> (r: Option<Projection>)
        ensures
            r is None <==> (width == 0 || height == 0),
            r matches Some(p) ==> p.valid() && p == (Projection { width, height, fovy, znear, zfar }),
    {
        if width == 0 || height == 0 {
            None
        } else {
            Some(Projection { width, height, fovy, znear, zfar })
        }
    }

    /// Takes the new output size. An empty output (a minimised window) leaves the
    /// projection as it was and returns false.
    pub fn resize(&mut self, width: u32, height: u32) -> (changed: bool)
        ensures
            changed == (width > 0 && height > 0),
            *final(self) == if changed {
                Projection { width, height, ..*old(self) }
            } else {
                *old(self)
            },
            old(self).valid() ==> final(self).valid(),
    {
        if width > 0 && height > 0 {
            self.width = width;
            self.height = height;
            true
        } else {
            false
        }
    }
}

/// A first-person camera with its controller and projection.
#[derive(Clone, Copy, Debug, PartialEq, Eq, Structural)]
pub struct CameraRig {
    pub camera: FPSCamera,
    pub controller: FPSCameraController,
    pub projection: Projection,
}

impl CameraRig {
    pub open spec fn valid(self) -> bool {
        self.camera.valid() && self.projection.valid()
    }

    /// Integrates the pending input over `dt_us` microseconds.
    pub fn update_camera(&mut self, heading: Heading, dt_us: u32)
        ensures
            final(self).camera == integrated(old(self).controller, old(self).camera, heading, dt_us),
            final(self).controller == (FPSCameraController {
                rotate_horizontal: 0,
                rotate_vertical: 0,
                ..old(self).controller
            }),
            final(self).projection == old(self).projection,
            final(self).camera.valid(),
            old(self).valid() ==> final(self).valid(),
    {
        self.controller.update_camera(&mut self.camera, heading, dt_us);
    }

    /// Takes a new output size: only the aspect ratio changes.
    pub fn resize(&mut self, width: u32, height: u32) -> (changed: bool)
        ensures
            changed == (width > 0 && height > 0),
            final(self).camera == old(self).camera,
            final(self).controller == old(self).controller,
            final(self).projection.fovy == old(self).projection.fovy,
            final(self).projection.znear == old(self).projection.znear,
            final(self).projection.zfar == old(self).projection.zfar,
            final(self).projection.aspect() == if changed {
                (width as int, height as int)
            } else {
                old(self).projection.aspect()
            },
            old(self).valid() ==> final(self).valid(),
    {
        self.projection.resize(width, height)
    }
}

} // verus!
