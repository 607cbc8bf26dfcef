//! The camera and the uniform block that carries it to the shaders.
//!
//! The view and projection matrices are products of trigonometry and
//! division; whoever computes them hands them to `Camera::uniform`, which
//! lays them out.

use vstd::prelude::*;
use crate::gpu::bytes::{mat4_words, push_mat4, push_vec4, GpuData};
use crate::scalar::{Mat4, Vec3, Vec4, ONE, ZERO};

verus! {

/// Bytes of the camera uniform block: three matrices and a point.
pub const CAMERA_UNIFORM_SIZE: u64 = 208;

/// Bit pattern of `20.0`.
pub const TWENTY: u32 = 0x41a0_0000;

/// Bit pattern of `50.0`.
pub const FIFTY: u32 = 0x4248_0000;

/// Bit pattern of `5.0`.
pub const FIVE: u32 = 0x40a0_0000;

/// Bit pattern of a quarter of pi: a vertical field of view of 45 degrees.
pub const FRAC_PI_4: u32 = 0x3f49_0fdb;

/// Bit pattern of `16.0 / 9.0`.
pub const ASPECT_16_9: u32 = 0x3fe3_8e39;

/// Bit pattern of `0.1`, the distance of the near plane.
pub const NEAR: u32 = 0x3dcc_cccd;

/// Bit pattern of `1000.0`, the distance of the far plane.
pub const FAR: u32 = 0x447a_0000;

/// What the shaders read of the camera: the product of projection and view,
/// the two matrices themselves, and the eye as a homogeneous point.
#[derive(Clone, Copy, Debug, PartialEq, Eq)]
pub struct CameraUniform {
    pub view_proj: Mat4,
    pub view: Mat4,
    pub proj: Mat4,
    pub eye_position: Vec4,
}

impl GpuData for CameraUniform {
    open spec fn word_count() -> nat {
        52
    }

    open spec fn words(&self) -> Seq<u32> {
        mat4_words(self.view_proj) + mat4_words(self.view) + mat4_words(self.proj)
            + self.eye_position@
    }

    proof fn lemma_word_count(&self) {
    }

    fn write_words(&self, out: &mut Vec<u32>) {
        push_mat4(out, &self.view_proj);
        push_mat4(out, &self.view);
        push_mat4(out, &self.proj);
        push_vec4(out, &self.eye_position);
        assert(out@ =~= old(out)@ + self.words());
    }
}

/// A camera with perspective projection. All fields are single-precision bit
/// patterns.
#[derive(Clone, Copy, Debug, PartialEq, Eq)]
pub struct Camera {
    /// Where the camera is.
    pub eye: Vec3,
    /// What it looks at.
    pub target: Vec3,
    /// Which way is up.
    pub up: Vec3,
    /// Vertical field of view, in radians.
    pub fov_y: u32,
    /// Width over height.
    pub aspect: u32,
    /// Distance of the near plane.
    pub near: u32,
    /// Distance of the far plane.
    pub far: u32,
}

/// The camera at `eye` that looks at `target`, upright, with a field of view
/// of 45 degrees and planes at 0.1 and 1000.
pub open spec fn camera_at(eye: Vec3, target: Vec3, aspect: u32) -> Camera {
    Camera { eye, target, up: [ZERO, ONE, ZERO], fov_y: FRAC_PI_4, aspect, near: NEAR, far: FAR }
}

/// The camera a renderer starts with: at `(0, 20, 50)`, looking at
/// `(0, 5, 0)`, for a 16:9 image.
pub open spec fn default_camera() -> Camera {
    camera_at([ZERO, TWENTY, FIFTY], [ZERO, FIVE, ZERO], ASPECT_16_9)
}

/// The uniform of a camera whose matrices are `view` and `proj`, with
/// `view_proj` their product: the eye gets the fourth coordinate one.
pub open spec fn camera_uniform(camera: Camera, view: Mat4, proj: Mat4, view_proj: Mat4) -> CameraUniform {
    CameraUniform {
        view_proj,
        view,
        proj,
        eye_position: [camera.eye[0], camera.eye[1], camera.eye[2], ONE],
    }
}

impl Default for Camera {
    fn default() -> (camera: Camera)
        ensures
            camera == default_camera(),
    {
        Camera::new([ZERO, TWENTY, FIFTY], [ZERO, FIVE, ZERO], ASPECT_16_9)
    }
}

impl Camera {
    /// A camera at `eye` that looks at `target`, for an image of the given
    /// aspect ratio.
    pub fn new(eye: Vec3, target: Vec3, aspect: u32) -> (camera: Camera)
        ensures
            camera == camera_at(eye, target, aspect),
    {
        let camera = Camera {
            eye,
            target,
            up: [ZERO, ONE, ZERO],
            fov_y: FRAC_PI_4,
            aspect,
            near: NEAR,
            far: FAR,
        };
        assert(camera.up =~= camera_at(eye, target, aspect).up);
        camera
    }

    /// Sets the aspect ratio, width over height.
    pub fn set_aspect(&mut self, aspect: u32)
        ensures
            *final(self) == (Camera { aspect, ..*old(self) }),
    {
        self.aspect = aspect;
    }

    /// The uniform block for this camera, given its view matrix, its
    /// projection matrix and their product.
    pub fn uniform(&self, view: Mat4, proj: Mat4, view_proj: Mat4) -> (u: CameraUniform)
        ensures
            u == camera_uniform(*self, view, proj, view_proj),
    {
        let u = CameraUniform {
            view_proj,
            view,
            proj,
            eye_position: [self.eye[0], self.eye[1], self.eye[2], ONE],
        };
        assert(u.eye_position =~= camera_uniform(*self, view, proj, view_proj).eye_position);
        u
    }
}

} // verus!
