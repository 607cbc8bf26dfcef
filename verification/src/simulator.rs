//! The simulation as the renderer sees it: the bodies of a scene, and what
//! each kind of shape hands to the renderer.

use vstd::prelude::*;
use crate::physics::storage::{new_body, RigidBody, RigidBodyStorage};
use crate::scalar::{Vec3, Vec4, ZERO};
use crate::scene::builder::{RigidBodyConfig, SceneBuilder, ShapeType};

verus! {

/// The body that a scene's body starts the simulation as. A cube takes the
/// first of its half-extents as its size.
pub open spec fn body_of(config: RigidBodyConfig) -> RigidBody {
    new_body(
        config.position,
        config.rotation,
        config.mass,
        config.shape,
        config.radius,
        config.half_extents[0],
        config.color,
    )
}

/// The bodies that a scene's bodies start the simulation as.
pub open spec fn scene_bodies(bodies: Seq<RigidBodyConfig>) -> Seq<RigidBody> {
    Seq::new(bodies.len(), |i: int| body_of(bodies[i]))
}

/// Whether a body has the shape `shape`.
pub open spec fn is_shape(shape: ShapeType) -> spec_fn(RigidBody) -> bool {
    |b: RigidBody| b.shape_type == shape.spec_code()
}

/// The bodies of one shape, in order.
pub open spec fn bodies_of(bodies: Seq<RigidBody>, shape: ShapeType) -> Seq<RigidBody> {
    bodies.filter(is_shape(shape))
}

/// The positions of the given bodies.
pub open spec fn positions_of(bodies: Seq<RigidBody>) -> Seq<Vec3> {
    Seq::new(bodies.len(), |i: int| bodies[i].position)
}

/// The orientations of the given bodies.
pub open spec fn rotations_of(bodies: Seq<RigidBody>) -> Seq<Vec4> {
    Seq::new(bodies.len(), |i: int| bodies[i].rotation)
}

/// The sizes of the given bodies.
pub open spec fn radii_of(bodies: Seq<RigidBody>) -> Seq<u32> {
    Seq::new(bodies.len(), |i: int| bodies[i].radius)
}

/// The colours of the given bodies.
pub open spec fn colors_of(bodies: Seq<RigidBody>) -> Seq<Vec3> {
    Seq::new(bodies.len(), |i: int| bodies[i].color)
}

/// The bodies of a scene and the time simulated so far.
pub struct Simulator {
    /// The state of all bodies.
    pub storage: RigidBodyStorage,
    /// The time simulated, in seconds, as a single-precision bit pattern.
    pub time: u32,
}

impl Simulator {
    /// The simulation of a scene at time zero: every body of the scene, in
    /// order, at rest where the scene puts it.
    pub fn new(scene: &SceneBuilder) -> (simulator: Simulator)
        ensures
            simulator.storage@ == scene_bodies(scene.bodies@),
            simulator.time == ZERO,
    {
        let mut storage = RigidBodyStorage::with_capacity(scene.bodies.len());
        let mut i: usize = 0;
        while i < scene.bodies.len()
            invariant
                i <= scene.bodies@.len(),
                storage@ == scene_bodies(scene.bodies@).take(i as int),
            decreases scene.bodies@.len() - i,
        {
            let config = &scene.bodies[i];
            storage.push_with_shape(
                config.position,
                config.rotation,
                config.mass,
                config.shape,
                config.radius,
                config.half_extents[0],
                config.color,
            );
            assert(storage@ =~= scene_bodies(scene.bodies@).take(i + 1));
            i = i + 1;
        }
        assert(scene_bodies(scene.bodies@).take(i as int) =~= scene_bodies(scene.bodies@));
        Simulator { storage, time: ZERO }
    }

    /// The number of bodies.
    pub fn body_count(&self) -> (n: usize)
        ensures
            n == self.storage@.len(),
    {
        self.storage.len()
    }

    /// The positions of all bodies.
    pub fn positions(&self) -> (positions: &[Vec3])
        ensures
            positions@ == positions_of(self.storage@),
    {
        let positions = self.storage.positions();
        assert(positions@ =~= positions_of(self.storage@));
        positions
    }

    /// The orientations of all bodies.
    pub fn rotations(&self) -> (rotations: &[Vec4])
        ensures
            rotations@ == rotations_of(self.storage@),
    {
        let rotations = self.storage.rotations();
        assert(rotations@ =~= rotations_of(self.storage@));
        rotations
    }

    /// The shape codes of all bodies: 0 for a cube, 1 for a sphere.
    pub fn shape_types(&self) -> (shape_types: &[u8])
        ensures
            shape_types@.len() == self.storage@.len(),
            forall|i: int|
                0 <= i < shape_types@.len() ==> shape_types@[i] == self.storage@[i].shape_type,
    {
        self.storage.shape_types()
    }

    /// The sizes of all bodies: radius or half-extent.
    pub fn radii(&self) -> (radii: &[u32])
        ensures
            radii@ == radii_of(self.storage@),
    {
        let radii = self.storage.radii();
        assert(radii@ =~= radii_of(self.storage@));
        radii
    }

    /// What the renderer draws as cubes: position, orientation and colour of
    /// every cube, in order.
    pub fn cube_data(&self) -> (data: (Vec<Vec3>, Vec<Vec4>, Vec<Vec3>))
        ensures
            data.0@ == positions_of(bodies_of(self.storage@, ShapeType::Cube)),
            data.1@ == rotations_of(bodies_of(self.storage@, ShapeType::Cube)),
            data.2@ == colors_of(bodies_of(self.storage@, ShapeType::Cube)),
    {
        let mut positions: Vec<Vec3> = Vec::new();
        let mut rotations: Vec<Vec4> = Vec::new();
        let mut colors: Vec<Vec3> = Vec::new();
        let code: u8 = ShapeType::Cube.code();
        let ghost keep = is_shape(ShapeType::Cube);
        let mut i: usize = 0;
        proof {
            self.storage@.take(0).lemma_filter_len(keep);
        }
        while i < self.storage.len()
            invariant
                i <= self.storage@.len(),
                code == ShapeType::Cube.spec_code(),
                keep == is_shape(ShapeType::Cube),
                positions@ == positions_of(self.storage@.take(i as int).filter(keep)),
                rotations@ == rotations_of(self.storage@.take(i as int).filter(keep)),
                colors@ == colors_of(self.storage@.take(i as int).filter(keep)),
            decreases self.storage@.len() - i,
        {
            let body = self.storage.body(i);
            proof {
                let seen = self.storage@.take(i as int);
                assert(self.storage@.take(i + 1) =~= seen.push(body));
                seen.lemma_filter_push(body, keep);
            }
            if body.shape_type == code {
                positions.push(body.position);
                rotations.push(body.rotation);
                colors.push(body.color);
            }
            proof {
                let kept = self.storage@.take(i + 1).filter(keep);
                assert(positions@ =~= positions_of(kept));
                assert(rotations@ =~= rotations_of(kept));
                assert(colors@ =~= colors_of(kept));
            }
            i = i + 1;
        }
        proof {
            assert(self.storage@.take(i as int) =~= self.storage@);
        }
        (positions, rotations, colors)
    }

    /// What the renderer draws as spheres: position, radius and colour of
    /// every sphere, in order.
    pub fn sphere_data(&self) -> (data: (Vec<Vec3>, Vec<u32>, Vec<Vec3>))
        ensures
            data.0@ == positions_of(bodies_of(self.storage@, ShapeType::Sphere)),
            data.1@ == radii_of(bodies_of(self.storage@, ShapeType::Sphere)),
            data.2@ == colors_of(bodies_of(self.storage@, ShapeType::Sphere)),
    {
        let mut positions: Vec<Vec3> = Vec::new();
        let mut radii: Vec<u32> = Vec::new();
        let mut colors: Vec<Vec3> = Vec::new();
        let code: u8 = ShapeType::Sphere.code();
        let ghost keep = is_shape(ShapeType::Sphere);
        let mut i: usize = 0;
        proof {
            self.storage@.take(0).lemma_filter_len(keep);
        }
        while i < self.storage.len()
            invariant
                i <= self.storage@.len(),
                code == ShapeType::Sphere.spec_code(),
                keep == is_shape(ShapeType::Sphere),
                positions@ == positions_of(self.storage@.take(i as int).filter(keep)),
                radii@ == radii_of(self.storage@.take(i as int).filter(keep)),
                colors@ == colors_of(self.storage@.take(i as int).filter(keep)),
            decreases self.storage@.len() - i,
        {
            let body = self.storage.body(i);
            proof {
                let seen = self.storage@.take(i as int);
                assert(self.storage@.take(i + 1) =~= seen.push(body));
                seen.lemma_filter_push(body, keep);
            }
            if body.shape_type == code {
                positions.push(body.position);
                radii.push(body.radius);
                colors.push(body.color);
            }
            proof {
                let kept = self.storage@.take(i + 1).filter(keep);
                assert(positions@ =~= positions_of(kept));
                assert(radii@ =~= radii_of(kept));
                assert(colors@ =~= colors_of(kept));
            }
            i = i + 1;
        }
        proof {
            assert(self.storage@.take(i as int) =~= self.storage@);
        }
        (positions, radii, colors)
    }
}

} // verus!
