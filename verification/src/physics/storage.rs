//! The state of all rigid bodies, one array for each quantity.

use vstd::prelude::*;
use crate::scalar::{Vec3, Vec4, HALF, ZERO};
use crate::scene::builder::{cube_color, default_cube_color, ShapeType};

verus! {

/// The state of one rigid body. All numbers are single-precision bit
/// patterns.
#[derive(Clone, Copy, Debug, PartialEq, Eq)]
pub struct RigidBody {
    pub position: Vec3,
    /// Orientation as a quaternion `(x, y, z, w)`.
    pub rotation: Vec4,
    pub linear_velocity: Vec3,
    pub angular_velocity: Vec3,
    pub mass: u32,
    /// 0 for a cube, 1 for a sphere.
    pub shape_type: u8,
    /// The radius of a sphere, or the half-extent of a cube.
    pub radius: u32,
    pub color: Vec3,
}

/// A body as it is when it enters the simulation: at rest.
pub open spec fn new_body(
    position: Vec3,
    rotation: Vec4,
    mass: u32,
    shape: ShapeType,
    radius: u32,
    half_extent: u32,
    color: Vec3,
) -> RigidBody {
    RigidBody {
        position,
        rotation,
        linear_velocity: [ZERO, ZERO, ZERO],
        angular_velocity: [ZERO, ZERO, ZERO],
        mass,
        shape_type: shape.spec_code(),
        radius: match shape {
            ShapeType::Sphere => radius,
            ShapeType::Cube => half_extent,
        },
        color,
    }
}

/// The numbers `0, 1, ..., n - 1`.
pub open spec fn indices(n: nat) -> Seq<usize> {
    Seq::new(n, |i: int| i as usize)
}

/// Whether the body at an index has the shape code `code`.
pub open spec fn has_code(bodies: Seq<RigidBody>, code: u8) -> spec_fn(usize) -> bool {
    |i: usize| bodies[i as int].shape_type == code
}

/// The indices of the bodies with the shape code `code`, in order.
pub open spec fn indices_of(bodies: Seq<RigidBody>, code: u8) -> Seq<usize> {
    indices(bodies.len()).filter(has_code(bodies, code))
}

/// The state of all rigid bodies. Body `i` has entry `i` of each array.
#[derive(Debug)]
pub struct RigidBodyStorage {
    positions: Vec<Vec3>,
    rotations: Vec<Vec4>,
    linear_velocities: Vec<Vec3>,
    angular_velocities: Vec<Vec3>,
    masses: Vec<u32>,
    shape_types: Vec<u8>,
    radii: Vec<u32>,
    colors: Vec<Vec3>,
}

impl View for RigidBodyStorage {
    type V = Seq<RigidBody>;

    closed spec fn view(&self) -> Seq<RigidBody> {
        Seq::new(
            self.positions@.len(),
            |i: int|
                RigidBody {
                    position: self.positions@[i],
                    rotation: self.rotations@[i],
                    linear_velocity: self.linear_velocities@[i],
                    angular_velocity: self.angular_velocities@[i],
                    mass: self.masses@[i],
                    shape_type: self.shape_types@[i],
                    radius: self.radii@[i],
                    color: self.colors@[i],
                },
        )
    }
}

impl RigidBodyStorage {
    #[verifier::type_invariant]
    spec fn arrays_agree(self) -> bool {
        &&& self.rotations@.len() == self.positions@.len()
        &&& self.linear_velocities@.len() == self.positions@.len()
        &&& self.angular_velocities@.len() == self.positions@.len()
        &&& self.masses@.len() == self.positions@.len()
        &&& self.shape_types@.len() == self.positions@.len()
        &&& self.radii@.len() == self.positions@.len()
        &&& self.colors@.len() == self.positions@.len()
    }

    /// Empty storage with room for `capacity` bodies.
    pub fn with_capacity(capacity: usize) -> (storage: RigidBodyStorage)
        ensures
            storage@ == Seq::<RigidBody>::empty(),
    {
        let storage = RigidBodyStorage {
            positions: Vec::with_capacity(capacity),
            rotations: Vec::with_capacity(capacity),
            linear_velocities: Vec::with_capacity(capacity),
            angular_velocities: Vec::with_capacity(capacity),
            masses: Vec::with_capacity(capacity),
            shape_types: Vec::with_capacity(capacity),
            radii: Vec::with_capacity(capacity),
            colors: Vec::with_capacity(capacity),
        };
        assert(storage@ =~= Seq::<RigidBody>::empty());
        storage
    }

    /// The number of bodies.
    pub fn len(&self) -> (n: usize)
        ensures
            n == self@.len(),
    {
        self.positions.len()
    }

    /// Whether there is no body.
    pub fn is_empty(&self) -> (b: bool)
        ensures
            b == (self@.len() == 0),
    {
        self.positions.len() == 0
    }

    /// Adds a cube of half-extent one half in the default colour, at rest.
    /// Returns its index.
    pub fn push(&mut self, position: Vec3, rotation: Vec4, mass: u32) -> (index: usize)
        ensures
            index == old(self)@.len(),
            final(self)@ == old(self)@.push(
                new_body(
                    position,
                    rotation,
                    mass,
                    ShapeType::Cube,
                    HALF,
                    HALF,
                    default_cube_color(),
                ),
            ),
    {
        self.push_with_shape(position, rotation, mass, ShapeType::Cube, HALF, HALF, cube_color())
    }

    /// Adds a body at rest. A sphere takes `radius`, a cube `half_extent` as
    /// its size. Returns the body's index.
    pub fn push_with_shape(
        &mut self,
        position: Vec3,
        rotation: Vec4,
        mass: u32,
        shape: ShapeType,
        radius: u32,
        half_extent: u32,
        color: Vec3,
    ) -> (index: usize)
        ensures
            index == old(self)@.len(),
            final(self)@ == old(self)@.push(
                new_body(position, rotation, mass, shape, radius, half_extent, color),
            ),
    {
        proof {
            use_type_invariant(&*self);
        }
        let mut taken = RigidBodyStorage::with_capacity(0);
        core::mem::swap(self, &mut taken);
        let RigidBodyStorage {
            mut positions,
            mut rotations,
            mut linear_velocities,
            mut angular_velocities,
            mut masses,
            mut shape_types,
            mut radii,
            mut colors,
        } = taken;
        let index: usize = positions.len();
        let at_rest: Vec3 = [ZERO, ZERO, ZERO];
        positions.push(position);
        rotations.push(rotation);
        linear_velocities.push(at_rest);
        angular_velocities.push(at_rest);
        masses.push(mass);
        shape_types.push(shape.code());
        radii.push(
            match shape {
                ShapeType::Sphere => radius,
                ShapeType::Cube => half_extent,
            },
        );
        colors.push(color);
        *self = RigidBodyStorage {
            positions,
            rotations,
            linear_velocities,
            angular_velocities,
            masses,
            shape_types,
            radii,
            colors,
        };
        proof {
            let body = new_body(position, rotation, mass, shape, radius, half_extent, color);
            assert(at_rest =~= body.linear_velocity);
            assert(self@ =~= old(self)@.push(body));
        }
        index
    }

    /// Removes all bodies.
    pub fn clear(&mut self)
        ensures
            final(self)@ == Seq::<RigidBody>::empty(),
    {
        *self = RigidBodyStorage::with_capacity(0);
    }

    /// Overwrites where body `i` is and how it moves.
    pub fn set_state(
        &mut self,
        i: usize,
        position: Vec3,
        rotation: Vec4,
        linear_velocity: Vec3,
        angular_velocity: Vec3,
    )
        requires
            i < old(self)@.len(),
        ensures
            final(self)@ == old(self)@.update(
                i as int,
                RigidBody {
                    position,
                    rotation,
                    linear_velocity,
                    angular_velocity,
                    ..old(self)@[i as int]
                },
            ),
    {
        proof {
            use_type_invariant(&*self);
        }
        let mut taken = RigidBodyStorage::with_capacity(0);
        core::mem::swap(self, &mut taken);
        let RigidBodyStorage {
            mut positions,
            mut rotations,
            mut linear_velocities,
            mut angular_velocities,
            masses,
            shape_types,
            radii,
            colors,
        } = taken;
        positions.set(i, position);
        rotations.set(i, rotation);
        linear_velocities.set(i, linear_velocity);
        angular_velocities.set(i, angular_velocity);
        *self = RigidBodyStorage {
            positions,
            rotations,
            linear_velocities,
            angular_velocities,
            masses,
            shape_types,
            radii,
            colors,
        };
        proof {
            assert(self@ =~= old(self)@.update(
                i as int,
                RigidBody {
                    position,
                    rotation,
                    linear_velocity,
                    angular_velocity,
                    ..old(self)@[i as int]
                },
            ));
        }
    }

    /// The body at index `i`.
    pub fn body(&self, i: usize) -> (body: RigidBody)
        requires
            i < self@.len(),
        ensures
            body == self@[i as int],
    {
        proof {
            use_type_invariant(self);
        }
        RigidBody {
            position: self.positions[i],
            rotation: self.rotations[i],
            linear_velocity: self.linear_velocities[i],
            angular_velocity: self.angular_velocities[i],
            mass: self.masses[i],
            shape_type: self.shape_types[i],
            radius: self.radii[i],
            color: self.colors[i],
        }
    }

    /// The positions of all bodies.
    pub fn positions(&self) -> (positions: &[Vec3])
        ensures
            positions@.len() == self@.len(),
            forall|i: int| 0 <= i < positions@.len() ==> positions@[i] == self@[i].position,
    {
        self.positions.as_slice()
    }

    /// The orientations of all bodies.
    pub fn rotations(&self) -> (rotations: &[Vec4])
        ensures
            rotations@.len() == self@.len(),
            forall|i: int| 0 <= i < rotations@.len() ==> rotations@[i] == self@[i].rotation,
    {
        proof {
            use_type_invariant(self);
        }
        self.rotations.as_slice()
    }

    /// The shape codes of all bodies: 0 for a cube, 1 for a sphere.
    pub fn shape_types(&self) -> (shape_types: &[u8])
        ensures
            shape_types@.len() == self@.len(),
            forall|i: int|
                0 <= i < shape_types@.len() ==> shape_types@[i] == self@[i].shape_type,
    {
        proof {
            use_type_invariant(self);
        }
        self.shape_types.as_slice()
    }

    /// The sizes of all bodies: radius or half-extent.
    pub fn radii(&self) -> (radii: &[u32])
        ensures
            radii@.len() == self@.len(),
            forall|i: int| 0 <= i < radii@.len() ==> radii@[i] == self@[i].radius,
    {
        proof {
            use_type_invariant(self);
        }
        self.radii.as_slice()
    }

    /// The indices of the bodies with the shape code `code`, in order.
    fn indices_with(&self, code: u8) -> (found: Vec<usize>)
        ensures
            found@ == indices_of(self@, code),
    {
        proof {
            use_type_invariant(self);
        }
        let mut found: Vec<usize> = Vec::new();
        let mut i: usize = 0;
        proof {
            indices(0).lemma_filter_len(has_code(self@, code));
        }
        while i < self.shape_types.len()
            invariant
                i <= self.shape_types@.len(),
                self.shape_types@.len() == self@.len(),
                forall|k: int| 0 <= k < self@.len() ==> self@[k].shape_type == self.shape_types@[k],
                found@ == indices(i as nat).filter(has_code(self@, code)),
            decreases self.shape_types@.len() - i,
        {
            proof {
                assert(indices((i + 1) as nat) =~= indices(i as nat).push(i));
                indices(i as nat).lemma_filter_push(i, has_code(self@, code));
            }
            if self.shape_types[i] == code {
                found.push(i);
            }
            i = i + 1;
        }
        found
    }

    /// The indices of the cubes, in order.
    pub fn cube_indices(&self) -> (found: Vec<usize>)
        ensures
            found@ == indices_of(self@, ShapeType::Cube.spec_code()),
    {
        self.indices_with(ShapeType::Cube.code())
    }

    /// The indices of the spheres, in order.
    pub fn sphere_indices(&self) -> (found: Vec<usize>)
        ensures
            found@ == indices_of(self@, ShapeType::Sphere.spec_code()),
    {
        self.indices_with(ShapeType::Sphere.code())
    }
}

impl Default for RigidBodyStorage {
    fn default() -> (storage: RigidBodyStorage)
        ensures
            storage@ == Seq::<RigidBody>::empty(),
    {
        RigidBodyStorage::with_capacity(0)
    }
}

} // verus!
