//! Building a scene body by body.

use vstd::prelude::*;
use crate::scalar::{Vec3, Vec4, HALF, ONE, ZERO};

verus! {

/// The shapes a rigid body can have.
#[derive(Clone, Copy, Debug, PartialEq, Eq, Structural)]
pub enum ShapeType {
    Cube,
    Sphere,
}

impl ShapeType {
    /// The shape as a number: 0 for a cube, 1 for a sphere.
    pub open spec fn spec_code(self) -> u8 {
        match self {
            ShapeType::Cube => 0,
            ShapeType::Sphere => 1,
        }
    }

    /// The shape as a number: 0 for a cube, 1 for a sphere.
    #[verifier::when_used_as_spec(spec_code)]
    pub fn code(self) -> (c: u8)
        ensures
            c == self.spec_code(),
    {
        match self {
            ShapeType::Cube => 0,
            ShapeType::Sphere => 1,
        }
    }
}

/// Bit pattern of `0.3`: how much of its speed a cube keeps in a bounce.
pub const CUBE_RESTITUTION: u32 = 0x3e99_999a;

/// Bit pattern of `0.6`: spheres bounce more.
pub const SPHERE_RESTITUTION: u32 = 0x3f19_999a;

/// Bodies a renderer has room for at the least.
pub const MIN_INSTANCE_CAPACITY: usize = 1000;

/// The colour of a cube that is given none: terracotta,
/// `(0.82, 0.32, 0.12)`.
pub open spec fn default_cube_color() -> Vec3 {
    [0x3f51_eb85u32, 0x3ea3_d70au32, 0x3df5_c28fu32]
}

/// The colour of a sphere that is given none: blue, `(0.35, 0.5, 0.75)`.
pub open spec fn default_sphere_color() -> Vec3 {
    [0x3eb3_3333u32, 0x3f00_0000u32, 0x3f40_0000u32]
}

/// The colour of a cube that is given none.
pub fn cube_color() -> (color: Vec3)
    ensures
        color == default_cube_color(),
{
    let color: Vec3 = [0x3f51_eb85, 0x3ea3_d70a, 0x3df5_c28f];
    assert(color =~= default_cube_color());
    color
}

/// The colour of a sphere that is given none.
pub fn sphere_color() -> (color: Vec3)
    ensures
        color == default_sphere_color(),
{
    let color: Vec3 = [0x3eb3_3333, 0x3f00_0000, 0x3f40_0000];
    assert(color =~= default_sphere_color());
    color
}

/// What a rigid body is at the start. All numbers are single-precision bit
/// patterns.
#[derive(Clone, Copy, Debug, PartialEq, Eq)]
pub struct RigidBodyConfig {
    pub position: Vec3,
    /// Orientation as a quaternion `(x, y, z, w)`.
    pub rotation: Vec4,
    pub velocity: Vec3,
    /// Half the edges of a cube.
    pub half_extents: Vec3,
    /// Radius of a sphere.
    pub radius: u32,
    pub shape: ShapeType,
    pub mass: u32,
    pub restitution: u32,
    pub friction: u32,
    pub color: Vec3,
}

/// A unit cube of mass one at rest at the origin, unturned, in terracotta.
pub open spec fn default_body() -> RigidBodyConfig {
    RigidBodyConfig {
        position: [ZERO, ZERO, ZERO],
        rotation: [ZERO, ZERO, ZERO, ONE],
        velocity: [ZERO, ZERO, ZERO],
        half_extents: [HALF, HALF, HALF],
        radius: HALF,
        shape: ShapeType::Cube,
        mass: ONE,
        restitution: CUBE_RESTITUTION,
        friction: HALF,
        color: default_cube_color(),
    }
}

/// A cube with the given half-extent along each axis.
pub open spec fn cube_body(position: Vec3, half_extent: u32, mass: u32, color: Vec3) -> RigidBodyConfig {
    RigidBodyConfig {
        position,
        half_extents: [half_extent, half_extent, half_extent],
        mass,
        color,
        ..default_body()
    }
}

/// A sphere.
pub open spec fn sphere_body(
    position: Vec3,
    velocity: Vec3,
    radius: u32,
    mass: u32,
    color: Vec3,
) -> RigidBodyConfig {
    RigidBodyConfig {
        position,
        velocity,
        radius,
        shape: ShapeType::Sphere,
        mass,
        restitution: SPHERE_RESTITUTION,
        color,
        ..default_body()
    }
}

impl Default for RigidBodyConfig {
    fn default() -> (body: RigidBodyConfig)
        ensures
            body == default_body(),
    {
        let body = RigidBodyConfig {
            position: [ZERO, ZERO, ZERO],
            rotation: [ZERO, ZERO, ZERO, ONE],
            velocity: [ZERO, ZERO, ZERO],
            half_extents: [HALF, HALF, HALF],
            radius: HALF,
            shape: ShapeType::Cube,
            mass: ONE,
            restitution: CUBE_RESTITUTION,
            friction: HALF,
            color: cube_color(),
        };
        assert(body.position =~= default_body().position);
        assert(body.rotation =~= default_body().rotation);
        assert(body.velocity =~= default_body().velocity);
        assert(body.half_extents =~= default_body().half_extents);
        body
    }
}

fn make_cube(position: Vec3, half_extent: u32, mass: u32, color: Vec3) -> (body: RigidBodyConfig)
    ensures
        body == cube_body(position, half_extent, mass, color),
{
    let mut body = RigidBodyConfig::default();
    body.position = position;
    body.half_extents = [half_extent, half_extent, half_extent];
    body.mass = mass;
    body.color = color;
    assert(body.half_extents =~= cube_body(position, half_extent, mass, color).half_extents);
    body
}

fn make_sphere(position: Vec3, velocity: Vec3, radius: u32, mass: u32, color: Vec3) -> (body:
    RigidBodyConfig)
    ensures
        body == sphere_body(position, velocity, radius, mass, color),
{
    let mut body = RigidBodyConfig::default();
    body.position = position;
    body.velocity = velocity;
    body.radius = radius;
    body.shape = ShapeType::Sphere;
    body.mass = mass;
    body.restitution = SPHERE_RESTITUTION;
    body.color = color;
    body
}

/// Whether a body has the shape `shape`.
pub open spec fn has_shape(shape: ShapeType) -> spec_fn(RigidBodyConfig) -> bool {
    |b: RigidBodyConfig| b.shape == shape
}

/// How many of `bodies` have the shape `shape`.
pub open spec fn count_of(bodies: Seq<RigidBodyConfig>, shape: ShapeType) -> nat {
    bodies.filter(has_shape(shape)).len()
}

/// The cells of a grid of `count.0` by `count.1` by `count.2` cells, the last
/// coordinate running fastest.
pub open spec fn grid_cells(count: (int, int, int)) -> Seq<[u32; 3]> {
    Seq::new(
        (count.0 * count.1 * count.2) as nat,
        |i: int| [(i / (count.1 * count.2)) as u32, (i / count.2 % count.1) as u32, (i % count.2) as u32],
    )
}

/// The cubes at the given positions.
pub open spec fn cube_bodies(positions: Seq<Vec3>, half_extent: u32, mass: u32) -> Seq<RigidBodyConfig> {
    Seq::new(
        positions.len(),
        |i: int| cube_body(positions[i], half_extent, mass, default_cube_color()),
    )
}

/// The bodies of a scene, and its ground.
#[derive(Debug)]
pub struct SceneBuilder {
    pub bodies: Vec<RigidBodyConfig>,
    /// Height of the ground plane, if there is one.
    pub ground_y: Option<u32>,
    /// Half the edge of the ground plane.
    pub ground_size: u32,
}

impl SceneBuilder {
    /// An empty scene without ground.
    pub fn new() -> (scene: SceneBuilder)
        ensures
            scene.bodies@ == Seq::<RigidBodyConfig>::empty(),
            scene.ground_y is None,
            scene.ground_size == ZERO,
    {
        SceneBuilder { bodies: Vec::new(), ground_y: None, ground_size: ZERO }
    }

    /// Puts a ground plane at height `y` that reaches `size` to each side.
    pub fn add_ground(&mut self, y: u32, size: u32) -> (scene: &mut Self)
        ensures
            scene.bodies@ == old(self).bodies@,
            scene.ground_y == Some(y),
            scene.ground_size == size,
            *final(self) == *final(scene),
    {
        self.ground_y = Some(y);
        self.ground_size = size;
        self
    }

    /// Adds a cube in the default colour.
    pub fn add_cube(&mut self, position: Vec3, half_extent: u32, mass: u32) -> (scene: &mut Self)
        ensures
            scene.bodies@ == old(self).bodies@.push(
                cube_body(position, half_extent, mass, default_cube_color()),
            ),
            scene.ground_y == old(self).ground_y,
            scene.ground_size == old(self).ground_size,
            *final(self) == *final(scene),
    {
        self.bodies.push(make_cube(position, half_extent, mass, cube_color()));
        self
    }

    /// Adds a cube.
    pub fn add_cube_colored(&mut self, position: Vec3, half_extent: u32, mass: u32, color: Vec3) -> (scene:
        &mut Self)
        ensures
            scene.bodies@ == old(self).bodies@.push(cube_body(position, half_extent, mass, color)),
            scene.ground_y == old(self).ground_y,
            scene.ground_size == old(self).ground_size,
            *final(self) == *final(scene),
    {
        self.bodies.push(make_cube(position, half_extent, mass, color));
        self
    }

    /// Adds one cube at each of `positions`, in order. The positions of a
    /// regular grid are those of `cube_grid_cells`, each scaled by the spacing
    /// and moved so that the grid is centred.
    pub fn add_cube_grid(&mut self, positions: &[Vec3], half_extent: u32, mass: u32) -> (scene:
        &mut Self)
        ensures
            scene.bodies@ == old(self).bodies@ + cube_bodies(positions@, half_extent, mass),
            scene.ground_y == old(self).ground_y,
            scene.ground_size == old(self).ground_size,
            *final(self) == *final(scene),
    {
        let mut i: usize = 0;
        while i < positions.len()
            invariant
                i <= positions@.len(),
                self.bodies@ == old(self).bodies@ + cube_bodies(positions@, half_extent, mass).take(
                    i as int,
                ),
                self.ground_y == old(self).ground_y,
                self.ground_size == old(self).ground_size,
            decreases positions@.len() - i,
        {
            self.bodies.push(make_cube(positions[i], half_extent, mass, cube_color()));
            assert(self.bodies@ =~= old(self).bodies@ + cube_bodies(
                positions@,
                half_extent,
                mass,
            ).take(i + 1));
            i = i + 1;
        }
        assert(cube_bodies(positions@, half_extent, mass).take(i as int) =~= cube_bodies(
            positions@,
            half_extent,
            mass,
        ));
        self
    }

    /// Adds a sphere at rest in the default colour.
    pub fn add_sphere(&mut self, position: Vec3, radius: u32, mass: u32) -> (scene: &mut Self)
        ensures
            scene.bodies@ == old(self).bodies@.push(
                sphere_body(position, [ZERO, ZERO, ZERO], radius, mass, default_sphere_color()),
            ),
            scene.ground_y == old(self).ground_y,
            scene.ground_size == old(self).ground_size,
            *final(self) == *final(scene),
    {
        let at_rest: Vec3 = [ZERO, ZERO, ZERO];
        self.bodies.push(make_sphere(position, at_rest, radius, mass, sphere_color()));
        self
    }

    /// Adds a sphere at rest.
    pub fn add_sphere_colored(&mut self, position: Vec3, radius: u32, mass: u32, color: Vec3) -> (scene:
        &mut Self)
        ensures
            scene.bodies@ == old(self).bodies@.push(
                sphere_body(position, [ZERO, ZERO, ZERO], radius, mass, color),
            ),
            scene.ground_y == old(self).ground_y,
            scene.ground_size == old(self).ground_size,
            *final(self) == *final(scene),
    {
        let at_rest: Vec3 = [ZERO, ZERO, ZERO];
        self.bodies.push(make_sphere(position, at_rest, radius, mass, color));
        self
    }

    /// Adds a moving sphere in the default colour.
    pub fn add_sphere_with_velocity(
        &mut self,
        position: Vec3,
        velocity: Vec3,
        radius: u32,
        mass: u32,
    ) -> (scene: &mut Self)
        ensures
            scene.bodies@ == old(self).bodies@.push(
                sphere_body(position, velocity, radius, mass, default_sphere_color()),
            ),
            scene.ground_y == old(self).ground_y,
            scene.ground_size == old(self).ground_size,
            *final(self) == *final(scene),
    {
        self.bodies.push(make_sphere(position, velocity, radius, mass, sphere_color()));
        self
    }

    /// Adds a moving sphere.
    pub fn add_sphere_with_velocity_colored(
        &mut self,
        position: Vec3,
        velocity: Vec3,
        radius: u32,
        mass: u32,
        color: Vec3,
    ) -> (scene: &mut Self)
        ensures
            scene.bodies@ == old(self).bodies@.push(
                sphere_body(position, velocity, radius, mass, color),
            ),
            scene.ground_y == old(self).ground_y,
            scene.ground_size == old(self).ground_size,
            *final(self) == *final(scene),
    {
        self.bodies.push(make_sphere(position, velocity, radius, mass, color));
        self
    }

    /// The number of cubes and the number of spheres.
    pub fn shape_counts(&self) -> (counts: (usize, usize))
        ensures
            counts.0 == count_of(self.bodies@, ShapeType::Cube),
            counts.1 == count_of(self.bodies@, ShapeType::Sphere),
            counts.0 + counts.1 == self.bodies@.len(),
    {
        let mut cubes: usize = 0;
        let mut spheres: usize = 0;
        let mut i: usize = 0;
        proof {
            self.bodies@.take(0).lemma_filter_len(has_shape(ShapeType::Cube));
            self.bodies@.take(0).lemma_filter_len(has_shape(ShapeType::Sphere));
        }
        while i < self.bodies.len()
            invariant
                i <= self.bodies@.len(),
                cubes == count_of(self.bodies@.take(i as int), ShapeType::Cube),
                spheres == count_of(self.bodies@.take(i as int), ShapeType::Sphere),
                cubes + spheres == i,
            decreases self.bodies@.len() - i,
        {
            proof {
                let seen = self.bodies@.take(i as int);
                let body = self.bodies@[i as int];
                assert(self.bodies@.take(i + 1) =~= seen.push(body));
                seen.lemma_filter_len_push(has_shape(ShapeType::Cube), body);
                seen.lemma_filter_len_push(has_shape(ShapeType::Sphere), body);
            }
            match self.bodies[i].shape {
                ShapeType::Cube => {
                    cubes = cubes + 1;
                },
                ShapeType::Sphere => {
                    spheres = spheres + 1;
                },
            }
            i = i + 1;
        }
        proof {
            assert(self.bodies@.take(i as int) =~= self.bodies@);
        }
        (cubes, spheres)
    }

    /// The half-extent that the cubes are drawn with: that of the first body,
    /// or one half where there is no body.
    pub fn first_half_extent(&self) -> (half_extent: u32)
        ensures
            half_extent == if self.bodies@.len() > 0 {
                self.bodies@[0].half_extents[0]
            } else {
                HALF
            },
    {
        if self.bodies.len() > 0 {
            self.bodies[0].half_extents[0]
        } else {
            HALF
        }
    }

    /// The height at which the ground is drawn: that of the ground plane, or
    /// zero where there is none.
    pub fn ground_height(&self) -> (y: u32)
        ensures
            y == if self.ground_y is Some {
                self.ground_y.unwrap()
            } else {
                ZERO
            },
    {
        match self.ground_y {
            Some(y) => y,
            None => ZERO,
        }
    }
}

impl Default for SceneBuilder {
    /// An empty scene without ground.
    fn default() -> (scene: SceneBuilder)
        ensures
            scene.bodies@ == Seq::<RigidBodyConfig>::empty(),
            scene.ground_y is None,
            scene.ground_size == ZERO,
    {
        SceneBuilder::new()
    }
}

/// The cells of a grid of `count[0]` by `count[1]` by `count[2]` cubes, in the
/// order in which the cubes are added: the last coordinate runs fastest.
pub fn cube_grid_cells(count: [u32; 3]) -> (cells: Vec<[u32; 3]>)
    requires
        count[0] * count[1] * count[2] <= usize::MAX,
    ensures
        cells@ == grid_cells((count[0] as int, count[1] as int, count[2] as int)),
        cells@.len() == count[0] * count[1] * count[2],
{
    let cx: u32 = count[0];
    let cy: u32 = count[1];
    let cz: u32 = count[2];
    let ghost spec_cells = grid_cells((cx as int, cy as int, cz as int));
    let mut cells: Vec<[u32; 3]> = Vec::new();
    let mut ix: u32 = 0;
    while ix < cx
        invariant
            ix <= cx,
            cx == count[0],
            cy == count[1],
            cz == count[2],
            spec_cells == grid_cells((cx as int, cy as int, cz as int)),
            cells@.len() == ix * (cy * cz),
            forall|i: int| 0 <= i < cells@.len() ==> cells@[i] == spec_cells[i],
        decreases cx - ix,
    {
        let mut iy: u32 = 0;
        while iy < cy
            invariant
                ix < cx,
                iy <= cy,
                cx == count[0],
                cy == count[1],
                cz == count[2],
                spec_cells == grid_cells((cx as int, cy as int, cz as int)),
                cells@.len() == ix * (cy * cz) + iy * cz,
                forall|i: int| 0 <= i < cells@.len() ==> cells@[i] == spec_cells[i],
            decreases cy - iy,
        {
            let mut iz: u32 = 0;
            while iz < cz
                invariant
                    ix < cx,
                    iy < cy,
                    iz <= cz,
                    cx == count[0],
                    cy == count[1],
                    cz == count[2],
                    spec_cells == grid_cells((cx as int, cy as int, cz as int)),
                    cells@.len() == ix * (cy * cz) + iy * cz + iz,
                    forall|i: int| 0 <= i < cells@.len() ==> cells@[i] == spec_cells[i],
                decreases cz - iz,
            {
                let cell: [u32; 3] = [ix, iy, iz];
                proof {
                    lemma_grid_cell(cx as int, cy as int, cz as int, ix as int, iy as int, iz as int);
                    let i = ix * (cy * cz) + iy * cz + iz;
                    assert(cell =~= spec_cells[i]);
                }
                cells.push(cell);
                iz = iz + 1;
            }
            proof {
                assert((iy + 1) * cz == iy * cz + cz) by (nonlinear_arith);
            }
            iy = iy + 1;
        }
        proof {
            assert((ix + 1) * (cy * cz) == ix * (cy * cz) + cy * cz) by (nonlinear_arith);
        }
        ix = ix + 1;
    }
    proof {
        assert(cx * (cy * cz) == cx * cy * cz) by (nonlinear_arith);
        assert(cells@ =~= spec_cells);
    }
    cells
}

/// The cell with coordinates `(ix, iy, iz)` stands at
/// `ix * (cy * cz) + iy * cz + iz`.
proof fn lemma_grid_cell(cx: int, cy: int, cz: int, ix: int, iy: int, iz: int)
    requires
        0 <= ix < cx,
        0 <= iy < cy,
        0 <= iz < cz,
    ensures
        ({
            let i = ix * (cy * cz) + iy * cz + iz;
            &&& 0 <= i < cx * cy * cz
            &&& i / (cy * cz) == ix
            &&& i / cz % cy == iy
            &&& i % cz == iz
        }),
{
    let i = ix * (cy * cz) + iy * cz + iz;
    let plane = cy * cz;
    assert(0 <= iy * cz && iy * cz + cz <= plane) by (nonlinear_arith)
        requires
            0 <= iy < cy,
            0 < cz,
            plane == cy * cz,
    ;
    assert(0 <= ix * plane && ix * plane + plane <= cx * cy * cz) by (nonlinear_arith)
        requires
            0 <= ix < cx,
            0 < plane,
            plane == cy * cz,
    ;
    vstd::arithmetic::div_mod::lemma_fundamental_div_mod_converse(i, plane, ix, iy * cz + iz);
    assert(i == (ix * cy + iy) * cz + iz) by (nonlinear_arith)
        requires
            i == ix * (cy * cz) + iy * cz + iz,
    ;
    assert(0 <= ix * cy) by (nonlinear_arith)
        requires
            0 <= ix,
            0 <= cy,
    ;
    vstd::arithmetic::div_mod::lemma_fundamental_div_mod_converse(i, cz, ix * cy + iy, iz);
    vstd::arithmetic::div_mod::lemma_fundamental_div_mod_converse(ix * cy + iy, cy, ix, iy);
}

/// The number of instances a renderer needs room for to draw `body_count`
/// bodies: at least a thousand.
pub fn instance_capacity(body_count: usize) -> (capacity: u32)
    ensures
        capacity == (if body_count >= MIN_INSTANCE_CAPACITY {
            body_count as int
        } else {
            MIN_INSTANCE_CAPACITY as int
        }) % 0x1_0000_0000,
        body_count <= u32::MAX ==> capacity >= body_count && capacity >= MIN_INSTANCE_CAPACITY,
{
    let wanted: usize = if body_count >= MIN_INSTANCE_CAPACITY {
        body_count
    } else {
        MIN_INSTANCE_CAPACITY
    };
    assert((wanted as u32) as u64 == (wanted as u64) % 0x1_0000_0000u64) by (bit_vector);
    #[verifier::truncate]
    (wanted as u32)
}

} // verus!
