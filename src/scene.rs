use vstd::prelude::*;

use itertools::Itertools;

use crate::material::{AlphaMode, ShieldMaterial};

verus! {

/// Side of the square grid of shielded instances.
pub const NUM_FERRIS: u32 = 20;

/// Uniform scale of every shielded instance.
pub const FERRIS_SCALE: u32 = 4;

/// Radius of the shield sphere, in scene units.
pub const SHIELD_RADIUS: u32 = 2;

/// Subdivision level of the shield icosphere.
pub const SHIELD_SUBDIVISIONS: u32 = 2;

/// Distance of the camera from the origin along Z.
pub const CAMERA_DISTANCE: i32 = 100;

/// One rotation step about X, in hundredths of a radian.
pub const ROTATION_STEP_CENTIRADIANS: u32 = 1;

/// Number of instances the scene spawns.
pub open spec fn num_instances() -> nat {
    (NUM_FERRIS * NUM_FERRIS) as nat
}

/// A point or offset with integer coordinates.
#[derive(Clone, Copy, Debug, PartialEq, Eq, Structural)]
pub struct Vec3i {
    pub x: i32,
    pub y: i32,
    pub z: i32,
}

impl Vec3i {
    pub fn new(x: i32, y: i32, z: i32) -> (r: Vec3i)
        ensures
            r == (Vec3i { x, y, z }),
    {
        Vec3i { x, y, z }
    }
}

/// The origin.
pub open spec fn origin() -> Vec3i {
    Vec3i { x: 0, y: 0, z: 0 }
}

/// Position, orientation and uniform scale of an instance. The only rotation an
/// instance ever receives is about the X axis, so the orientation is the number
/// of `ROTATION_STEP_CENTIRADIANS` increments composed so far.
#[derive(Clone, Copy, Debug, PartialEq, Eq, Structural)]
pub struct Transform {
    pub translation: Vec3i,
    pub x_rotation_steps: u64,
    pub scale: u32,
}

impl Transform {
    /// A transform at the origin, unrotated, with the given uniform scale.
    pub fn from_scale(scale: u32) -> (r: Transform)
        ensures
            r == (Transform { translation: origin(), x_rotation_steps: 0, scale }),
    {
        Transform { translation: Vec3i::new(0, 0, 0), x_rotation_steps: 0, scale }
    }

    /// Composes one more rotation step about X with the current orientation.
    pub fn rotate_x_step(&mut self)
        requires
            old(self).x_rotation_steps < u64::MAX,
        ensures
            *final(self) == (Transform {
                x_rotation_steps: (old(self).x_rotation_steps + 1) as u64,
                ..*old(self)
            }),
    {
        self.x_rotation_steps = self.x_rotation_steps + 1;
    }
}

/// Index of a mesh in the world's mesh registry.
#[derive(Clone, Copy, Debug, PartialEq, Eq, Structural)]
pub struct MeshHandle(pub usize);

/// Index of a material in the world's material registry.
#[derive(Clone, Copy, Debug, PartialEq, Eq, Structural)]
pub struct MaterialHandle(pub usize);

/// Sphere geometry tessellated from a subdivided icosahedron.
#[derive(Clone, Copy, Debug, PartialEq, Eq, Structural)]
pub struct IcoSphere {
    pub radius: u32,
    pub subdivisions: u32,
}

/// A high-dynamic-range camera looking at a target point.
#[derive(Clone, Copy, Debug, PartialEq, Eq, Structural)]
pub struct Camera {
    pub hdr: bool,
    pub translation: Vec3i,
    pub target: Vec3i,
}

/// A directional light placed at a point.
#[derive(Clone, Copy, Debug, PartialEq, Eq, Structural)]
pub struct DirectionalLight {
    pub shadows_enabled: bool,
    pub translation: Vec3i,
}

/// One rendered object: shared mesh and material, its own transform.
#[derive(Clone, Copy, Debug, PartialEq, Eq, Structural)]
pub struct Instance {
    pub mesh: MeshHandle,
    pub material: MaterialHandle,
    pub transform: Transform,
    pub visible: bool,
    pub casts_shadows: bool,
    /// Tagged for the per-frame rotation.
    pub rotatable: bool,
}

/// The instance after one more rotation step, if it is tagged for rotation.
pub open spec fn rotated(i: Instance) -> Instance {
    if i.rotatable {
        Instance {
            transform: Transform {
                x_rotation_steps: (i.transform.x_rotation_steps + 1) as u64,
                ..i.transform
            },
            ..i
        }
    } else {
        i
    }
}

/// The camera of the scene: on the Z axis, looking at the origin.
pub open spec fn scene_camera() -> Camera {
    Camera { hdr: true, translation: Vec3i { x: 0, y: 0, z: CAMERA_DISTANCE }, target: origin() }
}

/// The light of the scene, which casts no shadows.
pub open spec fn scene_light() -> DirectionalLight {
    DirectionalLight { shadows_enabled: false, translation: Vec3i { x: 4, y: 4, z: 10 } }
}

/// The shield geometry shared by all instances.
pub open spec fn shield_mesh() -> IcoSphere {
    IcoSphere { radius: SHIELD_RADIUS, subdivisions: SHIELD_SUBDIVISIONS }
}

/// The shield material as the scene registers it: additive blending.
pub open spec fn shield_material() -> ShieldMaterial {
    ShieldMaterial { alpha_mode: AlphaMode::Add }
}

/// A freshly spawned shielded instance.
pub open spec fn ferris_instance(mesh: MeshHandle, material: MaterialHandle) -> Instance {
    Instance {
        mesh,
        material,
        transform: Transform { translation: origin(), x_rotation_steps: 0, scale: FERRIS_SCALE },
        visible: true,
        casts_shadows: false,
        rotatable: true,
    }
}

/// What the world holds, as sequences.
pub struct WorldView {
    pub cameras: Seq<Camera>,
    pub lights: Seq<DirectionalLight>,
    pub meshes: Seq<IcoSphere>,
    pub materials: Seq<ShieldMaterial>,
    pub instances: Seq<Instance>,
}

/// The scene: registries of shared resources and the spawned entities.
pub struct World {
    pub cameras: Vec<Camera>,
    pub lights: Vec<DirectionalLight>,
    pub meshes: Vec<IcoSphere>,
    pub materials: Vec<ShieldMaterial>,
    pub instances: Vec<Instance>,
}

impl View for World {
    type V = WorldView;

    open spec fn view(&self) -> WorldView {
        WorldView {
            cameras: self.cameras@,
            lights: self.lights@,
            meshes: self.meshes@,
            materials: self.materials@,
            instances: self.instances@,
        }
    }
}

impl WorldView {
    /// Every instance refers to a registered mesh and a registered material.
    pub open spec fn handles_valid(self) -> bool {
        forall|i: int|
            0 <= i < self.instances.len() ==> {
                &&& self.instances[i].mesh.0 < self.meshes.len()
                &&& self.instances[i].material.0 < self.materials.len()
            }
    }
}

impl World {
    /// An empty world: nothing registered, nothing spawned.
    pub fn new() -> (r: World)
        ensures
            r@.cameras.len() == 0,
            r@.lights.len() == 0,
            r@.meshes.len() == 0,
            r@.materials.len() == 0,
            r@.instances.len() == 0,
    {
        World {
            cameras: Vec::new(),
            lights: Vec::new(),
            meshes: Vec::new(),
            materials: Vec::new(),
            instances: Vec::new(),
        }
    }

    /// Registers a mesh and returns the handle that refers to it.
    pub fn add_mesh(&mut self, mesh: IcoSphere) -> (r: MeshHandle)
        ensures
            final(self)@ == (WorldView { meshes: old(self)@.meshes.push(mesh), ..old(self)@ }),
            r.0 == old(self)@.meshes.len(),
    {
        let handle = MeshHandle(self.meshes.len());
        self.meshes.push(mesh);
        handle
    }

    /// Registers a material and returns the handle that refers to it.
    pub fn add_material(&mut self, material: ShieldMaterial) -> (r: MaterialHandle)
        ensures
            final(self)@ == (WorldView {
                materials: old(self)@.materials.push(material),
                ..old(self)@
            }),
            r.0 == old(self)@.materials.len(),
    {
        let handle = MaterialHandle(self.materials.len());
        self.materials.push(material);
        handle
    }
}

/// A deferred request to spawn one shielded instance.
pub struct SpawnShieldedFerris {
    pub transform: Transform,
    pub shield: MeshHandle,
    pub shield_material: MaterialHandle,
}

impl SpawnShieldedFerris {
    /// The instance this request spawns: visible, casting no shadow, and
    /// tagged for rotation.
    pub open spec fn spawned(self) -> Instance {
        Instance {
            mesh: self.shield,
            material: self.shield_material,
            transform: self.transform,
            visible: true,
            casts_shadows: false,
            rotatable: true,
        }
    }

    /// Spawns the instance into the world.
    pub fn apply(self, world: &mut World)
        ensures
            final(world)@ == (WorldView {
                instances: old(world)@.instances.push(self.spawned()),
                ..old(world)@
            }),
    {
        world.instances.push(
            Instance {
                mesh: self.shield,
                material: self.shield_material,
                transform: self.transform,
                visible: true,
                casts_shadows: false,
                rotatable: true,
            },
        );
    }
}

/// Relies on itertools::Itertools::cartesian_product, collected: every pair of
/// one value of `0..rows` and one of `0..cols`, the first range outermost.
#[verifier::external_body]
fn grid_cells(rows: u32, cols: u32) -> (r: Vec<(u32, u32)>)
    requires
        rows as int * cols as int <= usize::MAX,
    ensures
        r@.len() == rows as int * cols as int,
        forall|i: int|
            0 <= i < r@.len() ==> r@[i] == ((i / cols as int) as u32, (i % cols as int) as u32),
{
    (0..rows).cartesian_product(0..cols).collect()
}

/// Populates the world: one camera, one light, one shield mesh and one
/// shield material, and one instance per cell of a `NUM_FERRIS` by
/// `NUM_FERRIS` grid. All instances share the mesh and the material, and all
/// have the same transform: the grid cell does not offset it.
pub fn setup(world: &mut World)
    requires
        old(world)@.instances.len() + num_instances() <= usize::MAX,
    ensures
        final(world)@.cameras == old(world)@.cameras.push(scene_camera()),
        final(world)@.lights == old(world)@.lights.push(scene_light()),
        final(world)@.meshes == old(world)@.meshes.push(shield_mesh()),
        final(world)@.materials == old(world)@.materials.push(shield_material()),
        final(world)@.instances == old(world)@.instances + Seq::new(
            num_instances(),
            |_i: int|
                ferris_instance(
                    MeshHandle(old(world)@.meshes.len() as usize),
                    MaterialHandle(old(world)@.materials.len() as usize),
                ),
        ),
{
    world.cameras.push(
        Camera {
            hdr: true,
            translation: Vec3i::new(0, 0, CAMERA_DISTANCE),
            target: Vec3i::new(0, 0, 0),
        },
    );
    world.lights.push(DirectionalLight { shadows_enabled: false, translation: Vec3i::new(4, 4, 10) });
    let material = world.add_material(ShieldMaterial { alpha_mode: AlphaMode::Add });
    let shield = world.add_mesh(IcoSphere { radius: SHIELD_RADIUS, subdivisions: SHIELD_SUBDIVISIONS });
    let ghost start = world@;
    let ghost spawned = ferris_instance(shield, material);
    let cells = grid_cells(NUM_FERRIS, NUM_FERRIS);
    let mut n: usize = 0;
    while n < cells.len()
        invariant
            cells@.len() == num_instances(),
            spawned == ferris_instance(shield, material),
            n <= cells@.len(),
            start.instances.len() + num_instances() <= usize::MAX,
            world@ == (WorldView {
                instances: start.instances + Seq::new(n as nat, |_i: int| spawned),
                ..start
            }),
        decreases cells.len() - n,
    {
        let command = SpawnShieldedFerris {
            transform: Transform::from_scale(FERRIS_SCALE),
            shield,
            shield_material: material,
        };
        command.apply(world);
        assert(start.instances + Seq::new((n + 1) as nat, |_i: int| spawned) =~= (start.instances
            + Seq::new(n as nat, |_i: int| spawned)).push(spawned));
        n = n + 1;
    }
}

/// Composes one rotation step about X with the orientation of every instance
/// tagged for rotation; untagged instances and everything else stay as they
/// are.
pub fn rotate(world: &mut World)
    requires
        forall|i: int|
            0 <= i < old(world)@.instances.len() && #[trigger] old(world)@.instances[i].rotatable
                ==> old(world)@.instances[i].transform.x_rotation_steps < u64::MAX,
    ensures
        final(world)@ == (WorldView {
            instances: old(world)@.instances.map_values(|i: Instance| rotated(i)),
            ..old(world)@
        }),
{
    let ghost start = world@;
    let mut n: usize = 0;
    while n < world.instances.len()
        invariant
            n <= world@.instances.len(),
            world@.instances.len() == start.instances.len(),
            world@.cameras == start.cameras,
            world@.lights == start.lights,
            world@.meshes == start.meshes,
            world@.materials == start.materials,
            forall|i: int|
                0 <= i < start.instances.len() && #[trigger] start.instances[i].rotatable
                    ==> start.instances[i].transform.x_rotation_steps < u64::MAX,
            forall|i: int| 0 <= i < n ==> world@.instances[i] == rotated(start.instances[i]),
            forall|i: int| n <= i < world@.instances.len() ==> world@.instances[i] == start.instances[i],
        decreases world.instances.len() - n,
    {
        let mut instance = world.instances[n];
        if instance.rotatable {
            assert(start.instances[n as int].rotatable);
            instance.transform.rotate_x_step();
        }
        world.instances.set(n, instance);
        n = n + 1;
    }
    assert(world@.instances =~= start.instances.map_values(|i: Instance| rotated(i)));
}

} // verus!
