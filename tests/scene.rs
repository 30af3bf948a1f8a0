use shielded_ferris::frame::{make_visible, FrameCount, Window, REVEAL_FRAME};
use shielded_ferris::material::{AlphaMode, ShaderRef, ShieldMaterial, SHADER_ASSET_PATH};
use shielded_ferris::scene::{
    rotate, setup, IcoSphere, Instance, MaterialHandle, MeshHandle, SpawnShieldedFerris,
    Transform, Vec3i, World, FERRIS_SCALE, NUM_FERRIS, ROTATION_STEP_CENTIRADIANS,
};
use shielded_ferris::viewer::Viewer;

#[test]
fn empty_world_before_setup() {
    let world = World::new();
    assert_eq!(world.instances.len(), 0);
    assert_eq!(world.meshes.len(), 0);
    assert_eq!(world.materials.len(), 0);
}

#[test]
fn setup_spawns_four_hundred_instances() {
    let mut world = World::new();
    setup(&mut world);
    assert_eq!(world.instances.len(), 400);
    assert_eq!((NUM_FERRIS * NUM_FERRIS) as usize, world.instances.len());
    assert_eq!(world.cameras.len(), 1);
    assert_eq!(world.lights.len(), 1);
    assert!(world.cameras[0].hdr);
    assert_eq!(world.cameras[0].translation, Vec3i::new(0, 0, 100));
    assert_eq!(world.cameras[0].target, Vec3i::new(0, 0, 0));
    assert!(!world.lights[0].shadows_enabled);
    assert_eq!(world.lights[0].translation, Vec3i::new(4, 4, 10));
}

#[test]
fn all_instances_share_one_mesh_and_one_material() {
    let mut world = World::new();
    setup(&mut world);
    assert_eq!(world.meshes.len(), 1);
    assert_eq!(world.materials.len(), 1);
    assert_eq!(world.meshes[0], IcoSphere { radius: 2, subdivisions: 2 });
    for instance in &world.instances {
        assert_eq!(instance.mesh, MeshHandle(0));
        assert_eq!(instance.material, MaterialHandle(0));
    }
}

#[test]
fn setup_appends_to_a_populated_world() {
    let mut world = World::new();
    world.add_mesh(IcoSphere { radius: 1, subdivisions: 0 });
    setup(&mut world);
    assert_eq!(world.meshes.len(), 2);
    for instance in &world.instances {
        assert_eq!(instance.mesh, MeshHandle(1));
        assert_eq!(instance.material, MaterialHandle(0));
    }
}

#[test]
fn instances_overlap_at_the_origin() {
    let mut world = World::new();
    setup(&mut world);
    for instance in &world.instances {
        assert_eq!(instance.transform, Transform::from_scale(4));
        assert_eq!(instance.transform.translation, Vec3i::new(0, 0, 0));
        assert_eq!(instance.transform.scale, FERRIS_SCALE);
        assert!(instance.visible);
        assert!(!instance.casts_shadows);
        assert!(instance.rotatable);
    }
}

#[test]
fn window_revealed_after_three_frames() {
    let mut viewer = Viewer::startup();
    assert!(!viewer.window.visible);
    let mut seen = Vec::new();
    for _ in 0..8 {
        viewer.update();
        seen.push(viewer.window.visible);
    }
    assert_eq!(seen, vec![false, false, false, true, true, true, true, true]);
    let transitions = seen.windows(2).filter(|w| w[0] != w[1]).count();
    assert_eq!(transitions, 1);
    assert_eq!(viewer.frames, FrameCount(8));
}

#[test]
fn make_visible_only_at_reveal_frame() {
    let mut window = Window::hidden();
    make_visible(&mut window, FrameCount(2));
    assert!(!window.visible);
    make_visible(&mut window, FrameCount(4));
    assert!(!window.visible);
    make_visible(&mut window, FrameCount(REVEAL_FRAME));
    assert!(window.visible);
    make_visible(&mut window, FrameCount(4));
    assert!(window.visible);
}

#[test]
fn frame_counter_wraps() {
    assert_eq!(FrameCount::new().advance(), FrameCount(1));
    assert_eq!(FrameCount(u32::MAX).advance(), FrameCount(0));
}

#[test]
fn rotation_after_k_frames_is_k_steps() {
    let mut viewer = Viewer::startup();
    for _ in 0..10 {
        viewer.update();
    }
    assert_eq!(viewer.world.instances.len(), 400);
    for instance in &viewer.world.instances {
        assert_eq!(instance.transform.x_rotation_steps, 10);
        let radians = instance.transform.x_rotation_steps as f64
            * ROTATION_STEP_CENTIRADIANS as f64
            / 100.0;
        assert!((radians - 0.1).abs() < 1e-9);
    }
}

#[test]
fn rotate_skips_untagged_instances() {
    let mut world = World::new();
    let mesh = world.add_mesh(IcoSphere { radius: 2, subdivisions: 2 });
    let material = world.add_material(ShieldMaterial { alpha_mode: AlphaMode::Add });
    world.instances.push(Instance {
        mesh,
        material,
        transform: Transform::from_scale(1),
        visible: true,
        casts_shadows: true,
        rotatable: false,
    });
    SpawnShieldedFerris { transform: Transform::from_scale(3), shield: mesh, shield_material: material }
        .apply(&mut world);
    rotate(&mut world);
    rotate(&mut world);
    assert_eq!(world.instances[0].transform.x_rotation_steps, 0);
    assert_eq!(world.instances[1].transform.x_rotation_steps, 2);
    assert_eq!(world.instances[1].transform.scale, 3);
}

#[test]
fn spawn_command_adds_one_tagged_instance() {
    let mut world = World::new();
    let command = SpawnShieldedFerris {
        transform: Transform::from_scale(4),
        shield: MeshHandle(7),
        shield_material: MaterialHandle(9),
    };
    command.apply(&mut world);
    assert_eq!(world.instances.len(), 1);
    assert_eq!(
        world.instances[0],
        Instance {
            mesh: MeshHandle(7),
            material: MaterialHandle(9),
            transform: Transform::from_scale(4),
            visible: true,
            casts_shadows: false,
            rotatable: true,
        }
    );
}

#[test]
fn material_registered_additive_but_reports_blend() {
    let mut world = World::new();
    setup(&mut world);
    assert_eq!(world.materials[0].alpha_mode, AlphaMode::Add);
    assert_eq!(world.materials[0].alpha_mode(), AlphaMode::Blend);
}

#[test]
fn both_shader_stages_load_the_shield_shader() {
    assert_eq!(ShieldMaterial::vertex_shader(), ShaderRef::Path("shield.wgsl"));
    assert_eq!(ShieldMaterial::fragment_shader(), ShaderRef::Path(SHADER_ASSET_PATH));
    assert_eq!(ShieldMaterial::vertex_shader(), ShieldMaterial::fragment_shader());
}
