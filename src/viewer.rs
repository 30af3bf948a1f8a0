use vstd::prelude::*;

use crate::frame::{make_visible, revealed, FrameCount, Window, REVEAL_FRAME};
use crate::scene::{
    ferris_instance, num_instances, rotate, rotated, scene_camera, scene_light, setup,
    shield_material, shield_mesh, Instance, MaterialHandle, MeshHandle, Transform, World,
    WorldView,
};

verus! {

/// The scene, the window and the frame counter, as seen between frames.
pub struct ViewerView {
    pub world: WorldView,
    pub visible: bool,
    pub frames: FrameCount,
}

/// Everything the per-frame logic reads and changes.
pub struct Viewer {
    pub world: World,
    pub window: Window,
    pub frames: FrameCount,
}

impl View for Viewer {
    type V = ViewerView;

    open spec fn view(&self) -> ViewerView {
        ViewerView { world: self.world@, visible: self.window.visible, frames: self.frames }
    }
}

/// The state right after startup: the scene set up in an empty world, the
/// window hidden, no frame completed.
pub open spec fn started() -> ViewerView {
    ViewerView {
        world: WorldView {
            cameras: seq![scene_camera()],
            lights: seq![scene_light()],
            meshes: seq![shield_mesh()],
            materials: seq![shield_material()],
            instances: Seq::new(
                num_instances(),
                |_i: int| ferris_instance(MeshHandle(0), MaterialHandle(0)),
            ),
        },
        visible: false,
        frames: FrameCount(0),
    }
}

/// The state after one more frame: the window reveal check and the rotation
/// step, then the counter moves on.
pub open spec fn next_frame(v: ViewerView) -> ViewerView {
    ViewerView {
        world: WorldView {
            instances: v.world.instances.map_values(|i: Instance| rotated(i)),
            ..v.world
        },
        visible: revealed(v.visible, v.frames),
        frames: FrameCount(((v.frames.0 + 1) % 0x1_0000_0000) as u32),
    }
}

/// The state after `k` more frames.
pub open spec fn after_frames(v: ViewerView, k: nat) -> ViewerView
    decreases k,
{
    if k == 0 {
        v
    } else {
        next_frame(after_frames(v, (k - 1) as nat))
    }
}

/// A freshly spawned instance after `k` rotation steps.
pub open spec fn ferris_after(k: nat) -> Instance {
    Instance {
        transform: Transform {
            x_rotation_steps: k as u64,
            ..ferris_instance(MeshHandle(0), MaterialHandle(0)).transform
        },
        ..ferris_instance(MeshHandle(0), MaterialHandle(0))
    }
}

impl Viewer {
    /// Opens the hidden window and sets the scene up in an empty world.
    pub fn startup() -> (r: Viewer)
        ensures
            r@ == started(),
    {
        let mut world = World::new();
        setup(&mut world);
        let r = Viewer { world, window: Window::hidden(), frames: FrameCount::new() };
        assert(r@.world.cameras =~= started().world.cameras);
        assert(r@.world.lights =~= started().world.lights);
        assert(r@.world.meshes =~= started().world.meshes);
        assert(r@.world.materials =~= started().world.materials);
        assert(r@.world.instances =~= started().world.instances);
        r
    }

    /// Runs one frame: the reveal check and the rotation step, after which the
    /// frame counts as completed.
    pub fn update(&mut self)
        requires
            forall|i: int|
                0 <= i < old(self)@.world.instances.len()
                    && #[trigger] old(self)@.world.instances[i].rotatable
                    ==> old(self)@.world.instances[i].transform.x_rotation_steps < u64::MAX,
        ensures
            final(self)@ == next_frame(old(self)@),
    {
        make_visible(&mut self.window, self.frames);
        rotate(&mut self.world);
        self.frames = self.frames.advance();
    }
}

proof fn lemma_frames_counted(k: nat)
    ensures
        after_frames(started(), k).frames.0 == k % 0x1_0000_0000,
    decreases k,
{
    if k > 0 {
        lemma_frames_counted((k - 1) as nat);
    }
}

/// The window stays hidden until `REVEAL_FRAME` frames have completed, is
/// shown during the next frame, and stays shown from then on: it goes from
/// hidden to shown exactly once.
pub proof fn lemma_window_revealed_once(k: nat)
    ensures
        after_frames(started(), k).visible <==> k > REVEAL_FRAME,
    decreases k,
{
    if k > 0 {
        lemma_window_revealed_once((k - 1) as nat);
        lemma_frames_counted((k - 1) as nat);
    }
}

/// However many frames have run, the scene holds one mesh and one material,
/// and every instance refers to exactly those two.
pub proof fn lemma_instances_share_resources(k: nat)
    ensures
        after_frames(started(), k).world.meshes == seq![shield_mesh()],
        after_frames(started(), k).world.materials == seq![shield_material()],
        forall|i: int|
            0 <= i < after_frames(started(), k).world.instances.len() ==> {
                &&& (#[trigger] after_frames(started(), k).world.instances[i]).mesh == MeshHandle(0)
                &&& after_frames(started(), k).world.instances[i].material == MaterialHandle(0)
            },
    decreases k,
{
    if k > 0 {
        lemma_instances_share_resources((k - 1) as nat);
    }
}

/// Setup spawns `NUM_FERRIS * NUM_FERRIS` instances, and no frame spawns or
/// removes any.
pub proof fn lemma_instance_count_fixed(k: nat)
    ensures
        after_frames(started(), k).world.instances.len() == num_instances(),
        num_instances() == 400,
    decreases k,
{
    if k > 0 {
        lemma_instance_count_fixed((k - 1) as nat);
    }
}

/// After `k` frames every instance, whatever its index, has composed exactly
/// `k` rotation steps about X and is otherwise as it was spawned.
pub proof fn lemma_rotation_after_frames(k: nat, i: int)
    requires
        k <= u64::MAX,
        0 <= i < num_instances(),
    ensures
        after_frames(started(), k).world.instances[i] == ferris_after(k),
    decreases k,
{
    lemma_instance_count_fixed(k);
    if k > 0 {
        lemma_rotation_after_frames((k - 1) as nat, i);
        lemma_instance_count_fixed((k - 1) as nat);
    }
}

} // verus!
