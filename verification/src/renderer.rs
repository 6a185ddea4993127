//! The scenes of a renderer and which of them is shown.

use vstd::prelude::*;

use crate::buffer::padded;
use crate::layout::{GPU_TRANSFORM_SIZE, INDEX_SIZE, TEXTURE_VERTEX_SIZE, VERTEX_SIZE};
use crate::material::{ColoredObject, Material};
use crate::scene::Scene;
use crate::utils::{acquire_outcome, spec_acquire_outcome, SurfaceError, SurfaceStatus};

verus! {

/// What a frame does once the surface has answered with a texture.
#[derive(Clone, Copy, Debug, PartialEq, Eq, Structural)]
pub struct FramePlan {
    /// The scene to draw into the texture; with none, the frame draws
    /// nothing and ends successfully.
    pub scene: Option<usize>,
    /// Whether the surface configuration still holds after this frame.
    pub keep_configuration: bool,
}

/// All scenes of a renderer and the one that is rendered, if any.
pub struct Renderer<T, P> {
    pub scenes: Vec<Scene<T, P>>,
    pub active_scene: Option<usize>,
}

impl<T, P> Renderer<T, P> {
    /// Every scene is well formed and the active scene, if any, exists.
    pub open spec fn wf(&self) -> bool {
        &&& forall|s: int| 0 <= s < self.scenes@.len() ==> (#[trigger] self.scenes@[s]).wf()
        &&& self.active_scene matches Some(a) ==> a < self.scenes@.len()
    }

    /// `after` differs from `before` at most in scene `scene`.
    pub open spec fn only_scene_changed(before: Self, after: Self, scene: int) -> bool {
        &&& after.active_scene == before.active_scene
        &&& after.scenes@.len() == before.scenes@.len()
        &&& forall|s: int| 0 <= s < after.scenes@.len() && s != scene
            ==> #[trigger] after.scenes@[s] == before.scenes@[s]
    }

    /// `after` differs from `before` at most in material `material` of
    /// scene `scene`.
    pub open spec fn only_material_changed(before: Self, after: Self, scene: int, material: int) -> bool {
        &&& Self::only_scene_changed(before, after, scene)
        &&& Scene::only_material_changed(before.scenes@[scene], after.scenes@[scene], material)
    }
}

impl<T: Copy, P: Copy> Renderer<T, P> {
    /// A renderer without scenes.
    pub fn new() -> (r: Self)
        ensures
            r.wf(),
            r.scenes@.len() == 0,
            r.active_scene == None::<usize>,
    {
        Renderer { scenes: Vec::new(), active_scene: None }
    }

    /// Adds an empty scene, makes it the active scene and returns its index.
    pub fn create_scene(&mut self) -> (r: usize)
        requires
            old(self).wf(),
        ensures
            final(self).wf(),
            r == old(self).scenes@.len(),
            final(self).scenes@.len() == r + 1,
            final(self).scenes@.take(r as int) == old(self).scenes@,
            final(self).active_scene == Some(r),
            final(self).scenes@[r as int].materials@.len() == 0,
            final(self).scenes@[r as int].static_draws@.len() == 0,
            final(self).scenes@[r as int].static_vertex_buffer.used() == 0,
            final(self).scenes@[r as int].static_index_buffer.used() == 0,
    {
        self.scenes.push(Scene::new());
        self.active_scene = Some(self.scenes.len() - 1);
        assert(self.scenes@.take(old(self).scenes@.len() as int) =~= old(self).scenes@);
        self.scenes.len() - 1
    }

    /// Decides a frame from the surface's answer `status`: give the frame up
    /// with the surface's error, or draw the active scene, if there is one,
    /// and say whether the surface must be configured again.
    pub fn frame(&self, status: SurfaceStatus) -> (r: Result<FramePlan, SurfaceError>)
        requires
            self.wf(),
        ensures
            r == (match spec_acquire_outcome(status) {
                Ok(keep) => Ok(FramePlan { scene: self.active_scene, keep_configuration: keep }),
                Err(e) => Err::<FramePlan, SurfaceError>(e),
            }),
            r matches Ok(plan) ==> (plan.scene matches Some(s) ==> s < self.scenes@.len()),
    {
        match acquire_outcome(status) {
            Ok(keep) => Ok(FramePlan { scene: self.active_scene, keep_configuration: keep }),
            Err(e) => Err(e),
        }
    }

    /// Adds a static colored object to scene `scene`.
    pub fn add_static_object(&mut self, scene: usize, vertex_count: usize, indices: &[u16]) -> (r: ColoredObject)
        requires
            old(self).wf(),
            scene < old(self).scenes@.len(),
            ({
                let sc = old(self).scenes@[scene as int];
                &&& sc.static_vertex_buffer.used() + padded(vertex_count * VERTEX_SIZE) <= u64::MAX
                &&& sc.static_index_buffer.used() + padded(indices@.len() * INDEX_SIZE) <= u64::MAX
                &&& (sc.static_index_buffer.used() / INDEX_SIZE as nat) + indices@.len() <= u32::MAX
                &&& sc.static_vertex_buffer.used() / VERTEX_SIZE as nat <= i32::MAX
            }),
        ensures
            final(self).wf(),
            Self::only_scene_changed(*old(self), *final(self), scene as int),
            Scene::static_object_added(
                old(self).scenes@[scene as int],
                final(self).scenes@[scene as int],
                vertex_count as nat,
                indices@.len(),
                r,
            ),
    {
        self.scenes[scene].add_static_object(vertex_count, indices)
    }

    /// Adds an empty textured material to scene `scene` and returns its index.
    pub fn add_scene_material(&mut self, scene: usize) -> (r: usize)
        requires
            old(self).wf(),
            scene < old(self).scenes@.len(),
        ensures
            final(self).wf(),
            Self::only_scene_changed(*old(self), *final(self), scene as int),
            Scene::material_added(old(self).scenes@[scene as int], final(self).scenes@[scene as int], r as int),
    {
        self.scenes[scene].add_material()
    }

    /// Adds a mesh to material `material` of scene `scene` and returns its
    /// index.
    pub fn add_scene_object(&mut self, scene: usize, material: usize, vertex_count: usize, indices: &[u16]) -> (r: usize)
        requires
            old(self).wf(),
            scene < old(self).scenes@.len(),
            material < old(self).scenes@[scene as int].materials@.len(),
            ({
                let mat = old(self).scenes@[scene as int].materials@[material as int];
                &&& mat.vertex_buffer.used() + padded(vertex_count * TEXTURE_VERTEX_SIZE) <= u64::MAX
                &&& mat.index_buffer.used() + padded(indices@.len() * INDEX_SIZE) <= u64::MAX
            }),
        ensures
            final(self).wf(),
            Self::only_material_changed(*old(self), *final(self), scene as int, material as int),
            Material::mesh_created(
                old(self).scenes@[scene as int].materials@[material as int],
                final(self).scenes@[scene as int].materials@[material as int],
                vertex_count as nat,
                indices@.len(),
                r as int,
            ),
    {
        assert(self.scenes@[scene as int].wf());
        self.scenes[scene].materials[material].create_mesh(vertex_count, indices)
    }

    /// Adds a directly placed instance of transform `transform` to mesh
    /// `mesh` of material `material` of scene `scene`, and returns its index
    /// among the mesh's directly placed instances.
    pub fn add_object_instance(&mut self, scene: usize, material: usize, mesh: usize, transform: T) -> (r: usize)
        requires
            old(self).wf(),
            scene < old(self).scenes@.len(),
            material < old(self).scenes@[scene as int].materials@.len(),
            mesh < old(self).scenes@[scene as int].materials@[material as int].meshes@.len(),
            old(self).scenes@[scene as int].materials@[material as int].meshes@[mesh as int].direct_transform_buffer.used()
                + GPU_TRANSFORM_SIZE <= u64::MAX,
        ensures
            final(self).wf(),
            Self::only_material_changed(*old(self), *final(self), scene as int, material as int),
            Material::instance_added(
                old(self).scenes@[scene as int].materials@[material as int],
                final(self).scenes@[scene as int].materials@[material as int],
                mesh as int,
                transform,
            ),
            r == old(self).scenes@[scene as int].materials@[material as int].meshes@[mesh as int].transformations@.len(),
    {
        assert(self.scenes@[scene as int].wf());
        self.scenes[scene].materials[material].add_instance(transform, mesh);
        self.scenes[scene].materials[material].meshes[mesh].transformations.len() - 1
    }

    /// Gives directly placed instance `object` of mesh `mesh` of material
    /// `material` of the active scene the transform `moved`, and returns the
    /// byte offset of its record in the mesh's direct buffer.
    pub fn move_object(&mut self, material: usize, mesh: usize, object: usize, moved: T) -> (offset: u32)
        requires
            old(self).wf(),
            old(self).active_scene is Some,
            ({
                let sc = old(self).scenes@[old(self).active_scene->0 as int];
                &&& material < sc.materials@.len()
                &&& mesh < sc.materials@[material as int].meshes@.len()
                &&& object < sc.materials@[material as int].meshes@[mesh as int].transformations@.len()
            }),
            object * GPU_TRANSFORM_SIZE <= usize::MAX,
        ensures
            final(self).wf(),
            ({
                let s = old(self).active_scene->0 as int;
                &&& Self::only_material_changed(*old(self), *final(self), s, material as int)
                &&& Material::object_moved(
                    old(self).scenes@[s].materials@[material as int],
                    final(self).scenes@[s].materials@[material as int],
                    mesh as int,
                    object as int,
                    moved,
                )
            }),
            offset == (object * GPU_TRANSFORM_SIZE) as u32,
    {
        let scene: usize = self.active_scene.unwrap();
        assert(self.scenes@[scene as int].wf());
        self.scenes[scene].materials[material].move_object_absolute(mesh, object, moved)
    }
}

} // verus!

verus! {

/// The index `add_object_instance` returns reads back the transform it was
/// given: in the changed mesh, that instance holds the transform.
pub proof fn lemma_object_instance_read_back<T, P>(
    before: Renderer<T, P>,
    after: Renderer<T, P>,
    scene: int,
    material: int,
    mesh: int,
    transform: T,
    index: int,
)
    requires
        0 <= scene < before.scenes@.len(),
        0 <= material < before.scenes@[scene].materials@.len(),
        0 <= mesh < before.scenes@[scene].materials@[material].meshes@.len(),
        Renderer::only_material_changed(before, after, scene, material),
        Material::instance_added(
            before.scenes@[scene].materials@[material],
            after.scenes@[scene].materials@[material],
            mesh,
            transform,
        ),
        index == before.scenes@[scene].materials@[material].meshes@[mesh].transformations@.len(),
    ensures
        after.scenes@[scene].materials@[material].meshes@[mesh].transformations@[index] == transform,
        index < after.scenes@[scene].materials@[material].meshes@[mesh].transformations@.len(),
{
}

} // verus!
