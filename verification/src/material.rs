//! Meshes of one textured material and their instance tables.
//!
//! A material owns one vertex buffer and one index buffer shared by all of
//! its meshes. Each mesh owns two instance buffers: one of directly placed
//! instances and one of interpolated instances, whose transforms are
//! recomputed every frame from their poses.

use vstd::prelude::*;

use crate::buffer::{padded, BufferLedger};
use crate::layout::{GPU_TRANSFORM_SIZE, INDEX_SIZE, TEXTURE_VERTEX_SIZE};
use crate::pose::InterpolatedPose;

verus! {

/// A static object drawn with the colored pipeline: a range of indices.
#[derive(Clone, Copy, Debug, PartialEq, Eq, Structural)]
pub struct ColoredObject {
    pub start_index: u32,
    pub num_indices: u32,
}

/// One mesh of a material and its instances.
///
/// `T` is the per-instance transform record uploaded to the GPU and `P`
/// the pose an interpolated instance moves between.
pub struct Mesh<T, P> {
    /// Added to each index of the mesh when it is drawn (its value is set
    /// by `Material::create_mesh`).
    pub vertex_offset: u32,
    /// First index drawn for the mesh (its value is set by
    /// `Material::create_mesh`).
    pub index_offset: u32,
    /// Number of indices of the mesh.
    pub num_indices: u32,
    /// One transform per directly placed instance.
    pub transformations: Vec<T>,
    /// One pose per interpolated instance.
    pub interpolated_poses: Vec<InterpolatedPose<P>>,
    /// The transform of each interpolated instance at the last update.
    pub interpolated_transforms: Vec<T>,
    /// Ledger of the buffer that holds `transformations`.
    pub direct_transform_buffer: BufferLedger,
    /// Ledger of the buffer that holds `interpolated_transforms`.
    pub interpolated_transform_buffer: BufferLedger,
}

/// Which instance buffer a draw call reads.
#[derive(Clone, Copy, Debug, PartialEq, Eq, Structural)]
pub enum InstanceSource {
    Direct,
    Interpolated,
}

/// One indexed, instanced draw of a mesh.
#[derive(Clone, Copy, Debug, PartialEq, Eq, Structural)]
pub struct DrawCall {
    /// The mesh drawn.
    pub mesh: usize,
    /// The instance buffer bound for this draw.
    pub instances: InstanceSource,
    /// Indices `index_start..index_end` are drawn.
    pub index_start: u32,
    pub index_end: u32,
    /// Added to every index before the vertex is fetched.
    pub base_vertex: i32,
    /// Instances `0..instance_count` are drawn.
    pub instance_count: u32,
}

/// How texel rows are laid out when an image is copied into a texture.
#[derive(Clone, Copy, Debug, PartialEq, Eq, Structural)]
pub struct TextureCopyLayout {
    pub offset: u64,
    pub bytes_per_row: u32,
    pub rows_per_image: u32,
}

impl<T, P> Mesh<T, P> {
    /// Every interpolated instance has a pose and a transform, and each
    /// instance buffer holds exactly one record per instance of its table.
    pub open spec fn wf(&self) -> bool {
        &&& self.interpolated_poses.len() == self.interpolated_transforms.len()
        &&& self.direct_transform_buffer.used() == self.transformations.len() * GPU_TRANSFORM_SIZE
        &&& self.interpolated_transform_buffer.used() == self.interpolated_transforms.len()
            * GPU_TRANSFORM_SIZE
    }

    /// The two meshes draw the same range of the shared buffers.
    pub open spec fn same_geometry(self, other: Self) -> bool {
        &&& self.vertex_offset == other.vertex_offset
        &&& self.index_offset == other.index_offset
        &&& self.num_indices == other.num_indices
    }

    /// The draw of the directly placed instances of this mesh, mesh number `mesh`.
    pub open spec fn direct_draw(self, mesh: usize) -> DrawCall {
        DrawCall {
            mesh,
            instances: InstanceSource::Direct,
            index_start: self.index_offset,
            index_end: (self.index_offset + self.num_indices) as u32,
            base_vertex: self.vertex_offset as i32,
            instance_count: self.transformations.len() as u32,
        }
    }

    /// The draw of the interpolated instances of this mesh, mesh number `mesh`.
    pub open spec fn interpolated_draw(self, mesh: usize) -> DrawCall {
        DrawCall {
            mesh,
            instances: InstanceSource::Interpolated,
            index_start: self.index_offset,
            index_end: (self.index_offset + self.num_indices) as u32,
            base_vertex: self.vertex_offset as i32,
            instance_count: self.interpolated_transforms.len() as u32,
        }
    }
}

impl<T: Copy, P: Copy> Mesh<T, P> {
    /// Recomputes the transform of every interpolated instance from its
    /// pose at `frame_timestamp` with `interpolate`.
    pub fn update_interpolations<F: Fn(&InterpolatedPose<P>, u64) -> T>(&mut self, frame_timestamp: u64, interpolate: &F)
        requires
            old(self).wf(),
            forall|pose: &InterpolatedPose<P>, t: u64| interpolate.requires((pose, t)),
        ensures
            final(self).wf(),
            final(self).same_geometry(*old(self)),
            final(self).transformations@ == old(self).transformations@,
            final(self).interpolated_poses@ == old(self).interpolated_poses@,
            final(self).direct_transform_buffer == old(self).direct_transform_buffer,
            final(self).interpolated_transform_buffer == old(self).interpolated_transform_buffer,
            final(self).interpolated_transforms@.len() == old(self).interpolated_transforms@.len(),
            forall|i: int| 0 <= i < final(self).interpolated_transforms@.len() ==> interpolate.ensures(
                (&old(self).interpolated_poses@[i], frame_timestamp),
                #[trigger] final(self).interpolated_transforms@[i],
            ),
    {
        let n: usize = self.interpolated_poses.len();
        let mut i: usize = 0;
        while i < n
            invariant
                n == self.interpolated_poses@.len(),
                self.wf(),
                self.same_geometry(*old(self)),
                self.transformations@ == old(self).transformations@,
                self.interpolated_poses@ == old(self).interpolated_poses@,
                self.direct_transform_buffer == old(self).direct_transform_buffer,
                self.interpolated_transform_buffer == old(self).interpolated_transform_buffer,
                self.interpolated_transforms@.len() == n,
                i <= n,
                forall|pose: &InterpolatedPose<P>, t: u64| interpolate.requires((pose, t)),
                forall|k: int| 0 <= k < i ==> interpolate.ensures(
                    (&old(self).interpolated_poses@[k], frame_timestamp),
                    #[trigger] self.interpolated_transforms@[k],
                ),
            decreases n - i,
        {
            let transform = interpolate(&self.interpolated_poses[i], frame_timestamp);
            self.interpolated_transforms.set(i, transform);
            i = i + 1;
        }
    }
}

/// The meshes of one material and the ledgers of its shared vertex and
/// index buffers.
pub struct Material<T, P> {
    pub meshes: Vec<Mesh<T, P>>,
    /// Ledger of the vertex buffer shared by the meshes.
    pub vertex_buffer: BufferLedger,
    /// Ledger of the index buffer shared by the meshes.
    pub index_buffer: BufferLedger,
}

impl<T, P> Material<T, P> {
    /// Every mesh keeps its instance tables and buffers in step.
    pub open spec fn wf(&self) -> bool {
        forall|m: int| 0 <= m < self.meshes.len() ==> (#[trigger] self.meshes@[m]).wf()
    }

    /// `after` differs from `before` at most in mesh `mesh`.
    pub open spec fn only_mesh_changed(before: Self, after: Self, mesh: int) -> bool {
        &&& after.vertex_buffer == before.vertex_buffer
        &&& after.index_buffer == before.index_buffer
        &&& after.meshes@.len() == before.meshes@.len()
        &&& forall|m: int| 0 <= m < after.meshes@.len() && m != mesh
            ==> #[trigger] after.meshes@[m] == before.meshes@[m]
    }

    /// `after` is `before` with a new last mesh, number `index`, of
    /// `vertex_count` vertices and `index_count` indices, as `create_mesh`
    /// makes it.
    pub open spec fn mesh_created(before: Self, after: Self, vertex_count: nat, index_count: nat, index: int) -> bool {
        &&& index == before.meshes@.len()
        &&& after.meshes@.len() == before.meshes@.len() + 1
        &&& forall|m: int| 0 <= m < index ==> #[trigger] after.meshes@[m] == before.meshes@[m]
        &&& ({
            let mesh = after.meshes@[index];
            &&& mesh.vertex_offset == (before.index_buffer.used() as u32) / (TEXTURE_VERTEX_SIZE as u32)
            &&& mesh.index_offset == (before.vertex_buffer.used() as u32) / (INDEX_SIZE as u32)
            &&& mesh.num_indices == index_count as u32
            &&& mesh.transformations@.len() == 0
            &&& mesh.interpolated_poses@.len() == 0
            &&& mesh.interpolated_transforms@.len() == 0
            &&& mesh.direct_transform_buffer.used() == 0
            &&& mesh.direct_transform_buffer.cap() == 0
            &&& mesh.interpolated_transform_buffer.used() == 0
            &&& mesh.interpolated_transform_buffer.cap() == 0
        })
        &&& ({
            let (u, c, p) = BufferLedger::spec_append(
                before.vertex_buffer.used(),
                before.vertex_buffer.cap(),
                (vertex_count * TEXTURE_VERTEX_SIZE) as nat,
            );
            &&& after.vertex_buffer.used() == u
            &&& after.vertex_buffer.cap() == c
            &&& after.vertex_buffer.last() == p
        })
        &&& ({
            let (u, c, p) = BufferLedger::spec_append(
                before.index_buffer.used(),
                before.index_buffer.cap(),
                (index_count * INDEX_SIZE) as nat,
            );
            &&& after.index_buffer.used() == u
            &&& after.index_buffer.cap() == c
            &&& after.index_buffer.last() == p
        })
    }

    /// `after` is `before` with a directly placed instance of transform
    /// `transform` added to mesh `mesh`, and its record appended to that
    /// mesh's direct buffer.
    pub open spec fn instance_added(before: Self, after: Self, mesh: int, transform: T) -> bool {
        &&& Self::only_mesh_changed(before, after, mesh)
        &&& ({
            let b = before.meshes@[mesh];
            let a = after.meshes@[mesh];
            let (u, c, p) = BufferLedger::spec_append(
                b.direct_transform_buffer.used(),
                b.direct_transform_buffer.cap(),
                GPU_TRANSFORM_SIZE as nat,
            );
            &&& a.same_geometry(b)
            &&& a.transformations@ == b.transformations@.push(transform)
            &&& a.interpolated_poses@ == b.interpolated_poses@
            &&& a.interpolated_transforms@ == b.interpolated_transforms@
            &&& a.interpolated_transform_buffer == b.interpolated_transform_buffer
            &&& a.direct_transform_buffer.used() == u
            &&& a.direct_transform_buffer.cap() == c
            &&& a.direct_transform_buffer.last() == p
        })
    }

    /// `after` is `before` with an interpolated instance resting at pose
    /// `transform` added to mesh `mesh`, `initial` as its transform, and
    /// that record appended to the mesh's interpolated buffer.
    pub open spec fn interpolated_instance_added(before: Self, after: Self, mesh: int, transform: P, initial: T) -> bool {
        &&& Self::only_mesh_changed(before, after, mesh)
        &&& ({
            let b = before.meshes@[mesh];
            let a = after.meshes@[mesh];
            let n = b.interpolated_poses@.len() as int;
            let pose = a.interpolated_poses@[n];
            let (u, c, p) = BufferLedger::spec_append(
                b.interpolated_transform_buffer.used(),
                b.interpolated_transform_buffer.cap(),
                GPU_TRANSFORM_SIZE as nat,
            );
            &&& a.same_geometry(b)
            &&& a.transformations@ == b.transformations@
            &&& a.direct_transform_buffer == b.direct_transform_buffer
            &&& a.interpolated_poses@.len() == n + 1
            &&& a.interpolated_poses@.take(n) == b.interpolated_poses@
            &&& pose.spec_target() == transform
            &&& pose.spec_current() == transform
            &&& pose.spec_start_time() == 0
            &&& pose.spec_duration() == 0
            &&& a.interpolated_transforms@ == b.interpolated_transforms@.push(initial)
            &&& a.interpolated_transform_buffer.used() == u
            &&& a.interpolated_transform_buffer.cap() == c
            &&& a.interpolated_transform_buffer.last() == p
        })
    }

    /// `after` is `before` with the transform of every interpolated instance
    /// of every mesh recomputed from its pose at `frame_timestamp` by
    /// `interpolate`, and nothing else changed.
    pub open spec fn interpolations_updated<F: Fn(&InterpolatedPose<P>, u64) -> T>(
        before: Self,
        after: Self,
        frame_timestamp: u64,
        interpolate: F,
    ) -> bool {
        &&& after.vertex_buffer == before.vertex_buffer
        &&& after.index_buffer == before.index_buffer
        &&& after.meshes@.len() == before.meshes@.len()
        &&& forall|m: int| 0 <= m < after.meshes@.len() ==> {
            let b = before.meshes@[m];
            let a = #[trigger] after.meshes@[m];
            &&& a.same_geometry(b)
            &&& a.transformations@ == b.transformations@
            &&& a.interpolated_poses@ == b.interpolated_poses@
            &&& a.direct_transform_buffer == b.direct_transform_buffer
            &&& a.interpolated_transform_buffer == b.interpolated_transform_buffer
            &&& a.interpolated_transforms@.len() == b.interpolated_transforms@.len()
            &&& forall|i: int| 0 <= i < a.interpolated_transforms@.len() ==> interpolate.ensures(
                (&b.interpolated_poses@[i], frame_timestamp),
                #[trigger] a.interpolated_transforms@[i],
            )
        }
    }

    /// The two materials hold the same buffers, meshes, instance tables and
    /// poses.
    pub open spec fn same_contents(a: Self, b: Self) -> bool {
        &&& a.vertex_buffer == b.vertex_buffer
        &&& a.index_buffer == b.index_buffer
        &&& a.meshes@.len() == b.meshes@.len()
        &&& forall|m: int| 0 <= m < a.meshes@.len() ==> {
            let x = #[trigger] a.meshes@[m];
            let y = b.meshes@[m];
            &&& x.same_geometry(y)
            &&& x.transformations@ == y.transformations@
            &&& x.interpolated_poses@ == y.interpolated_poses@
            &&& x.interpolated_transforms@ == y.interpolated_transforms@
            &&& x.direct_transform_buffer == y.direct_transform_buffer
            &&& x.interpolated_transform_buffer == y.interpolated_transform_buffer
        }
    }

    /// `after` is `before` with direct instance `object` of mesh `mesh`
    /// given the transform `moved`.
    pub open spec fn object_moved(before: Self, after: Self, mesh: int, object: int, moved: T) -> bool {
        &&& Self::only_mesh_changed(before, after, mesh)
        &&& ({
            let b = before.meshes@[mesh];
            let a = after.meshes@[mesh];
            &&& a.same_geometry(b)
            &&& a.transformations@ == b.transformations@.update(object, moved)
            &&& a.interpolated_poses@ == b.interpolated_poses@
            &&& a.interpolated_transforms@ == b.interpolated_transforms@
            &&& a.direct_transform_buffer == b.direct_transform_buffer
            &&& a.interpolated_transform_buffer == b.interpolated_transform_buffer
        })
    }
}

impl<T: Copy, P: Copy> Material<T, P> {
    /// A material with no meshes and empty buffers.
    pub fn new() -> (r: Self)
        ensures
            r.wf(),
            r.meshes@.len() == 0,
            r.vertex_buffer.used() == 0,
            r.vertex_buffer.cap() == 0,
            r.index_buffer.used() == 0,
            r.index_buffer.cap() == 0,
    {
        Material { meshes: Vec::new(), vertex_buffer: BufferLedger::new(), index_buffer: BufferLedger::new() }
    }

    /// Adds a mesh of `vertex_count` textured vertices and the given
    /// indices, and returns its index.
    ///
    /// The mesh's vertex offset is the byte count of the index buffer, in
    /// textured-vertex records, and its index offset the byte count of the
    /// vertex buffer, in indices, both taken before the append and cut to
    /// 32 bits. The vertices are then appended to the vertex buffer and the
    /// indices to the index buffer.
    pub fn create_mesh(&mut self, vertex_count: usize, indices: &[u16]) -> (r: usize)
        requires
            old(self).wf(),
            old(self).vertex_buffer.used() + padded(vertex_count * TEXTURE_VERTEX_SIZE) <= u64::MAX,
            old(self).index_buffer.used() + padded(indices@.len() * INDEX_SIZE) <= u64::MAX,
        ensures
            final(self).wf(),
            Self::mesh_created(*old(self), *final(self), vertex_count as nat, indices@.len(), r as int),
    {
        let new_mesh = Mesh {
            vertex_offset: (self.index_buffer.bytes_used() as u32) / (TEXTURE_VERTEX_SIZE as u32),
            index_offset: (self.vertex_buffer.bytes_used() as u32) / (INDEX_SIZE as u32),
            num_indices: indices.len() as u32,
            transformations: Vec::new(),
            interpolated_poses: Vec::new(),
            interpolated_transforms: Vec::new(),
            direct_transform_buffer: BufferLedger::new(),
            interpolated_transform_buffer: BufferLedger::new(),
        };
        let vertex_bytes: u64 = (vertex_count as u64) * TEXTURE_VERTEX_SIZE;
        let index_bytes: u64 = (indices.len() as u64) * INDEX_SIZE;
        self.vertex_buffer.append(vertex_bytes);
        self.index_buffer.append(index_bytes);
        self.meshes.push(new_mesh);
        self.meshes.len() - 1
    }

    /// Adds a directly placed instance with transform `transform` to mesh
    /// `mesh` and appends its record to the mesh's direct instance buffer.
    pub fn add_instance(&mut self, transform: T, mesh: usize)
        requires
            old(self).wf(),
            mesh < old(self).meshes@.len(),
            old(self).meshes@[mesh as int].direct_transform_buffer.used() + GPU_TRANSFORM_SIZE <= u64::MAX,
        ensures
            final(self).wf(),
            Self::instance_added(*old(self), *final(self), mesh as int, transform),
    {
        self.meshes[mesh].transformations.push(transform);
        self.meshes[mesh].direct_transform_buffer.append(GPU_TRANSFORM_SIZE);
    }

    /// Adds an interpolated instance resting at pose `transform` to mesh
    /// `mesh`, with `initial` as its transform until the next update, and
    /// appends that record to the mesh's interpolated instance buffer.
    pub fn add_interpolated_instance(&mut self, transform: &P, initial: T, mesh: usize)
        requires
            old(self).wf(),
            mesh < old(self).meshes@.len(),
            old(self).meshes@[mesh as int].interpolated_transform_buffer.used() + GPU_TRANSFORM_SIZE <= u64::MAX,
        ensures
            final(self).wf(),
            Self::interpolated_instance_added(*old(self), *final(self), mesh as int, *transform, initial),
    {
        let pose = InterpolatedPose::new(*transform);
        self.meshes[mesh].interpolated_poses.push(pose);
        self.meshes[mesh].interpolated_transforms.push(initial);
        self.meshes[mesh].interpolated_transform_buffer.append(GPU_TRANSFORM_SIZE);
        assert(self.meshes@[mesh as int].interpolated_poses@.take(
            old(self).meshes@[mesh as int].interpolated_poses@.len() as int,
        ) =~= old(self).meshes@[mesh as int].interpolated_poses@);
    }

    /// Replaces the transform of directly placed instance `object` of mesh
    /// `mesh` with `moved`, and returns the byte offset of that instance's
    /// record in the mesh's direct instance buffer, where the new record is
    /// to be written.
    pub fn move_object_absolute(&mut self, mesh: usize, object: usize, moved: T) -> (offset: u32)
        requires
            old(self).wf(),
            mesh < old(self).meshes@.len(),
            object < old(self).meshes@[mesh as int].transformations@.len(),
            object * GPU_TRANSFORM_SIZE <= usize::MAX,
        ensures
            final(self).wf(),
            Self::object_moved(*old(self), *final(self), mesh as int, object as int, moved),
            offset == (object * GPU_TRANSFORM_SIZE) as u32,
    {
        self.meshes[mesh].transformations.set(object, moved);
        let gpu_transform_size: usize = GPU_TRANSFORM_SIZE as usize;
        (object * gpu_transform_size) as u32
    }

    /// Recomputes, in every mesh, the transform of every interpolated
    /// instance from its pose at `frame_timestamp` with `interpolate`.
    pub fn update_interpolations<F: Fn(&InterpolatedPose<P>, u64) -> T>(&mut self, frame_timestamp: u64, interpolate: F)
        requires
            old(self).wf(),
            forall|pose: &InterpolatedPose<P>, t: u64| interpolate.requires((pose, t)),
        ensures
            final(self).wf(),
            Self::interpolations_updated(*old(self), *final(self), frame_timestamp, interpolate),
    {
        let n: usize = self.meshes.len();
        let mut m: usize = 0;
        while m < n
            invariant
                n == self.meshes@.len(),
                n == old(self).meshes@.len(),
                m <= n,
                self.wf(),
                self.vertex_buffer == old(self).vertex_buffer,
                self.index_buffer == old(self).index_buffer,
                forall|pose: &InterpolatedPose<P>, t: u64| interpolate.requires((pose, t)),
                forall|k: int| m <= k < n ==> #[trigger] self.meshes@[k] == old(self).meshes@[k],
                forall|k: int| 0 <= k < m ==> {
                    let before = old(self).meshes@[k];
                    let after = #[trigger] self.meshes@[k];
                    &&& after.same_geometry(before)
                    &&& after.transformations@ == before.transformations@
                    &&& after.interpolated_poses@ == before.interpolated_poses@
                    &&& after.direct_transform_buffer == before.direct_transform_buffer
                    &&& after.interpolated_transform_buffer == before.interpolated_transform_buffer
                    &&& after.interpolated_transforms@.len() == before.interpolated_transforms@.len()
                    &&& forall|i: int| 0 <= i < after.interpolated_transforms@.len() ==> interpolate.ensures(
                        (&before.interpolated_poses@[i], frame_timestamp),
                        #[trigger] after.interpolated_transforms@[i],
                    )
                },
            decreases n - m,
        {
            assert(self.meshes@[m as int].wf());
            self.meshes[m].update_interpolations(frame_timestamp, &interpolate);
            m = m + 1;
        }
    }

    /// The draw calls of all meshes, in mesh order: for each mesh, first
    /// its directly placed instances, then its interpolated instances.
    pub fn draw_calls(&self) -> (r: Vec<DrawCall>)
        requires
            forall|m: int| 0 <= m < self.meshes@.len()
                ==> #[trigger] self.meshes@[m].index_offset + self.meshes@[m].num_indices <= u32::MAX,
        ensures
            r@.len() == 2 * self.meshes@.len(),
            forall|m: int| 0 <= m < self.meshes@.len() ==> {
                &&& r@[2 * m] == (#[trigger] self.meshes@[m]).direct_draw(m as usize)
                &&& r@[2 * m + 1] == self.meshes@[m].interpolated_draw(m as usize)
            },
            forall|m: int| 0 <= m < self.meshes@.len() ==> #[trigger] r@[2 * m].base_vertex == self.meshes@[m].vertex_offset as i32,
            forall|m: int| 0 <= m < self.meshes@.len() ==> #[trigger] r@[2 * m + 1].base_vertex == self.meshes@[m].vertex_offset as i32,
            forall|m: int| #![trigger r@[2 * m]] 0 <= m < self.meshes@.len() ==> {
                &&& r@[2 * m].mesh == m && r@[2 * m + 1].mesh == m
                &&& r@[2 * m].instances == InstanceSource::Direct
                &&& r@[2 * m + 1].instances == InstanceSource::Interpolated
                &&& r@[2 * m].index_start == self.meshes@[m].index_offset
                &&& r@[2 * m + 1].index_start == self.meshes@[m].index_offset
                &&& r@[2 * m].index_end == self.meshes@[m].index_offset + self.meshes@[m].num_indices
                &&& r@[2 * m + 1].index_end == self.meshes@[m].index_offset + self.meshes@[m].num_indices
                &&& r@[2 * m].instance_count == self.meshes@[m].transformations@.len() as u32
                &&& r@[2 * m + 1].instance_count == self.meshes@[m].interpolated_transforms@.len() as u32
            },
    {
        let mut calls: Vec<DrawCall> = Vec::new();
        let mut m: usize = 0;
        while m < self.meshes.len()
            invariant
                m <= self.meshes@.len(),
                calls@.len() == 2 * m,
                forall|k: int| 0 <= k < self.meshes@.len()
                    ==> #[trigger] self.meshes@[k].index_offset + self.meshes@[k].num_indices <= u32::MAX,
                forall|k: int| 0 <= k < m ==> {
                    &&& calls@[2 * k] == (#[trigger] self.meshes@[k]).direct_draw(k as usize)
                    &&& calls@[2 * k + 1] == self.meshes@[k].interpolated_draw(k as usize)
                    &&& calls@[2 * k].base_vertex == self.meshes@[k].vertex_offset as i32
                    &&& calls@[2 * k + 1].base_vertex == self.meshes@[k].vertex_offset as i32
                },
                forall|k: int| #![trigger calls@[2 * k]] 0 <= k < m ==> {
                    &&& calls@[2 * k].mesh == k && calls@[2 * k + 1].mesh == k
                    &&& calls@[2 * k].instances == InstanceSource::Direct
                    &&& calls@[2 * k + 1].instances == InstanceSource::Interpolated
                    &&& calls@[2 * k].index_start == self.meshes@[k].index_offset
                    &&& calls@[2 * k + 1].index_start == self.meshes@[k].index_offset
                    &&& calls@[2 * k].index_end == self.meshes@[k].index_offset + self.meshes@[k].num_indices
                    &&& calls@[2 * k + 1].index_end == self.meshes@[k].index_offset + self.meshes@[k].num_indices
                    &&& calls@[2 * k].instance_count == self.meshes@[k].transformations@.len() as u32
                    &&& calls@[2 * k + 1].instance_count == self.meshes@[k].interpolated_transforms@.len() as u32
                },
            decreases self.meshes@.len() - m,
        {
            let mesh = &self.meshes[m];
            assert(mesh.index_offset + mesh.num_indices <= u32::MAX);
            let base_vertex: i32 = mesh.vertex_offset as i32;
            let index_end: u32 = mesh.index_offset + mesh.num_indices;
            calls.push(DrawCall {
                mesh: m,
                instances: InstanceSource::Direct,
                index_start: mesh.index_offset,
                index_end,
                base_vertex,
                instance_count: mesh.transformations.len() as u32,
            });
            calls.push(DrawCall {
                mesh: m,
                instances: InstanceSource::Interpolated,
                index_start: mesh.index_offset,
                index_end,
                base_vertex,
                instance_count: mesh.interpolated_transforms.len() as u32,
            });
            m = m + 1;
        }
        calls
    }
}

/// The texture copy layout the material uses for an image of
/// `width` by `height` RGBA texels: four bytes per texel in a row, and the
/// image height likewise counted four times.
pub open spec fn spec_texture_copy_layout(width: u32, height: u32) -> TextureCopyLayout {
    TextureCopyLayout { offset: 0, bytes_per_row: (4 * width) as u32, rows_per_image: (4 * height) as u32 }
}

/// The layout of the copy of an RGBA image into the material's texture.
pub fn texture_copy_layout(width: u32, height: u32) -> (r: TextureCopyLayout)
    requires
        4 * width <= u32::MAX,
        4 * height <= u32::MAX,
    ensures
        r == spec_texture_copy_layout(width, height),
        r.offset == 0,
        r.bytes_per_row == 4 * width,
        r.rows_per_image == 4 * height,
{
    TextureCopyLayout { offset: 0, bytes_per_row: 4 * width, rows_per_image: 4 * height }
}

} // verus!

verus! {

/// In a mesh whose tables and buffers are in step, the record of direct
/// instance `object` occupies bytes `object * 24 .. object * 24 + 24` of the
/// direct buffer: that range is aligned and used, so the in-place write of
/// a moved instance is accepted unpadded; and the next appended instance
/// lands right after the last one, at its own slot.
pub proof fn lemma_direct_instance_slots<T, P>(mesh: Mesh<T, P>, object: int)
    requires
        mesh.wf(),
        0 <= object < mesh.transformations@.len(),
    ensures
        (object * GPU_TRANSFORM_SIZE) % 4 == 0,
        object * GPU_TRANSFORM_SIZE + padded(GPU_TRANSFORM_SIZE as int) <= mesh.direct_transform_buffer.used(),
        padded(GPU_TRANSFORM_SIZE as int) == GPU_TRANSFORM_SIZE,
        BufferLedger::spec_append(
            mesh.direct_transform_buffer.used(),
            mesh.direct_transform_buffer.cap(),
            GPU_TRANSFORM_SIZE as nat,
        ).2.offset == mesh.transformations@.len() * GPU_TRANSFORM_SIZE,
{
    assert((object * 24) % 4 == 0) by (nonlinear_arith)
        requires
            0 <= object,
    ;
    mesh.direct_transform_buffer.lemma_fits_u64();
    assert(object * 24 + 24 <= mesh.transformations@.len() * 24) by (nonlinear_arith)
        requires
            0 <= object < mesh.transformations@.len(),
    ;
}

/// Likewise for interpolated instance `i`: its record occupies bytes
/// `i * 24 .. i * 24 + 24` of the interpolated buffer, and the whole table
/// of interpolated transforms fills that buffer exactly, so rewriting all
/// of it from offset 0 is accepted.
pub proof fn lemma_interpolated_instance_slots<T, P>(mesh: Mesh<T, P>, i: int)
    requires
        mesh.wf(),
        0 <= i < mesh.interpolated_transforms@.len(),
    ensures
        (i * GPU_TRANSFORM_SIZE) % 4 == 0,
        i * GPU_TRANSFORM_SIZE + GPU_TRANSFORM_SIZE <= mesh.interpolated_transform_buffer.used(),
        padded(mesh.interpolated_transforms@.len() * GPU_TRANSFORM_SIZE) == mesh.interpolated_transform_buffer.used(),
{
    assert((i * 24) % 4 == 0) by (nonlinear_arith)
        requires
            0 <= i,
    ;
    assert(i * 24 + 24 <= mesh.interpolated_transforms@.len() * 24) by (nonlinear_arith)
        requires
            0 <= i < mesh.interpolated_transforms@.len(),
    ;
    let n = mesh.interpolated_transforms@.len() as int;
    assert((n * 24 + 3) / 4 * 4 == n * 24) by (nonlinear_arith)
        requires
            0 <= n,
    ;
}

} // verus!

verus! {

/// After a directly placed instance is added to a mesh, the mesh has one
/// more instance, the one at the index `add_object_instance` returns (the
/// old count) holds the added transform, and the earlier ones are kept.
pub proof fn lemma_added_instance_is_read_back<T, P>(before: Material<T, P>, after: Material<T, P>, mesh: int, transform: T)
    requires
        0 <= mesh < before.meshes@.len(),
        Material::instance_added(before, after, mesh, transform),
    ensures
        ({
            let b = before.meshes@[mesh].transformations@;
            let a = after.meshes@[mesh].transformations@;
            &&& a.len() == b.len() + 1
            &&& a[b.len() as int] == transform
            &&& forall|k: int| 0 <= k < b.len() ==> #[trigger] a[k] == b[k]
        }),
{
}

/// After a directly placed instance is moved, reading it gives the new
/// transform, every other instance of every mesh reads as before, and no
/// instance table changes size.
pub proof fn lemma_moved_instance_is_read_back<T, P>(before: Material<T, P>, after: Material<T, P>, mesh: int, object: int, moved: T)
    requires
        0 <= mesh < before.meshes@.len(),
        0 <= object < before.meshes@[mesh].transformations@.len(),
        Material::object_moved(before, after, mesh, object, moved),
    ensures
        after.meshes@[mesh].transformations@[object] == moved,
        forall|m: int, k: int| 0 <= m < before.meshes@.len() && 0 <= k < before.meshes@[m].transformations@.len()
            && (m != mesh || k != object)
            ==> #[trigger] after.meshes@[m].transformations@[k] == before.meshes@[m].transformations@[k],
        forall|m: int| 0 <= m < before.meshes@.len()
            ==> #[trigger] after.meshes@[m].transformations@.len() == before.meshes@[m].transformations@.len(),
{
    assert forall|m: int, k: int| 0 <= m < before.meshes@.len() && 0 <= k < before.meshes@[m].transformations@.len()
        && (m != mesh || k != object)
        implies #[trigger] after.meshes@[m].transformations@[k] == before.meshes@[m].transformations@[k] by {
        if m != mesh {
            assert(after.meshes@[m] == before.meshes@[m]);
        }
    }
    assert forall|m: int| 0 <= m < before.meshes@.len()
        implies #[trigger] after.meshes@[m].transformations@.len() == before.meshes@[m].transformations@.len() by {
        if m != mesh {
            assert(after.meshes@[m] == before.meshes@[m]);
        }
    }
}

} // verus!

verus! {

/// After an interpolated instance is added to a mesh holding `k` of them,
/// the mesh holds `k + 1` poses and transforms; pose `k` rests at the given
/// pose and transform `k` is the given initial transform; the earlier poses
/// and transforms, the directly placed instances and the other meshes are
/// kept; and the interpolated buffer grew by one record at its old end.
pub proof fn lemma_interpolated_instance_read_back<T, P>(
    before: Material<T, P>,
    after: Material<T, P>,
    mesh: int,
    transform: P,
    initial: T,
)
    requires
        0 <= mesh < before.meshes@.len(),
        before.meshes@[mesh].wf(),
        Material::interpolated_instance_added(before, after, mesh, transform, initial),
    ensures
        ({
            let b = before.meshes@[mesh];
            let a = after.meshes@[mesh];
            let k = b.interpolated_poses@.len() as int;
            &&& a.interpolated_poses@.len() == k + 1
            &&& a.interpolated_transforms@.len() == k + 1
            &&& a.interpolated_poses@[k].spec_target() == transform
            &&& a.interpolated_poses@[k].spec_current() == transform
            &&& a.interpolated_transforms@[k] == initial
            &&& forall|i: int| 0 <= i < k ==> #[trigger] a.interpolated_poses@[i] == b.interpolated_poses@[i]
            &&& forall|i: int| 0 <= i < k ==> #[trigger] a.interpolated_transforms@[i] == b.interpolated_transforms@[i]
            &&& a.transformations@ == b.transformations@
            &&& a.interpolated_transform_buffer.last().offset == b.interpolated_transform_buffer.used()
            &&& a.interpolated_transform_buffer.used() == b.interpolated_transform_buffer.used() + GPU_TRANSFORM_SIZE
        }),
        forall|m: int| 0 <= m < before.meshes@.len() && m != mesh ==> #[trigger] after.meshes@[m] == before.meshes@[m],
{
    let b = before.meshes@[mesh];
    let k = b.interpolated_poses@.len() as int;
    assert forall|i: int| 0 <= i < k implies #[trigger] after.meshes@[mesh].interpolated_poses@[i] == b.interpolated_poses@[i] by {
        assert(after.meshes@[mesh].interpolated_poses@.take(k)[i] == after.meshes@[mesh].interpolated_poses@[i]);
    }
    b.interpolated_transform_buffer.lemma_fits_u64();
}

/// A later update of the interpolated transforms overrides an earlier one:
/// when the later update's function gives one result per pose and time,
/// updating with `f` at `t1` and then with `g` at `t2` leaves the material
/// as updating with `g` at `t2` alone does.
pub proof fn lemma_later_update_overrides<T, P, F: Fn(&InterpolatedPose<P>, u64) -> T, G: Fn(&InterpolatedPose<P>, u64) -> T>(
    before: Material<T, P>,
    mid: Material<T, P>,
    after: Material<T, P>,
    alone: Material<T, P>,
    t1: u64,
    t2: u64,
    f: F,
    g: G,
)
    requires
        Material::interpolations_updated(before, mid, t1, f),
        Material::interpolations_updated(mid, after, t2, g),
        Material::interpolations_updated(before, alone, t2, g),
        forall|p: &InterpolatedPose<P>, t: u64, x: T, y: T|
            #![trigger g.ensures((p, t), x), g.ensures((p, t), y)]
            g.ensures((p, t), x) && g.ensures((p, t), y) ==> x == y,
    ensures
        Material::same_contents(after, alone),
{
    assert forall|m: int| 0 <= m < after.meshes@.len() implies {
        let x = #[trigger] after.meshes@[m];
        let y = alone.meshes@[m];
        &&& x.same_geometry(y)
        &&& x.transformations@ == y.transformations@
        &&& x.interpolated_poses@ == y.interpolated_poses@
        &&& x.interpolated_transforms@ == y.interpolated_transforms@
        &&& x.direct_transform_buffer == y.direct_transform_buffer
        &&& x.interpolated_transform_buffer == y.interpolated_transform_buffer
    } by {
        let bm = before.meshes@[m];
        let mm = mid.meshes@[m];
        let x = after.meshes@[m];
        let y = alone.meshes@[m];
        assert forall|i: int| 0 <= i < x.interpolated_transforms@.len() implies
            x.interpolated_transforms@[i] == y.interpolated_transforms@[i] by {
            assert(g.ensures((&mm.interpolated_poses@[i], t2), x.interpolated_transforms@[i]));
            assert(g.ensures((&bm.interpolated_poses@[i], t2), y.interpolated_transforms@[i]));
        }
        assert(x.interpolated_transforms@ =~= y.interpolated_transforms@);
    }
}

} // verus!

verus! {

/// Both draws of a mesh fetch the mesh's own vertices and indices: their
/// base vertex is the mesh's vertex offset, they draw exactly the mesh's
/// `num_indices` indices starting at its index offset, and each draws one
/// instance per entry of the instance table it reads.
pub proof fn lemma_draws_follow_their_mesh<T, P>(mesh: Mesh<T, P>, m: usize)
    requires
        mesh.index_offset + mesh.num_indices <= u32::MAX,
    ensures
        mesh.direct_draw(m).base_vertex == mesh.vertex_offset as i32,
        mesh.interpolated_draw(m).base_vertex == mesh.vertex_offset as i32,
        mesh.direct_draw(m).index_start == mesh.index_offset,
        mesh.interpolated_draw(m).index_start == mesh.index_offset,
        mesh.direct_draw(m).index_end - mesh.direct_draw(m).index_start == mesh.num_indices,
        mesh.interpolated_draw(m).index_end - mesh.interpolated_draw(m).index_start == mesh.num_indices,
        mesh.direct_draw(m).instance_count == mesh.transformations@.len() as u32,
        mesh.interpolated_draw(m).instance_count == mesh.interpolated_transforms@.len() as u32,
        mesh.direct_draw(m).mesh == m && mesh.interpolated_draw(m).mesh == m,
{
}

/// The texture copy reads whole RGBA texels row by row: each row holds
/// four bytes per texel of the image's width, the rows of the image are
/// counted as four times its height, and the copy starts at the first byte.
pub proof fn lemma_copy_rows_hold_whole_texels(width: u32, height: u32)
    requires
        4 * width <= u32::MAX,
        4 * height <= u32::MAX,
    ensures
        spec_texture_copy_layout(width, height).offset == 0,
        spec_texture_copy_layout(width, height).bytes_per_row == 4 * width,
        spec_texture_copy_layout(width, height).bytes_per_row % 4 == 0,
        spec_texture_copy_layout(width, height).bytes_per_row / 4 == width,
        spec_texture_copy_layout(width, height).rows_per_image == 4 * height,
{
}

} // verus!
