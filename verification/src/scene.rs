//! A scene: static colored objects and textured materials.

use vstd::prelude::*;

use crate::buffer::{padded, BufferLedger};
use crate::layout::{INDEX_SIZE, VERTEX_SIZE};
use crate::material::{ColoredObject, Material};

verus! {

/// One indexed draw of a static colored object.
#[derive(Clone, Copy, Debug, PartialEq, Eq, Structural)]
pub struct StaticDraw {
    /// Indices `index_start..index_end` are drawn.
    pub index_start: u32,
    pub index_end: u32,
    /// Added to every index before the vertex is fetched.
    pub base_vertex: i32,
}

/// The static colored geometry of a scene and its textured materials.
pub struct Scene<T, P> {
    /// The textured materials, each with its own meshes.
    pub materials: Vec<Material<T, P>>,
    /// Ledger of the buffer of static colored vertices.
    pub static_vertex_buffer: BufferLedger,
    /// Ledger of the buffer of static indices.
    pub static_index_buffer: BufferLedger,
    /// One draw per static object, in the order they were added.
    pub static_draws: Vec<StaticDraw>,
}

impl<T, P> Scene<T, P> {
    /// Every material keeps its meshes in step.
    pub open spec fn wf(&self) -> bool {
        forall|m: int| 0 <= m < self.materials@.len() ==> (#[trigger] self.materials@[m]).wf()
    }

    /// `after` differs from `before` at most in material `material`.
    pub open spec fn only_material_changed(before: Self, after: Self, material: int) -> bool {
        &&& after.static_vertex_buffer == before.static_vertex_buffer
        &&& after.static_index_buffer == before.static_index_buffer
        &&& after.static_draws@ == before.static_draws@
        &&& after.materials@.len() == before.materials@.len()
        &&& forall|m: int| 0 <= m < after.materials@.len() && m != material
            ==> #[trigger] after.materials@[m] == before.materials@[m]
    }

    /// `after` is `before` with a static object of `vertex_count` vertices
    /// and `index_count` indices added, whose index range is `object`.
    pub open spec fn static_object_added(before: Self, after: Self, vertex_count: nat, index_count: nat, object: ColoredObject) -> bool {
        &&& after.materials@ == before.materials@
        &&& ({
            let draw = Self::static_draw_at(before.static_vertex_buffer.used(), before.static_index_buffer.used(), index_count);
            &&& after.static_draws@ == before.static_draws@.push(draw)
            &&& object == (ColoredObject { start_index: draw.index_start, num_indices: index_count as u32 })
        })
        &&& ({
            let (u, c, p) = BufferLedger::spec_append(
                before.static_vertex_buffer.used(),
                before.static_vertex_buffer.cap(),
                (vertex_count * VERTEX_SIZE) as nat,
            );
            &&& after.static_vertex_buffer.used() == u
            &&& after.static_vertex_buffer.cap() == c
            &&& after.static_vertex_buffer.last() == p
        })
        &&& ({
            let (u, c, p) = BufferLedger::spec_append(
                before.static_index_buffer.used(),
                before.static_index_buffer.cap(),
                (index_count * INDEX_SIZE) as nat,
            );
            &&& after.static_index_buffer.used() == u
            &&& after.static_index_buffer.cap() == c
            &&& after.static_index_buffer.last() == p
        })
    }

    /// `after` is `before` with an empty material added as number `index`.
    pub open spec fn material_added(before: Self, after: Self, index: int) -> bool {
        &&& index == before.materials@.len()
        &&& after.materials@.len() == index + 1
        &&& after.materials@.take(index) == before.materials@
        &&& after.materials@[index].meshes@.len() == 0
        &&& after.materials@[index].vertex_buffer.used() == 0
        &&& after.materials@[index].vertex_buffer.cap() == 0
        &&& after.materials@[index].index_buffer.used() == 0
        &&& after.materials@[index].index_buffer.cap() == 0
        &&& after.static_vertex_buffer == before.static_vertex_buffer
        &&& after.static_index_buffer == before.static_index_buffer
        &&& after.static_draws@ == before.static_draws@
    }

    /// The draw of a static object added when the static buffers held
    /// `vertex_bytes` and `index_bytes` bytes: its indices follow those
    /// already stored and refer to its own vertices, which follow those
    /// already stored.
    pub open spec fn static_draw_at(vertex_bytes: nat, index_bytes: nat, index_count: nat) -> StaticDraw {
        let start = (index_bytes / INDEX_SIZE as nat) as u32;
        StaticDraw {
            index_start: start,
            index_end: (start + index_count) as u32,
            base_vertex: (vertex_bytes / VERTEX_SIZE as nat) as i32,
        }
    }
}

impl<T: Copy, P: Copy> Scene<T, P> {
    /// A scene with no objects and no materials.
    pub fn new() -> (r: Self)
        ensures
            r.wf(),
            r.materials@.len() == 0,
            r.static_draws@.len() == 0,
            r.static_vertex_buffer.used() == 0,
            r.static_vertex_buffer.cap() == 0,
            r.static_index_buffer.used() == 0,
            r.static_index_buffer.cap() == 0,
    {
        Scene {
            materials: Vec::new(),
            static_vertex_buffer: BufferLedger::new(),
            static_index_buffer: BufferLedger::new(),
            static_draws: Vec::new(),
        }
    }

    /// Adds a static colored object of `vertex_count` vertices and the
    /// given indices: appends them to the static buffers, records its draw,
    /// and returns its index range.
    pub fn add_static_object(&mut self, vertex_count: usize, indices: &[u16]) -> (r: ColoredObject)
        requires
            old(self).wf(),
            old(self).static_vertex_buffer.used() + padded(vertex_count * VERTEX_SIZE) <= u64::MAX,
            old(self).static_index_buffer.used() + padded(indices@.len() * INDEX_SIZE) <= u64::MAX,
            (old(self).static_index_buffer.used() / INDEX_SIZE as nat) + indices@.len() <= u32::MAX,
            old(self).static_vertex_buffer.used() / VERTEX_SIZE as nat <= i32::MAX,
        ensures
            final(self).wf(),
            Self::static_object_added(*old(self), *final(self), vertex_count as nat, indices@.len(), r),
            final(self).static_draws@.len() == old(self).static_draws@.len() + 1,
            ({
                let draw = final(self).static_draws@.last();
                &&& draw.base_vertex == (old(self).static_vertex_buffer.used() / VERTEX_SIZE as nat) as i32
                &&& draw.index_start == (old(self).static_index_buffer.used() / INDEX_SIZE as nat) as u32
                &&& draw.index_end == draw.index_start + indices@.len()
                &&& r.start_index == draw.index_start
                &&& r.num_indices == indices@.len() as u32
            }),
    {
        let start_index: u32 = (self.static_index_buffer.bytes_used() / INDEX_SIZE) as u32;
        let num_indices: u32 = indices.len() as u32;
        let base_vertex: i32 = (self.static_vertex_buffer.bytes_used() / VERTEX_SIZE) as i32;
        let draw = StaticDraw { index_start: start_index, index_end: start_index + num_indices, base_vertex };
        let vertex_bytes: u64 = (vertex_count as u64) * VERTEX_SIZE;
        let index_bytes: u64 = (indices.len() as u64) * INDEX_SIZE;
        self.static_vertex_buffer.append(vertex_bytes);
        self.static_index_buffer.append(index_bytes);
        self.static_draws.push(draw);
        assert(self.materials@ =~= old(self).materials@);
        ColoredObject { start_index, num_indices }
    }

    /// Adds an empty textured material and returns its index.
    pub fn add_material(&mut self) -> (r: usize)
        requires
            old(self).wf(),
        ensures
            final(self).wf(),
            Self::material_added(*old(self), *final(self), r as int),
    {
        self.materials.push(Material::new());
        assert(self.materials@.take(old(self).materials@.len() as int) =~= old(self).materials@);
        self.materials.len() - 1
    }
}

/// Static objects are drawn with their own vertices: when the static
/// vertex buffer holds `n` colored vertices, a new object's draw has base
/// vertex `n` and afterwards the buffer holds its vertices too; its indices
/// start after those already stored.
pub proof fn lemma_static_base_vertex_counts_vertices<T, P>(
    before: Scene<T, P>,
    after: Scene<T, P>,
    vertex_count: nat,
    index_count: nat,
    object: ColoredObject,
    n: nat,
)
    requires
        before.static_vertex_buffer.used() == n * VERTEX_SIZE,
        n + vertex_count <= i32::MAX,
        (before.static_index_buffer.used() / INDEX_SIZE as nat) + index_count <= u32::MAX,
        Scene::static_object_added(before, after, vertex_count, index_count, object),
    ensures
        after.static_draws@.len() == before.static_draws@.len() + 1,
        after.static_draws@.last().base_vertex == n,
        after.static_vertex_buffer.used() == (n + vertex_count) * VERTEX_SIZE,
        after.static_draws@.last().index_start * INDEX_SIZE <= before.static_index_buffer.used(),
        after.static_draws@.last().index_end - after.static_draws@.last().index_start == index_count,
        object.start_index == after.static_draws@.last().index_start,
        object.num_indices == index_count,
{
    assert((n * 20) / 20 == n) by (nonlinear_arith);
    assert(((vertex_count * 20 + 3) / 4 * 4) == vertex_count * 20) by (nonlinear_arith);
    assert(n * 20 + vertex_count * 20 == (n + vertex_count) * 20) by (nonlinear_arith);
}

} // verus!
