//! Vertex buffer layouts of the three vertex record types.
//!
//! All three records are `repr(C)` structs of `f32` arrays, so their
//! attributes are tightly packed one after the other.

use vstd::prelude::*;

verus! {

/// Byte size of a two-component float vector (`[f32; 2]`).
pub const VEC2_SIZE: u64 = 8;

/// Byte size of a three-component float vector (`[f32; 3]`).
pub const VEC3_SIZE: u64 = 12;

/// Byte size of an instance transform record: two matrix columns and a
/// translation, each a two-component float vector.
pub const GPU_TRANSFORM_SIZE: u64 = 24;

/// Byte size of a colored vertex record: a position and an RGB color.
pub const VERTEX_SIZE: u64 = 20;

/// Byte size of a textured vertex record: a position and texture coordinates.
pub const TEXTURE_VERTEX_SIZE: u64 = 16;

/// Byte size of one index (`u16`).
pub const INDEX_SIZE: u64 = 2;

/// Component format of one vertex attribute.
#[derive(Clone, Copy, Debug, PartialEq, Eq, Structural)]
pub enum VertexFormat {
    Float32x2,
    Float32x3,
}

/// Whether a buffer advances per vertex or per instance.
#[derive(Clone, Copy, Debug, PartialEq, Eq, Structural)]
pub enum VertexStepMode {
    Vertex,
    Instance,
}

/// One attribute of a vertex buffer layout.
#[derive(Clone, Copy, Debug, PartialEq, Eq, Structural)]
pub struct VertexAttribute {
    pub format: VertexFormat,
    pub offset: u64,
    pub shader_location: u32,
}

/// The layout of one vertex buffer: stride, step mode and attributes.
pub struct VertexBufferLayout {
    pub array_stride: u64,
    pub step_mode: VertexStepMode,
    pub attributes: Vec<VertexAttribute>,
}

impl VertexFormat {
    /// Number of bytes an attribute of this format occupies.
    pub open spec fn byte_size(self) -> u64 {
        match self {
            VertexFormat::Float32x2 => VEC2_SIZE,
            VertexFormat::Float32x3 => VEC3_SIZE,
        }
    }

    /// Number of bytes an attribute of this format occupies.
    pub fn size(&self) -> (r: u64)
        ensures
            r == self.byte_size(),
    {
        match self {
            VertexFormat::Float32x2 => VEC2_SIZE,
            VertexFormat::Float32x3 => VEC3_SIZE,
        }
    }
}

/// First byte past the end of an attribute.
pub open spec fn attribute_end(a: VertexAttribute) -> int {
    a.offset + a.format.byte_size()
}

/// The attributes are tightly packed: the first starts at byte 0, each one
/// starts where the previous one ends, and the last one ends at the stride.
pub open spec fn is_packed(attrs: Seq<VertexAttribute>, stride: int) -> bool {
    &&& attrs.len() > 0
    &&& attrs[0].offset == 0
    &&& forall|i: int| 0 < i < attrs.len() ==> #[trigger] attrs[i].offset == attribute_end(attrs[i - 1])
    &&& attribute_end(attrs.last()) == stride
}

/// Every attribute lies inside one record of `stride` bytes, and the
/// attributes appear in increasing byte order without overlapping.
pub open spec fn is_sound(attrs: Seq<VertexAttribute>, stride: int) -> bool {
    &&& forall|i: int| 0 <= i < attrs.len() ==> attribute_end(#[trigger] attrs[i]) <= stride
    &&& forall|i: int, j: int| 0 <= i < j < attrs.len() ==> attribute_end(#[trigger] attrs[i]) <= #[trigger] attrs[j].offset
}

/// No two attributes of a layout share a shader location.
pub open spec fn distinct_locations(attrs: Seq<VertexAttribute>) -> bool {
    forall|i: int, j: int| 0 <= i < j < attrs.len() ==> #[trigger] attrs[i].shader_location != #[trigger] attrs[j].shader_location
}

/// The layout of the per-instance transform buffer (shader locations 2, 3, 4).
pub open spec fn gpu_transform_attributes() -> Seq<VertexAttribute> {
    seq![
        VertexAttribute { format: VertexFormat::Float32x2, offset: 0, shader_location: 2 },
        VertexAttribute { format: VertexFormat::Float32x2, offset: VEC2_SIZE, shader_location: 3 },
        VertexAttribute { format: VertexFormat::Float32x2, offset: (2 * VEC2_SIZE) as u64, shader_location: 4 },
    ]
}

/// The layout of the colored vertex buffer (shader locations 0, 1).
pub open spec fn vertex_attributes() -> Seq<VertexAttribute> {
    seq![
        VertexAttribute { format: VertexFormat::Float32x2, offset: 0, shader_location: 0 },
        VertexAttribute { format: VertexFormat::Float32x3, offset: VEC2_SIZE, shader_location: 1 },
    ]
}

/// The layout of the textured vertex buffer (shader locations 0, 1).
pub open spec fn texture_vertex_attributes() -> Seq<VertexAttribute> {
    seq![
        VertexAttribute { format: VertexFormat::Float32x2, offset: 0, shader_location: 0 },
        VertexAttribute { format: VertexFormat::Float32x2, offset: VEC2_SIZE, shader_location: 1 },
    ]
}

/// Layout of the per-instance transform buffer.
pub fn gpu_transform_desc() -> (r: VertexBufferLayout)
    ensures
        r.array_stride == GPU_TRANSFORM_SIZE,
        r.step_mode == VertexStepMode::Instance,
        r.attributes@ == gpu_transform_attributes(),
        r.attributes@.len() == 3,
        r.attributes@[0] == (VertexAttribute { format: VertexFormat::Float32x2, offset: 0, shader_location: 2 }),
        r.attributes@[1] == (VertexAttribute { format: VertexFormat::Float32x2, offset: 8, shader_location: 3 }),
        r.attributes@[2] == (VertexAttribute { format: VertexFormat::Float32x2, offset: 16, shader_location: 4 }),
{
    let attributes = vec![
        VertexAttribute { format: VertexFormat::Float32x2, offset: 0, shader_location: 2 },
        VertexAttribute { format: VertexFormat::Float32x2, offset: VEC2_SIZE, shader_location: 3 },
        VertexAttribute { format: VertexFormat::Float32x2, offset: 2 * VEC2_SIZE, shader_location: 4 },
    ];
    assert(attributes@ =~= gpu_transform_attributes());
    VertexBufferLayout {
        array_stride: GPU_TRANSFORM_SIZE,
        step_mode: VertexStepMode::Instance,
        attributes,
    }
}

/// Layout of the colored vertex buffer.
pub fn vertex_desc() -> (r: VertexBufferLayout)
    ensures
        r.array_stride == VERTEX_SIZE,
        r.step_mode == VertexStepMode::Vertex,
        r.attributes@ == vertex_attributes(),
        r.attributes@.len() == 2,
        r.attributes@[0] == (VertexAttribute { format: VertexFormat::Float32x2, offset: 0, shader_location: 0 }),
        r.attributes@[1] == (VertexAttribute { format: VertexFormat::Float32x3, offset: 8, shader_location: 1 }),
{
    let attributes = vec![
        VertexAttribute { format: VertexFormat::Float32x2, offset: 0, shader_location: 0 },
        VertexAttribute { format: VertexFormat::Float32x3, offset: VEC2_SIZE, shader_location: 1 },
    ];
    assert(attributes@ =~= vertex_attributes());
    VertexBufferLayout { array_stride: VERTEX_SIZE, step_mode: VertexStepMode::Vertex, attributes }
}

/// Layout of the textured vertex buffer.
pub fn texture_vertex_desc() -> (r: VertexBufferLayout)
    ensures
        r.array_stride == TEXTURE_VERTEX_SIZE,
        r.step_mode == VertexStepMode::Vertex,
        r.attributes@ == texture_vertex_attributes(),
        r.attributes@.len() == 2,
        r.attributes@[0] == (VertexAttribute { format: VertexFormat::Float32x2, offset: 0, shader_location: 0 }),
        r.attributes@[1] == (VertexAttribute { format: VertexFormat::Float32x2, offset: 8, shader_location: 1 }),
{
    let attributes = vec![
        VertexAttribute { format: VertexFormat::Float32x2, offset: 0, shader_location: 0 },
        VertexAttribute { format: VertexFormat::Float32x2, offset: VEC2_SIZE, shader_location: 1 },
    ];
    assert(attributes@ =~= texture_vertex_attributes());
    VertexBufferLayout {
        array_stride: TEXTURE_VERTEX_SIZE,
        step_mode: VertexStepMode::Vertex,
        attributes,
    }
}

/// A tightly packed attribute list is sound: every attribute fits in the
/// record and the attributes follow each other without overlap.
pub proof fn lemma_packed_is_sound(attrs: Seq<VertexAttribute>, stride: int)
    requires
        is_packed(attrs, stride),
    ensures
        is_sound(attrs, stride),
{
    // Ends grow strictly along the list, so each end is at most the last end,
    // and each end is at most the offset of every later attribute.
    assert forall|i: int, j: int| 0 <= i < j < attrs.len() implies attribute_end(attrs[i]) <= attrs[j].offset by {
        lemma_ends_increase(attrs, stride, i, j);
    }
    assert forall|i: int| 0 <= i < attrs.len() implies attribute_end(#[trigger] attrs[i]) <= stride by {
        if i < attrs.len() - 1 {
            lemma_ends_increase(attrs, stride, i, attrs.len() - 1);
        }
    }
}

proof fn lemma_ends_increase(attrs: Seq<VertexAttribute>, stride: int, i: int, j: int)
    requires
        is_packed(attrs, stride),
        0 <= i < j < attrs.len(),
    ensures
        attribute_end(attrs[i]) <= attrs[j].offset,
    decreases j - i,
{
    assert(attrs[j].offset == attribute_end(attrs[j - 1]));
    if i < j - 1 {
        lemma_ends_increase(attrs, stride, i, j - 1);
    }
}

/// The three record layouts are tightly packed, hence sound, and their
/// strides are the byte sizes of the records they describe; their shader
/// locations are pairwise distinct.
pub proof fn lemma_record_layouts_sound()
    ensures
        is_packed(gpu_transform_attributes(), GPU_TRANSFORM_SIZE as int),
        is_packed(vertex_attributes(), VERTEX_SIZE as int),
        is_packed(texture_vertex_attributes(), TEXTURE_VERTEX_SIZE as int),
        is_sound(gpu_transform_attributes(), GPU_TRANSFORM_SIZE as int),
        is_sound(vertex_attributes(), VERTEX_SIZE as int),
        is_sound(texture_vertex_attributes(), TEXTURE_VERTEX_SIZE as int),
        distinct_locations(gpu_transform_attributes()),
        distinct_locations(vertex_attributes()),
        distinct_locations(texture_vertex_attributes()),
{
    let g = gpu_transform_attributes();
    let v = vertex_attributes();
    let t = texture_vertex_attributes();
    assert(g[1].offset == attribute_end(g[0]));
    assert(g[2].offset == attribute_end(g[1]));
    assert(v[1].offset == attribute_end(v[0]));
    assert(t[1].offset == attribute_end(t[0]));
    lemma_packed_is_sound(g, GPU_TRANSFORM_SIZE as int);
    lemma_packed_is_sound(v, VERTEX_SIZE as int);
    lemma_packed_is_sound(t, TEXTURE_VERTEX_SIZE as int);
}

/// Which attribute feeds which shader input: in the colored vertex layout
/// the position (two floats at byte 0) feeds location 0 and the color (three
/// floats right after it) feeds location 1; in the textured vertex layout
/// the position (two floats at byte 0) feeds location 0 and the texture
/// coordinates (two floats at byte 8) feed location 1; in the instance
/// layout the two matrix columns and the translation, at bytes 0, 8 and 16,
/// feed locations 2, 3 and 4.
pub proof fn lemma_attribute_locations()
    ensures
        forall|i: int| 0 <= i < vertex_attributes().len() ==> (#[trigger] vertex_attributes()[i]).shader_location == i,
        forall|i: int| 0 <= i < texture_vertex_attributes().len() ==> (#[trigger] texture_vertex_attributes()[i]).shader_location == i,
        forall|i: int| 0 <= i < gpu_transform_attributes().len() ==> (#[trigger] gpu_transform_attributes()[i]).shader_location == i + 2,
        forall|i: int| 0 <= i < gpu_transform_attributes().len() ==> (#[trigger] gpu_transform_attributes()[i]).offset == i * VEC2_SIZE,
        vertex_attributes().len() == 2 && texture_vertex_attributes().len() == 2 && gpu_transform_attributes().len() == 3,
        vertex_attributes()[0].offset == 0 && vertex_attributes()[0].format == VertexFormat::Float32x2,
        vertex_attributes()[1].offset == VEC2_SIZE && vertex_attributes()[1].format == VertexFormat::Float32x3,
        texture_vertex_attributes()[0].offset == 0 && texture_vertex_attributes()[1].offset == VEC2_SIZE,
{
}

} // verus!
