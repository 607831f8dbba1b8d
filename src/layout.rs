//! Vertex buffer layout: attributes packed back to back, one per shader
//! location, with the stride equal to their total size.

use vstd::prelude::*;
use crate::format::{AttributeFormat, attribute_size, attribute_size_of};

verus! {

/// How the vertex buffer is stepped through.
#[derive(Clone, Copy, Debug, PartialEq, Eq, Structural)]
pub enum StepMode {
    Vertex,
}

/// One attribute of a vertex: its format, byte offset and shader location.
#[derive(Clone, Copy, Debug, PartialEq, Eq, Structural)]
pub struct VertexAttribute {
    pub format: AttributeFormat,
    pub offset: u64,
    pub shader_location: u32,
}

/// Layout of one vertex buffer.
pub struct VertexLayout {
    pub array_stride: u64,
    pub step_mode: StepMode,
    pub attributes: Vec<VertexAttribute>,
}

/// Byte offset of attribute `i` when the attributes `formats` are packed
/// back to back: the total size of those before it.
pub open spec fn packed_offset(formats: Seq<AttributeFormat>, i: int) -> nat
    decreases i,
{
    if i <= 0 {
        0
    } else {
        packed_offset(formats, i - 1) + attribute_size_of(formats[i - 1])
    }
}

/// `layout` packs `formats` back to back, attribute `i` at shader location `i`.
pub open spec fn packs(layout: VertexLayout, formats: Seq<AttributeFormat>) -> bool {
    &&& layout.step_mode == StepMode::Vertex
    &&& layout.attributes@.len() == formats.len()
    &&& layout.array_stride == packed_offset(formats, formats.len() as int)
    &&& forall|i: int|
        0 <= i < formats.len() ==> {
            &&& (#[trigger] layout.attributes@[i]).format == formats[i]
            &&& layout.attributes@[i].offset == packed_offset(formats, i)
            &&& layout.attributes@[i].shader_location == i
        }
}

proof fn lemma_packed_offset_bound(formats: Seq<AttributeFormat>, i: int)
    requires
        0 <= i <= formats.len(),
    ensures
        packed_offset(formats, i) <= 16 * i,
    decreases i,
{
    if i > 0 {
        lemma_packed_offset_bound(formats, i - 1);
    }
}

/// Lays out the attributes `formats` back to back, in order, at shader
/// locations 0, 1, 2, ...
pub fn packed_layout(formats: &Vec<AttributeFormat>) -> (r: VertexLayout)
    requires
        formats@.len() <= u32::MAX,
    ensures
        packs(r, formats@),
{
    let mut attributes: Vec<VertexAttribute> = Vec::new();
    let mut offset: u64 = 0;
    let mut i: usize = 0;
    while i < formats.len()
        invariant
            i <= formats@.len() <= u32::MAX,
            offset == packed_offset(formats@, i as int),
            attributes@.len() == i,
            forall|j: int|
                0 <= j < i ==> {
                    &&& (#[trigger] attributes@[j]).format == formats@[j]
                    &&& attributes@[j].offset == packed_offset(formats@, j)
                    &&& attributes@[j].shader_location == j
                },
        decreases formats@.len() - i,
    {
        proof {
            lemma_packed_offset_bound(formats@, i as int);
        }
        let f = formats[i];
        attributes.push(VertexAttribute { format: f, offset, shader_location: i as u32 });
        offset = offset + attribute_size(f);
        i = i + 1;
    }
    VertexLayout { array_stride: offset, step_mode: StepMode::Vertex, attributes }
}

/// The attributes of one triangle vertex: a position and a color, each four
/// 32-bit floats.
pub open spec fn vertex_input_formats() -> Seq<AttributeFormat> {
    seq![AttributeFormat::Float32x4, AttributeFormat::Float32x4]
}

/// Layout of the triangle's vertices: position at offset 0 (location 0),
/// color at offset 16 (location 1), 32 bytes per vertex.
pub fn vertex_input_layout() -> (r: VertexLayout)
    ensures
        packs(r, vertex_input_formats()),
        r.array_stride == 32,
        r.attributes@.len() == 2,
        r.attributes@[0] == (VertexAttribute {
            format: AttributeFormat::Float32x4,
            offset: 0,
            shader_location: 0,
        }),
        r.attributes@[1] == (VertexAttribute {
            format: AttributeFormat::Float32x4,
            offset: 16,
            shader_location: 1,
        }),
{
    let formats = vec![AttributeFormat::Float32x4, AttributeFormat::Float32x4];
    assert(formats@ =~= vertex_input_formats());
    let r = packed_layout(&formats);
    proof {
        let fs = vertex_input_formats();
        assert(packed_offset(fs, 0) == 0);
        assert(packed_offset(fs, 1) == packed_offset(fs, 0) + attribute_size_of(fs[0]));
        assert(packed_offset(fs, 2) == packed_offset(fs, 1) + attribute_size_of(fs[1]));
    }
    r
}

} // verus!
