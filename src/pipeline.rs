//! The one draw pipeline: a fixed shader pair over the triangle's vertex
//! layout, a depth test that keeps nearer fragments, and one color target.

use vstd::prelude::*;
use crate::format::{ColorFormat, DepthFormat};
use crate::layout::{VertexLayout, packs, vertex_input_formats, vertex_input_layout};

verus! {

/// Comparison used by the depth test.
#[derive(Clone, Copy, Debug, PartialEq, Eq, Structural)]
pub enum CompareFunction {
    Less,
}

/// How vertices are assembled into primitives.
#[derive(Clone, Copy, Debug, PartialEq, Eq, Structural)]
pub enum Topology {
    TriangleList,
}

/// Description of the immutable draw pipeline.
///
/// The resource-binding layout is empty (`bind_group_entries == 0`): a
/// per-frame uniform such as a view/projection matrix would be one more
/// entry here and one matching resource set, with the frame protocol
/// left as it is.
pub struct Pipeline {
    pub color_format: ColorFormat,
    pub depth_format: DepthFormat,
    pub depth_write_enabled: bool,
    pub depth_compare: CompareFunction,
    pub topology: Topology,
    pub bind_group_entries: usize,
    pub vertex_layout: VertexLayout,
}

impl Pipeline {
    /// The pipeline is the one built for color target `f`.
    pub open spec fn built_for(&self, f: ColorFormat) -> bool {
        &&& self.color_format == f
        &&& self.depth_format == DepthFormat::Depth24PlusStencil8
        &&& self.depth_write_enabled
        &&& self.depth_compare == CompareFunction::Less
        &&& self.topology == Topology::TriangleList
        &&& self.bind_group_entries == 0
        &&& packs(self.vertex_layout, vertex_input_formats())
        &&& self.vertex_layout.array_stride == 32
    }

    /// Builds the pipeline for a single color target of format `color_format`.
    pub fn build(color_format: ColorFormat) -> (r: Pipeline)
        ensures
            r.built_for(color_format),
    {
        Pipeline {
            color_format,
            depth_format: DepthFormat::Depth24PlusStencil8,
            depth_write_enabled: true,
            depth_compare: CompareFunction::Less,
            topology: Topology::TriangleList,
            bind_group_entries: 0,
            vertex_layout: vertex_input_layout(),
        }
    }

    /// Whether a surface of color format `f` needs another pipeline: only a
    /// change of color format does, never a change of size.
    pub fn needs_rebuild(&self, f: ColorFormat) -> (r: bool)
        ensures
            r == (f != self.color_format),
    {
        f != self.color_format
    }
}

} // verus!
