//! Vertex formats of the mesh layer and their GPU buffer layouts.
//!
//! Scalar vertex attributes are stored as raw 32-bit patterns: the mesh
//! layer never interprets them, it only moves them between CPU arrays
//! and GPU buffers, so their numeric reading is irrelevant here.

use vstd::prelude::*;

verus! {

/// One vertex of a lit mesh: position (3 scalars), normal (3 scalars),
/// UV (2 scalars) and a packed tangent (3-vector plus handedness sign).
#[derive(Clone, Copy, Debug)]
pub struct MeshVertex {
    pub position: [u32; 3],
    pub normal: [u32; 3],
    pub uv: [u32; 2],
    pub tangent: [u32; 4],
}

/// A simple colored vertex: position (3 scalars) and RGBA color (4 scalars).
#[derive(Clone, Copy, Debug)]
pub struct ColoredVertex {
    pub position: [u32; 3],
    pub color: [u32; 4],
}

/// A 4x4 transform, stored column-major as raw 32-bit patterns. The mesh
/// layer passes such matrices through (a shadow-cascade transform) without
/// reading them.
#[derive(Clone, Copy, Debug)]
pub struct Matrix4 {
    pub m: [u32; 16],
}

/// The scalar format of one vertex attribute.
#[derive(Clone, Copy, PartialEq, Eq, Structural, Debug)]
pub enum AttrFormat {
    Float32x2,
    Float32x3,
    Float32x4,
}

/// One attribute of a vertex buffer layout: shader location, byte offset
/// and scalar format.
#[derive(Clone, Copy, PartialEq, Eq, Structural, Debug)]
pub struct VertexAttribute {
    pub location: u32,
    pub offset: u64,
    pub format: AttrFormat,
}

/// Whether a vertex buffer advances per vertex or per instance.
#[derive(Clone, Copy, PartialEq, Eq, Structural, Debug)]
pub enum StepMode {
    Vertex,
    Instance,
}

/// The layout of one vertex buffer: stride, step mode and attribute list.
#[derive(Clone, Debug)]
pub struct VertexBufferLayoutDesc {
    pub array_stride: u64,
    pub step_mode: StepMode,
    pub attributes: Vec<VertexAttribute>,
}

impl MeshVertex {
    /// The buffer layout of `MeshVertex`: tightly packed position, normal,
    /// UV and tangent, 48 bytes per vertex.
    pub fn desc() -> (r: VertexBufferLayoutDesc)
        ensures
            r.array_stride == 48,
            r.step_mode == StepMode::Vertex,
            r.attributes@ == seq![
                (VertexAttribute { location: 0, offset: 0, format: AttrFormat::Float32x3 }),
                (VertexAttribute { location: 1, offset: 12, format: AttrFormat::Float32x3 }),
                (VertexAttribute { location: 2, offset: 24, format: AttrFormat::Float32x2 }),
                (VertexAttribute { location: 3, offset: 32, format: AttrFormat::Float32x4 }),
            ],
    {
        let mut attributes: Vec<VertexAttribute> = Vec::new();
        attributes.push(VertexAttribute { location: 0, offset: 0, format: AttrFormat::Float32x3 });
        attributes.push(VertexAttribute { location: 1, offset: 12, format: AttrFormat::Float32x3 });
        attributes.push(VertexAttribute { location: 2, offset: 24, format: AttrFormat::Float32x2 });
        attributes.push(VertexAttribute { location: 3, offset: 32, format: AttrFormat::Float32x4 });
        let r = VertexBufferLayoutDesc {
            array_stride: 48,
            step_mode: StepMode::Vertex,
            attributes,
        };
        assert(r.attributes@ =~= seq![
            (VertexAttribute { location: 0, offset: 0, format: AttrFormat::Float32x3 }),
            (VertexAttribute { location: 1, offset: 12, format: AttrFormat::Float32x3 }),
            (VertexAttribute { location: 2, offset: 24, format: AttrFormat::Float32x2 }),
            (VertexAttribute { location: 3, offset: 32, format: AttrFormat::Float32x4 }),
        ]);
        r
    }
}

impl ColoredVertex {
    /// The buffer layout of `ColoredVertex`: position then color, tightly
    /// packed, 28 bytes per vertex.
    pub fn desc() -> (r: VertexBufferLayoutDesc)
        ensures
            r.array_stride == 28,
            r.step_mode == StepMode::Vertex,
            r.attributes@ == seq![
                (VertexAttribute { location: 0, offset: 0, format: AttrFormat::Float32x3 }),
                (VertexAttribute { location: 1, offset: 12, format: AttrFormat::Float32x4 }),
            ],
    {
        let mut attributes: Vec<VertexAttribute> = Vec::new();
        attributes.push(VertexAttribute { location: 0, offset: 0, format: AttrFormat::Float32x3 });
        attributes.push(VertexAttribute { location: 1, offset: 12, format: AttrFormat::Float32x4 });
        let r = VertexBufferLayoutDesc {
            array_stride: 28,
            step_mode: StepMode::Vertex,
            attributes,
        };
        assert(r.attributes@ =~= seq![
            (VertexAttribute { location: 0, offset: 0, format: AttrFormat::Float32x3 }),
            (VertexAttribute { location: 1, offset: 12, format: AttrFormat::Float32x4 }),
        ]);
        r
    }
}

} // verus!
