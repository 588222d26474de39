use vstd::prelude::*;
use crate::id::Id;

verus! {

/// Three single-precision values (x, y, z), each held as its IEEE-754 bit
/// pattern; the engine moves them and never does arithmetic on them.
#[derive(Clone, Copy, Debug, PartialEq, Eq, Structural)]
pub struct Float3 {
    pub x: u32,
    pub y: u32,
    pub z: u32,
}

/// One vertex as the GPU reads it: position, normal and color.
#[derive(Clone, Copy, Debug, PartialEq, Eq, Structural)]
pub struct Vertex {
    pub position: Float3,
    pub normal: Float3,
    pub color: Float3,
}

/// Bytes that one vertex occupies in a vertex buffer.
pub const VERTEX_STRIDE: u32 = 36;

/// Bytes that one index occupies in an index buffer.
pub const INDEX_SIZE: u32 = 4;

/// Counts kept beside a mesh.
#[derive(Clone, Copy, Debug, PartialEq, Eq, Structural)]
pub struct MeshMetadata {
    pub id: Id,
    pub vertices_count: u32,
    pub indices_count: u32,
}

impl MeshMetadata {
    pub fn new(id: Id, vertices_count: u32, indices_count: u32) -> (r: Self)
        ensures
            r.id == id,
            r.vertices_count == vertices_count,
            r.indices_count == indices_count,
    {
        Self { id, vertices_count, indices_count }
    }
}

/// A loaded mesh, not yet or already uploaded to the GPU.
pub struct Mesh {
    pub metadata: MeshMetadata,
    pub vertices: Vec<Vertex>,
    pub indices: Vec<u32>,
    pub is_uploaded: bool,
}

impl Mesh {
    /// The metadata counts agree with the arrays.
    pub open spec fn wf(&self) -> bool {
        &&& self.metadata.vertices_count == self.vertices@.len()
        &&& self.metadata.indices_count == self.indices@.len()
    }

    pub fn new(id: Id, vertices: Vec<Vertex>, indices: Vec<u32>) -> (r: Self)
        requires
            vertices@.len() <= u32::MAX,
            indices@.len() <= u32::MAX,
        ensures
            r.wf(),
            r.metadata.id == id,
            r.vertices@ == vertices@,
            r.indices@ == indices@,
            !r.is_uploaded,
    {
        let metadata = MeshMetadata::new(id, vertices.len() as u32, indices.len() as u32);
        Self { metadata, vertices, indices, is_uploaded: false }
    }
}

} // verus!
