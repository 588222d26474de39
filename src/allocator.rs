use vstd::prelude::*;
use crate::id::Id;
use crate::mesh::{Float3, Mesh, MeshMetadata, Vertex, INDEX_SIZE, VERTEX_STRIDE};

verus! {

/// What a GPU allocation holds.
#[derive(Clone, Copy, Debug, PartialEq, Eq, Structural)]
pub enum ObjectType {
    Mesh,
    Image,
}

/// How a buffer is used by the pipeline.
#[derive(Clone, Copy, Debug, PartialEq, Eq, Structural)]
pub enum BufferUsage {
    Vertex,
    Index,
}

/// The four bytes of a 32-bit word, least significant first.
pub open spec fn word_bytes(w: u32) -> Seq<u8> {
    seq![
        (w & 0xff) as u8,
        ((w >> 8u32) & 0xff) as u8,
        ((w >> 16u32) & 0xff) as u8,
        ((w >> 24u32) & 0xff) as u8,
    ]
}

/// The bytes of a word array, word after word.
pub open spec fn words_bytes(ws: Seq<u32>) -> Seq<u8>
    decreases ws.len(),
{
    if ws.len() == 0 {
        Seq::empty()
    } else {
        words_bytes(ws.drop_last()) + word_bytes(ws.last())
    }
}

/// The nine words of a vertex: position, normal, color.
pub open spec fn vertex_words(v: Vertex) -> Seq<u32> {
    seq![
        v.position.x, v.position.y, v.position.z,
        v.normal.x, v.normal.y, v.normal.z,
        v.color.x, v.color.y, v.color.z,
    ]
}

/// The bytes of a vertex array as a vertex buffer holds them.
pub open spec fn vertices_bytes(vs: Seq<Vertex>) -> Seq<u8>
    decreases vs.len(),
{
    if vs.len() == 0 {
        Seq::empty()
    } else {
        vertices_bytes(vs.drop_last()) + words_bytes(vertex_words(vs.last()))
    }
}

pub proof fn lemma_words_bytes_len(ws: Seq<u32>)
    ensures
        words_bytes(ws).len() == INDEX_SIZE * ws.len(),
    decreases ws.len(),
{
    if ws.len() > 0 {
        lemma_words_bytes_len(ws.drop_last());
    }
}

pub proof fn lemma_vertices_bytes_len(vs: Seq<Vertex>)
    ensures
        vertices_bytes(vs).len() == VERTEX_STRIDE * vs.len(),
    decreases vs.len(),
{
    if vs.len() > 0 {
        lemma_vertices_bytes_len(vs.drop_last());
        lemma_words_bytes_len(vertex_words(vs.last()));
    }
}

fn push_word(out: &mut Vec<u8>, w: u32)
    ensures
        final(out)@ == old(out)@ + word_bytes(w),
{
    out.push((w & 0xff) as u8);
    out.push(((w >> 8u32) & 0xff) as u8);
    out.push(((w >> 16u32) & 0xff) as u8);
    out.push(((w >> 24u32) & 0xff) as u8);
    assert(final(out)@ =~= old(out)@ + word_bytes(w));
}

fn push_float3(out: &mut Vec<u8>, f: Float3)
    ensures
        final(out)@ == old(out)@ + word_bytes(f.x) + word_bytes(f.y) + word_bytes(f.z),
{
    push_word(out, f.x);
    push_word(out, f.y);
    push_word(out, f.z);
}

proof fn lemma_vertex_bytes(v: Vertex)
    ensures
        words_bytes(vertex_words(v)) =~= word_bytes(v.position.x) + word_bytes(v.position.y)
            + word_bytes(v.position.z) + word_bytes(v.normal.x) + word_bytes(v.normal.y)
            + word_bytes(v.normal.z) + word_bytes(v.color.x) + word_bytes(v.color.y)
            + word_bytes(v.color.z),
{
    let ws = vertex_words(v);
    reveal_with_fuel(words_bytes, 10);
    assert(ws.drop_last() =~= seq![v.position.x, v.position.y, v.position.z, v.normal.x,
        v.normal.y, v.normal.z, v.color.x, v.color.y]);
    assert(ws.drop_last().drop_last() =~= seq![v.position.x, v.position.y, v.position.z,
        v.normal.x, v.normal.y, v.normal.z, v.color.x]);
    assert(ws.drop_last().drop_last().drop_last() =~= seq![v.position.x, v.position.y,
        v.position.z, v.normal.x, v.normal.y, v.normal.z]);
    assert(ws.drop_last().drop_last().drop_last().drop_last() =~= seq![v.position.x,
        v.position.y, v.position.z, v.normal.x, v.normal.y]);
    assert(ws.drop_last().drop_last().drop_last().drop_last().drop_last() =~= seq![
        v.position.x, v.position.y, v.position.z, v.normal.x]);
    assert(ws.drop_last().drop_last().drop_last().drop_last().drop_last().drop_last() =~= seq![
        v.position.x, v.position.y, v.position.z]);
    assert(seq![v.position.x, v.position.y, v.position.z].drop_last() =~= seq![v.position.x,
        v.position.y]);
    assert(seq![v.position.x, v.position.y].drop_last() =~= seq![v.position.x]);
    assert(seq![v.position.x].drop_last() =~= Seq::<u32>::empty());
}

/// The bytes of a vertex array, laid out as a vertex buffer holds them.
pub fn vertex_buffer_data(vertices: &Vec<Vertex>) -> (r: Vec<u8>)
    ensures
        r@ == vertices_bytes(vertices@),
        r@.len() == VERTEX_STRIDE * vertices@.len(),
{
    let mut out: Vec<u8> = Vec::new();
    let mut i: usize = 0;
    while i < vertices.len()
        invariant
            i <= vertices@.len(),
            out@ == vertices_bytes(vertices@.subrange(0, i as int)),
        decreases vertices@.len() - i,
    {
        let v = vertices[i];
        let ghost before = out@;
        push_float3(&mut out, v.position);
        push_float3(&mut out, v.normal);
        push_float3(&mut out, v.color);
        proof {
            lemma_vertex_bytes(v);
            let next = vertices@.subrange(0, i + 1);
            assert(next.drop_last() =~= vertices@.subrange(0, i as int));
            assert(next.last() == v);
            assert(out@ =~= before + words_bytes(vertex_words(v)));
        }
        i = i + 1;
    }
    assert(vertices@.subrange(0, vertices@.len() as int) =~= vertices@);
    proof {
        lemma_vertices_bytes_len(vertices@);
    }
    out
}

/// The bytes of an index array, laid out as an index buffer holds them.
pub fn index_buffer_data(indices: &Vec<u32>) -> (r: Vec<u8>)
    ensures
        r@ == words_bytes(indices@),
        r@.len() == INDEX_SIZE * indices@.len(),
{
    let mut out: Vec<u8> = Vec::new();
    let mut i: usize = 0;
    while i < indices.len()
        invariant
            i <= indices@.len(),
            out@ == words_bytes(indices@.subrange(0, i as int)),
        decreases indices@.len() - i,
    {
        push_word(&mut out, indices[i]);
        proof {
            let next = indices@.subrange(0, i + 1);
            assert(next.drop_last() =~= indices@.subrange(0, i as int));
        }
        i = i + 1;
    }
    assert(indices@.subrange(0, indices@.len() as int) =~= indices@);
    proof {
        lemma_words_bytes_len(indices@);
    }
    out
}

/// A GPU buffer and the device-memory allocation behind it.
#[derive(Clone, Copy, Debug, PartialEq, Eq, Structural)]
pub struct AllocatedBuffer {
    pub id: Id,
    pub offset: u64,
    pub size: u64,
    pub object_type: ObjectType,
    pub buffer: u64,
    pub allocation: u64,
}

impl AllocatedBuffer {
    pub fn new(id: Id, size: u64, object_type: ObjectType, buffer: u64, allocation: u64) -> (r: Self)
        ensures
            r.id == id,
            r.offset == 0,
            r.size == size,
            r.object_type == object_type,
            r.buffer == buffer,
            r.allocation == allocation,
    {
        Self { id, offset: 0, size, object_type, buffer, allocation }
    }
}

/// A GPU image and the device-memory allocation behind it.
#[derive(Clone, Copy, Debug, PartialEq, Eq, Structural)]
pub struct AllocatedImage {
    pub id: Id,
    pub format: i32,
    pub image: u64,
    pub allocation: u64,
}

impl AllocatedImage {
    pub fn new(id: Id, format: i32, image: u64, allocation: u64) -> (r: Self)
        ensures
            r.id == id,
            r.format == format,
            r.image == image,
            r.allocation == allocation,
    {
        Self { id, format, image, allocation }
    }
}

/// A mesh promoted to GPU residency.
#[derive(Clone, Copy, Debug, PartialEq, Eq, Structural)]
pub struct AllocatedMesh {
    pub id: Id,
    pub metadata: MeshMetadata,
    pub vertex_buffer: AllocatedBuffer,
    pub index_buffer: AllocatedBuffer,
}

impl AllocatedMesh {
    pub fn new(
        id: Id,
        metadata: MeshMetadata,
        vertex_buffer: AllocatedBuffer,
        index_buffer: AllocatedBuffer,
    ) -> (r: Self)
        ensures
            r.id == id,
            r.metadata == metadata,
            r.vertex_buffer == vertex_buffer,
            r.index_buffer == index_buffer,
    {
        Self { id, metadata, vertex_buffer, index_buffer }
    }
}

/// The kind of GPU object behind an allocation.
#[derive(Clone, Copy, Debug, PartialEq, Eq, Structural)]
pub enum AllocatedObject {
    Buffer { buffer: u64, allocation: u64 },
    Image { buffer: u64, allocation: u64 },
}

/// An allocation of either kind, with its placement.
#[derive(Clone, Copy, Debug, PartialEq, Eq, Structural)]
pub struct Allocated {
    pub id: usize,
    pub offset: u64,
    pub size: u64,
    pub object_type: ObjectType,
    pub object: AllocatedObject,
}

impl Allocated {
    pub fn new_buffer(id: usize, size: u64, object_type: ObjectType, buffer: u64, allocation: u64) -> (r: Self)
        ensures
            r == (Allocated {
                id,
                offset: 0,
                size,
                object_type,
                object: AllocatedObject::Buffer { buffer, allocation },
            }),
    {
        Self { id, offset: 0, size, object_type, object: AllocatedObject::Buffer { buffer, allocation } }
    }

    pub fn new_image(id: usize, size: u64, object_type: ObjectType, buffer: u64, allocation: u64) -> (r: Self)
        ensures
            r == (Allocated {
                id,
                offset: 0,
                size,
                object_type,
                object: AllocatedObject::Image { buffer, allocation },
            }),
    {
        Self { id, offset: 0, size, object_type, object: AllocatedObject::Image { buffer, allocation } }
    }
}

/// The contents and usage of one buffer to be created in host-visible memory,
/// used with exclusive sharing.
pub struct BufferRequest {
    pub data: Vec<u8>,
    pub usage: BufferUsage,
}

/// What the device handed back for one buffer request.
#[derive(Clone, Copy, Debug, PartialEq, Eq, Structural)]
pub struct DeviceBuffer {
    pub buffer: u64,
    pub allocation: u64,
}

/// The two buffers that make a mesh GPU resident.
pub struct MeshUpload {
    pub metadata: MeshMetadata,
    pub vertex: BufferRequest,
    pub index: BufferRequest,
}

impl MeshUpload {
    /// Each buffer is sized exactly to the counts of the mesh.
    pub open spec fn wf(&self) -> bool {
        &&& self.vertex.data@.len() == VERTEX_STRIDE * self.metadata.vertices_count
        &&& self.index.data@.len() == INDEX_SIZE * self.metadata.indices_count
        &&& self.vertex.usage == BufferUsage::Vertex
        &&& self.index.usage == BufferUsage::Index
    }

    /// The vertex and index buffers of a mesh, with their exact bytes.
    pub fn new(mesh: &Mesh) -> (r: Self)
        requires
            mesh.wf(),
        ensures
            r.wf(),
            r.metadata == mesh.metadata,
            r.vertex.data@ == vertices_bytes(mesh.vertices@),
            r.index.data@ == words_bytes(mesh.indices@),
    {
        let vertex = BufferRequest { data: vertex_buffer_data(&mesh.vertices), usage: BufferUsage::Vertex };
        let index = BufferRequest { data: index_buffer_data(&mesh.indices), usage: BufferUsage::Index };
        MeshUpload { metadata: mesh.metadata, vertex, index }
    }

    /// Bundles the created buffers with the mesh's metadata. The vertex
    /// buffer holds `vertices_count * VERTEX_STRIDE` bytes and the index
    /// buffer `indices_count * INDEX_SIZE`.
    pub fn complete(&self, vertex: DeviceBuffer, index: DeviceBuffer) -> (r: AllocatedMesh)
        requires
            self.wf(),
        ensures
            r.id == self.metadata.id,
            r.metadata == self.metadata,
            r.vertex_buffer.size == self.metadata.vertices_count * VERTEX_STRIDE,
            r.index_buffer.size == self.metadata.indices_count * INDEX_SIZE,
            r.vertex_buffer.offset == 0,
            r.index_buffer.offset == 0,
            r.vertex_buffer.object_type == ObjectType::Mesh,
            r.index_buffer.object_type == ObjectType::Mesh,
            r.vertex_buffer.buffer == vertex.buffer,
            r.vertex_buffer.allocation == vertex.allocation,
            r.index_buffer.buffer == index.buffer,
            r.index_buffer.allocation == index.allocation,
    {
        let vertex_buffer = AllocatedBuffer::new(
            Id::new(),
            self.vertex.data.len() as u64,
            ObjectType::Mesh,
            vertex.buffer,
            vertex.allocation,
        );
        let index_buffer = AllocatedBuffer::new(
            Id::new(),
            self.index.data.len() as u64,
            ObjectType::Mesh,
            index.buffer,
            index.allocation,
        );
        AllocatedMesh::new(self.metadata.id, self.metadata, vertex_buffer, index_buffer)
    }
}

/// Uploading a well-formed mesh yields a vertex buffer of
/// `vertex_count * VERTEX_STRIDE` bytes and an index buffer of
/// `index_count * INDEX_SIZE` bytes: the byte layouts that `MeshUpload::new`
/// produces have exactly those lengths.
pub proof fn lemma_upload_sizes(mesh: &Mesh)
    requires
        mesh.wf(),
    ensures
        vertices_bytes(mesh.vertices@).len() == mesh.metadata.vertices_count * VERTEX_STRIDE,
        words_bytes(mesh.indices@).len() == mesh.metadata.indices_count * INDEX_SIZE,
{
    lemma_vertices_bytes_len(mesh.vertices@);
    lemma_words_bytes_len(mesh.indices@);
}

} // verus!
