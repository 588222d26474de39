use vstd::prelude::*;
use crate::allocator::AllocatedMesh;

verus! {

/// The meshes that have been uploaded, with the vertex buffer handles and
/// byte offsets used to bind all of them in one call.
pub struct Register {
    allocated_meshes: Vec<AllocatedMesh>,
    buffers: Vec<u64>,
    offsets: Vec<u64>,
}

/// The vertex buffer handles of a mesh list, one per mesh.
pub open spec fn buffers_of(meshes: Seq<AllocatedMesh>) -> Seq<u64> {
    meshes.map_values(|m: AllocatedMesh| m.vertex_buffer.buffer)
}

/// The vertex buffer offsets of a mesh list, one per mesh.
pub open spec fn offsets_of(meshes: Seq<AllocatedMesh>) -> Seq<u64> {
    meshes.map_values(|m: AllocatedMesh| m.vertex_buffer.offset)
}

impl Register {
    /// The derived arrays are index-aligned with the mesh list.
    pub closed spec fn wf(&self) -> bool {
        &&& self.buffers@ == buffers_of(self.allocated_meshes@)
        &&& self.offsets@ == offsets_of(self.allocated_meshes@)
    }

    /// The registered meshes, in registration order.
    pub closed spec fn view(&self) -> Seq<AllocatedMesh> {
        self.allocated_meshes@
    }

    pub closed spec fn buffers_view(&self) -> Seq<u64> {
        self.buffers@
    }

    pub closed spec fn offsets_view(&self) -> Seq<u64> {
        self.offsets@
    }

    pub fn new() -> (r: Self)
        ensures
            r.wf(),
            r@.len() == 0,
    {
        let r = Register { allocated_meshes: Vec::new(), buffers: Vec::new(), offsets: Vec::new() };
        assert(r.buffers@ =~= buffers_of(r.allocated_meshes@));
        assert(r.offsets@ =~= offsets_of(r.allocated_meshes@));
        r
    }

    /// Appends an uploaded mesh and recomputes the bind arrays.
    pub fn register_mesh(&mut self, allocated_mesh: AllocatedMesh)
        requires
            old(self).wf(),
        ensures
            final(self).wf(),
            final(self)@ == old(self)@.push(allocated_mesh),
    {
        self.allocated_meshes.push(allocated_mesh);
        self.accumulate_data();
    }

    pub fn get_meshes(&self) -> (r: &[AllocatedMesh])
        ensures
            r@ == self@,
    {
        self.allocated_meshes.as_slice()
    }

    /// One vertex buffer handle per registered mesh, in the same order.
    pub fn get_buffers(&self) -> (r: &[u64])
        requires
            self.wf(),
        ensures
            r@ == buffers_of(self@),
            r@.len() == self@.len(),
    {
        self.buffers.as_slice()
    }

    /// One vertex buffer offset per registered mesh, in the same order.
    pub fn get_offsets(&self) -> (r: &[u64])
        requires
            self.wf(),
        ensures
            r@ == offsets_of(self@),
            r@.len() == self@.len(),
    {
        self.offsets.as_slice()
    }

    fn accumulate_data(&mut self)
        ensures
            final(self).wf(),
            final(self)@ == old(self)@,
    {
        let mut buffers: Vec<u64> = Vec::new();
        let mut offsets: Vec<u64> = Vec::new();
        let mut i: usize = 0;
        while i < self.allocated_meshes.len()
            invariant
                i <= self.allocated_meshes@.len(),
                buffers@ == buffers_of(self.allocated_meshes@.subrange(0, i as int)),
                offsets@ == offsets_of(self.allocated_meshes@.subrange(0, i as int)),
            decreases self.allocated_meshes@.len() - i,
        {
            let mesh = &self.allocated_meshes[i];
            buffers.push(mesh.vertex_buffer.buffer);
            offsets.push(mesh.vertex_buffer.offset);
            i = i + 1;
            assert(buffers@ =~= buffers_of(self.allocated_meshes@.subrange(0, i as int)));
            assert(offsets@ =~= offsets_of(self.allocated_meshes@.subrange(0, i as int)));
        }
        assert(self.allocated_meshes@.subrange(0, i as int) =~= self.allocated_meshes@);
        self.buffers = buffers;
        self.offsets = offsets;
    }
}

/// After any sequence of registrations the bind arrays have one entry per
/// registered mesh: buffers, offsets and meshes have the same length.
pub proof fn lemma_register_aligned(register: &Register)
    requires
        register.wf(),
    ensures
        register.buffers_view().len() == register@.len(),
        register.offsets_view().len() == register@.len(),
{
}

} // verus!
