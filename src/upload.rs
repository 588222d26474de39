use vstd::prelude::*;
use crate::allocator::{DeviceBuffer, MeshUpload};
use crate::asset::{AssetManager, ObjectsQueue};
use crate::id::Id;
use crate::mesh::{INDEX_SIZE, VERTEX_STRIDE};
use crate::register::Register;

verus! {

/// Why an upload stopped.
#[derive(Clone, Copy, Debug, PartialEq, Eq, Structural)]
pub enum UploadError {
    /// The device could not allocate the buffers of this mesh.
    AllocationFailed(Id),
}

/// Mesh `k` of the upload queue `queued` was registered as `m`.
pub open spec fn registered_as(meshes: Seq<crate::mesh::Mesh>, queued: Seq<ObjectsQueue>, k: int, m: crate::allocator::AllocatedMesh) -> bool {
    let mesh = meshes[queued[k]->Mesh_0.0 as int];
    &&& m.id == mesh.metadata.id
    &&& m.metadata == mesh.metadata
    &&& m.vertex_buffer.size == mesh.metadata.vertices_count * VERTEX_STRIDE
    &&& m.index_buffer.size == mesh.metadata.indices_count * INDEX_SIZE
}

/// Drains the upload queue: for each queued mesh, in queue order, `upload`
/// is handed the mesh's buffer contents and returns the vertex and index
/// buffers it created, or `None` when the device could not allocate them;
/// each resulting GPU mesh is registered. Returns how many meshes were
/// registered. An allocation failure stops the upload with
/// `AllocationFailed` naming that mesh: the meshes before it stay
/// registered, and the queue stays drained (each queued mesh is delivered
/// at most once).
pub fn check_upload_queue<U>(asset_manager: &mut AssetManager, register: &mut Register, upload: U) -> (r: Result<usize, UploadError>)
    where
        U: Fn(&MeshUpload) -> Option<(DeviceBuffer, DeviceBuffer)>,
    requires
        old(asset_manager).wf(),
        old(register).wf(),
        forall|u: &MeshUpload| upload.requires((u,)),
    ensures
        final(asset_manager).wf(),
        final(register).wf(),
        final(asset_manager).queue().len() == 0,
        final(asset_manager).meshes() == old(asset_manager).meshes(),
        final(register)@.subrange(0, old(register)@.len() as int) == old(register)@,
        r.is_ok() ==> r->Ok_0 == old(asset_manager).queue().len()
            && final(register)@.len() == old(register)@.len() + r->Ok_0,
        r.is_err() ==> exists|k: int| {
            &&& 0 <= k < old(asset_manager).queue().len()
            &&& r == Err::<usize, UploadError>(UploadError::AllocationFailed(old(asset_manager).queue()[k]->Mesh_0))
            &&& final(register)@.len() == old(register)@.len() + k
        },
        forall|k: int| 0 <= k < final(register)@.len() - old(register)@.len() ==>
            registered_as(old(asset_manager).meshes(), old(asset_manager).queue(), k,
                #[trigger] final(register)@[old(register)@.len() + k]),
{
    let queued = asset_manager.get_assets_to_upload();
    let ghost start = register@;
    let mut k: usize = 0;
    while k < queued.len()
        invariant
            k <= queued@.len(),
            queued@ == old(asset_manager).queue(),
            asset_manager.wf(),
            register.wf(),
            asset_manager.queue().len() == 0,
            asset_manager.meshes() == old(asset_manager).meshes(),
            forall|q: int| 0 <= q < queued@.len() ==> (#[trigger] queued@[q])->Mesh_0.0 < asset_manager.meshes().len(),
            forall|u: &MeshUpload| upload.requires((u,)),
            start == old(register)@,
            register@.len() == start.len() + k,
            register@.subrange(0, start.len() as int) == start,
            forall|q: int| 0 <= q < k ==>
                registered_as(old(asset_manager).meshes(), queued@, q, #[trigger] register@[start.len() + q]),
        decreases queued@.len() - k,
    {
        match queued[k] {
            ObjectsQueue::Mesh(id) => {
                let mesh = asset_manager.get_mesh(id);
                let plan = MeshUpload::new(mesh);
                let (vertex, index) = match upload(&plan) {
                    Some(buffers) => buffers,
                    None => {
                        assert(queued@[k as int]->Mesh_0 == id);
                        return Err(UploadError::AllocationFailed(id));
                    },
                };
                let allocated_mesh = plan.complete(vertex, index);
                let ghost before = register@;
                register.register_mesh(allocated_mesh);
                proof {
                    assert(register@.subrange(0, start.len() as int) =~= before.subrange(0, start.len() as int));
                    assert forall|q: int| 0 <= q < k implies #[trigger] register@[start.len() + q] == before[start.len() + q] by {}
                }
            },
        }
        k = k + 1;
    }
    Ok(k)
}

} // verus!
