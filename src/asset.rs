use vstd::prelude::*;
use vstd::string::{is_ascii_spec_bytes, StringSliceAdditionalSpecFns};
use vstd::utf8::is_ascii_chars;
use crate::id::Id;
use crate::loader::{model_vertex, model_vertex_count, ObjModel, ObjectsLoader};
use crate::mesh::Mesh;

verus! {

/// An asset waiting for GPU upload.
#[derive(Clone, Copy, Debug, PartialEq, Eq, Structural)]
pub enum ObjectsQueue {
    Mesh(Id),
}

/// Why a file was not loaded.
#[derive(Clone, Copy, Debug, PartialEq, Eq, Structural)]
pub enum AssetError {
    /// The file extension names no format the engine reads.
    UnsupportedFormat,
    /// The file could not be parsed into a mesh.
    ParseFailed,
}

/// The extension of the Wavefront OBJ format.
pub open spec fn obj_extension() -> Seq<char> {
    seq!['o', 'b', 'j']
}

/// The parse result describes a mesh the engine can hold: at least one
/// model, whose counts fit the mesh metadata.
pub open spec fn parsed_mesh_ok(parsed: &Option<Vec<ObjModel>>) -> bool {
    &&& parsed.is_some()
    &&& parsed->Some_0@.len() > 0
    &&& model_vertex_count(&parsed->Some_0@[0]) <= u32::MAX
    &&& parsed->Some_0@[0].indices@.len() <= u32::MAX
}

/// Loaded meshes, their identities, and the queue of meshes awaiting upload.
pub struct AssetManager {
    loader: ObjectsLoader,
    meshes: Vec<Mesh>,
    assets_to_upload: Vec<ObjectsQueue>,
    next_mesh_id: Id,
    next_image_id: Id,
}

impl AssetManager {
    /// Mesh `i` has identity `i`; the next identity is the mesh count; every
    /// queued identity names a loaded mesh.
    pub closed spec fn wf(&self) -> bool {
        &&& self.next_mesh_id.0 == self.meshes@.len()
        &&& forall|i: int| 0 <= i < self.meshes@.len() ==>
            (#[trigger] self.meshes@[i]).metadata.id.0 == i && self.meshes@[i].wf()
        &&& forall|k: int| 0 <= k < self.assets_to_upload@.len() ==>
            (#[trigger] self.assets_to_upload@[k])->Mesh_0.0 < self.meshes@.len()
    }

    /// The loaded meshes, in load order.
    pub closed spec fn meshes(&self) -> Seq<Mesh> {
        self.meshes@
    }

    /// The assets awaiting upload, in load order.
    pub closed spec fn queue(&self) -> Seq<ObjectsQueue> {
        self.assets_to_upload@
    }

    pub fn new() -> (r: Self)
        ensures
            r.wf(),
            r.meshes().len() == 0,
            r.queue().len() == 0,
    {
        Self {
            loader: ObjectsLoader::new(),
            meshes: Vec::new(),
            assets_to_upload: Vec::new(),
            next_mesh_id: Id::from(0),
            next_image_id: Id::from(0),
        }
    }

    /// Whether files with this extension can be loaded: only `obj`.
    pub fn supports_extension(extension: &str) -> (r: bool)
        ensures
            r == (extension@ == obj_extension()),
    {
        if !extension.is_ascii() {
            proof {
                if extension@ == obj_extension() {
                    assert(is_ascii_chars(extension@));
                }
            }
            return false;
        }
        let ext = extension.as_bytes();
        proof {
            is_ascii_spec_bytes(extension);
        }
        let is_obj = ext.len() == 3 && ext[0] == 0x6fu8 && ext[1] == 0x62u8 && ext[2] == 0x6au8;
        proof {
            if is_obj {
                assert(extension@ =~= obj_extension()) by {
                    assert(extension@.len() == 3);
                    assert(ext@[0] == extension@[0] as u8);
                    assert(ext@[1] == extension@[1] as u8);
                    assert(ext@[2] == extension@[2] as u8);
                }
            } else if extension@ == obj_extension() {
                assert(ext@[0] == extension@[0] as u8);
                assert(ext@[1] == extension@[1] as u8);
                assert(ext@[2] == extension@[2] as u8);
            }
        }
        is_obj
    }

    /// How many meshes are loaded.
    pub fn mesh_count(&self) -> (r: usize)
        ensures
            r == self.meshes().len(),
    {
        self.meshes.len()
    }

    /// Loads a parsed file with the given extension. An OBJ file that holds
    /// a mesh is appended under the next identity, which is queued for upload
    /// and returned. Otherwise nothing changes: `UnsupportedFormat` for an
    /// extension other than `obj`, `ParseFailed` when the parse gave no mesh.
    pub fn load_file(&mut self, extension: &str, parsed: &Option<Vec<ObjModel>>) -> (r: Result<Id, AssetError>)
        requires
            old(self).wf(),
            old(self).meshes().len() < usize::MAX,
        ensures
            final(self).wf(),
            extension@ != obj_extension() ==> r == Err::<Id, AssetError>(AssetError::UnsupportedFormat),
            extension@ == obj_extension() && !parsed_mesh_ok(parsed) ==> r == Err::<Id, AssetError>(AssetError::ParseFailed),
            extension@ == obj_extension() && parsed_mesh_ok(parsed) ==> r == Ok::<Id, AssetError>(Id(old(self).meshes().len() as usize)),
            r.is_err() ==> final(self).meshes() == old(self).meshes() && final(self).queue() == old(self).queue(),
            r.is_ok() ==> ({
                let id = r->Ok_0;
                let m = final(self).meshes().last();
                let model = &parsed->Some_0@[0];
                &&& final(self).meshes().len() == old(self).meshes().len() + 1
                &&& final(self).meshes().drop_last() == old(self).meshes()
                &&& final(self).queue() == old(self).queue().push(ObjectsQueue::Mesh(id))
                &&& m.metadata.id == id
                &&& m.wf()
                &&& !m.is_uploaded
                &&& m.vertices@.len() == model_vertex_count(model)
                &&& forall|i: int| 0 <= i < m.vertices@.len() ==> m.vertices@[i] == model_vertex(model, i)
                &&& m.indices@ == model.indices@
            }),
    {
        if !Self::supports_extension(extension) {
            return Err(AssetError::UnsupportedFormat);
        }
        let mesh_id = self.next_mesh_id;
        match self.loader.load_obj_mesh(parsed, mesh_id) {
            None => Err(AssetError::ParseFailed),
            Some(mesh) => {
                self.meshes.push(mesh);
                self.assets_to_upload.push(ObjectsQueue::Mesh(mesh_id));
                self.next_mesh_id.next();
                proof {
                    assert(self.meshes@.drop_last() =~= old(self).meshes@);
                }
                Ok(mesh_id)
            },
        }
    }

    /// The mesh with the given identity.
    pub fn get_mesh(&self, id: Id) -> (r: &Mesh)
        requires
            self.wf(),
            id.0 < self.meshes().len(),
        ensures
            *r == self.meshes()[id.0 as int],
            r.metadata.id == id,
            r.wf(),
    {
        &self.meshes[id.0]
    }

    /// Empties the upload queue and returns what it held; every queued
    /// identity names a loaded mesh.
    pub fn get_assets_to_upload(&mut self) -> (r: Vec<ObjectsQueue>)
        requires
            old(self).wf(),
        ensures
            final(self).wf(),
            r@ == old(self).queue(),
            final(self).queue().len() == 0,
            final(self).meshes() == old(self).meshes(),
            forall|k: int| 0 <= k < r@.len() ==> (#[trigger] r@[k])->Mesh_0.0 < final(self).meshes().len(),
    {
        let mut taken: Vec<ObjectsQueue> = Vec::new();
        std::mem::swap(&mut taken, &mut self.assets_to_upload);
        taken
    }
}

} // verus!
