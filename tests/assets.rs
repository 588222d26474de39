use no_engine::allocator::{index_buffer_data, vertex_buffer_data, DeviceBuffer, MeshUpload, ObjectType};
use no_engine::asset::{AssetError, AssetManager, ObjectsQueue};
use no_engine::id::Id;
use no_engine::loader::{ObjModel, ObjectsLoader};
use no_engine::mesh::{Float3, Mesh, Vertex};
use no_engine::register::Register;
use no_engine::upload::{check_upload_queue, UploadError};

fn bits(v: &[f32]) -> Vec<u32> {
    v.iter().map(|f| f.to_bits()).collect()
}

fn triangle() -> ObjModel {
    ObjModel {
        positions: bits(&[0.0, 0.0, 0.0, 1.0, 0.0, 0.0, 0.0, 1.0, 0.0]),
        normals: bits(&[0.0, 0.0, 1.0, 0.0, 0.0, 1.0, 0.0, 0.0, 1.0]),
        indices: vec![0, 1, 2],
    }
}

#[test]
fn id_from_next_and_value() {
    let mut id = Id::from(41);
    assert_eq!(id.value(), 41);
    id.next();
    assert_eq!(id, Id(42));
    let _ = Id::new();
}

#[test]
fn loader_builds_vertices_with_normal_as_color() {
    let loader = ObjectsLoader::new();
    let mesh = loader.load_obj_mesh(&Some(vec![triangle()]), Id(7)).unwrap();
    assert_eq!(mesh.metadata.id, Id(7));
    assert_eq!(mesh.metadata.vertices_count, 3);
    assert_eq!(mesh.metadata.indices_count, 3);
    assert_eq!(mesh.vertices[1].position, Float3 { x: 1.0f32.to_bits(), y: 0, z: 0 });
    assert_eq!(mesh.vertices[2].color, mesh.vertices[2].normal);
    assert_eq!(mesh.indices, vec![0, 1, 2]);
    assert!(!mesh.is_uploaded);
}

#[test]
fn loader_ignores_incomplete_triples_and_missing_models() {
    let loader = ObjectsLoader::new();
    let model = ObjModel { positions: vec![1, 2, 3, 4, 5], normals: vec![6, 7, 8, 9, 10, 11], indices: vec![] };
    let mesh = loader.load_obj_mesh(&Some(vec![model]), Id(0)).unwrap();
    assert_eq!(mesh.vertices.len(), 1);
    assert_eq!(mesh.vertices[0].normal, Float3 { x: 6, y: 7, z: 8 });
    assert!(loader.load_obj_mesh(&Some(vec![]), Id(0)).is_none());
    assert!(loader.load_obj_mesh(&None, Id(0)).is_none());
}

#[test]
fn load_file_queues_fresh_id() {
    let mut assets = AssetManager::new();
    assert_eq!(assets.load_file("obj", &Some(vec![triangle()])), Ok(Id(0)));
    assert_eq!(assets.load_file("obj", &Some(vec![triangle()])), Ok(Id(1)));
    assert_eq!(assets.get_mesh(Id(1)).metadata.id, Id(1));
    assert_eq!(assets.get_assets_to_upload(), vec![ObjectsQueue::Mesh(Id(0)), ObjectsQueue::Mesh(Id(1))]);
    assert!(assets.get_assets_to_upload().is_empty());
}

#[test]
fn load_file_rejects_unsupported_extension() {
    let mut assets = AssetManager::new();
    assert_eq!(assets.load_file("png", &Some(vec![triangle()])), Err(AssetError::UnsupportedFormat));
    assert_eq!(assets.load_file("ob", &Some(vec![triangle()])), Err(AssetError::UnsupportedFormat));
    assert!(assets.get_assets_to_upload().is_empty());
}

#[test]
fn failed_parse_consumes_no_id() {
    let mut assets = AssetManager::new();
    assert_eq!(assets.load_file("obj", &None), Err(AssetError::ParseFailed));
    assert_eq!(assets.load_file("obj", &Some(vec![])), Err(AssetError::ParseFailed));
    assert!(assets.get_assets_to_upload().is_empty());
    assert_eq!(assets.load_file("obj", &Some(vec![triangle()])), Ok(Id(0)));
}

#[test]
fn buffer_bytes_are_little_endian_words() {
    let v = Vertex {
        position: Float3 { x: 0x04030201, y: 0, z: 0 },
        normal: Float3 { x: 0, y: 0, z: 0 },
        color: Float3 { x: 0, y: 0, z: 0xff },
    };
    let bytes = vertex_buffer_data(&vec![v, v]);
    assert_eq!(bytes.len(), 72);
    assert_eq!(&bytes[0..4], &[1, 2, 3, 4]);
    assert_eq!(&bytes[32..36], &[0xff, 0, 0, 0]);
    assert_eq!(&bytes[36..40], &[1, 2, 3, 4]);
    assert_eq!(index_buffer_data(&vec![1, 0x0100]), vec![1, 0, 0, 0, 0, 1, 0, 0]);
}

#[test]
fn upload_sizes_follow_counts() {
    let loader = ObjectsLoader::new();
    let mesh: Mesh = loader.load_obj_mesh(&Some(vec![triangle()]), Id(3)).unwrap();
    let plan = MeshUpload::new(&mesh);
    let gpu = plan.complete(DeviceBuffer { buffer: 10, allocation: 11 }, DeviceBuffer { buffer: 20, allocation: 21 });
    assert_eq!(gpu.vertex_buffer.size, 3 * 36);
    assert_eq!(gpu.index_buffer.size, 3 * 4);
    assert_eq!(gpu.vertex_buffer.buffer, 10);
    assert_eq!(gpu.index_buffer.allocation, 21);
    assert_eq!(gpu.vertex_buffer.object_type, ObjectType::Mesh);
    assert_eq!(gpu.id, Id(3));
}

#[test]
fn one_triangle_load_upload_register() {
    let mut assets = AssetManager::new();
    let mut register = Register::new();
    let id = assets.load_file("obj", &Some(vec![triangle()])).unwrap();
    assert_eq!(id, Id(0));
    let uploaded = check_upload_queue(&mut assets, &mut register, |plan: &MeshUpload| {
        assert_eq!(plan.vertex.data.len(), 108);
        assert_eq!(plan.index.data.len(), 12);
        Some((DeviceBuffer { buffer: 100, allocation: 1 }, DeviceBuffer { buffer: 200, allocation: 2 }))
    });
    assert_eq!(uploaded, Ok(1));
    let meshes = register.get_meshes();
    assert_eq!(meshes.len(), 1);
    assert_eq!(meshes[0].metadata.vertices_count, 3);
    assert_eq!(meshes[0].metadata.indices_count, 3);
    assert_eq!(meshes[0].id, id);
    assert_eq!(register.get_buffers(), &[100]);
    assert_eq!(register.get_offsets(), &[0]);
    assert!(assets.get_assets_to_upload().is_empty());
    assert_eq!(check_upload_queue(&mut assets, &mut register, |_p: &MeshUpload| {
        Some((DeviceBuffer { buffer: 0, allocation: 0 }, DeviceBuffer { buffer: 0, allocation: 0 }))
    }), Ok(0));
    assert_eq!(register.get_meshes().len(), 1);
}

#[test]
fn allocation_failure_is_reported() {
    let mut assets = AssetManager::new();
    let mut register = Register::new();
    assets.load_file("obj", &Some(vec![triangle()])).unwrap();
    assets.load_file("obj", &Some(vec![triangle()])).unwrap();
    assets.load_file("obj", &Some(vec![triangle()])).unwrap();
    let calls = std::cell::Cell::new(0u32);
    let r = check_upload_queue(&mut assets, &mut register, |_p: &MeshUpload| {
        calls.set(calls.get() + 1);
        if calls.get() == 2 {
            None
        } else {
            Some((DeviceBuffer { buffer: 1, allocation: 1 }, DeviceBuffer { buffer: 2, allocation: 2 }))
        }
    });
    assert_eq!(r, Err(UploadError::AllocationFailed(Id(1))));
    assert_eq!(calls.get(), 2);
    assert_eq!(register.get_meshes().len(), 1);
    assert_eq!(register.get_meshes()[0].id, Id(0));
    assert!(assets.get_assets_to_upload().is_empty());
}
