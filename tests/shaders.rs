use no_engine::id::Id;
use no_engine::shader::{
    is_shader_source, plan_shader_file, shader_kind_of_file_name, shader_name_len, RawShader, ShaderError,
    ShaderKind, ShaderManager, ShaderStage,
};

#[test]
fn next_stage_follows_the_chain() {
    assert_eq!(ShaderManager::map_next_stage(ShaderStage::Vertex), ShaderStage::Fragment);
    assert_eq!(ShaderManager::map_next_stage(ShaderStage::TessellationControl), ShaderStage::TessellationEvaluation);
    assert_eq!(ShaderManager::map_next_stage(ShaderStage::TessellationEvaluation), ShaderStage::Geometry);
    assert_eq!(ShaderManager::map_next_stage(ShaderStage::Geometry), ShaderStage::Fragment);
    assert_eq!(ShaderManager::map_next_stage(ShaderStage::Fragment), ShaderStage::Empty);
    assert_eq!(ShaderManager::map_next_stage(ShaderStage::Compute), ShaderStage::Empty);
    assert_eq!(ShaderManager::map_shader_stage(ShaderKind::Compute), ShaderStage::Compute);
}

#[test]
fn file_names_give_stage() {
    assert_eq!(shader_kind_of_file_name("basic.vert.glsl"), Ok(ShaderKind::Vertex));
    assert_eq!(shader_kind_of_file_name("basic.frag.glsl"), Ok(ShaderKind::Fragment));
    assert_eq!(shader_kind_of_file_name("x.comp"), Ok(ShaderKind::Compute));
    assert_eq!(shader_kind_of_file_name("basic.geom.glsl"), Err(ShaderError::UnsupportedShaderType));
    assert_eq!(shader_kind_of_file_name("basic.vertex.glsl"), Err(ShaderError::UnsupportedShaderType));
    assert_eq!(shader_kind_of_file_name("basic"), Err(ShaderError::MissingShaderType));
    assert!(is_shader_source("shaders/unlit/basic.vert.glsl"));
    assert!(!is_shader_source("shaders/unlit/basic.vert.spv"));
    assert!(!is_shader_source("glsl"));
}

#[test]
fn raw_shader_keeps_fields() {
    let raw = RawShader::new(ShaderStage::Vertex, ShaderStage::Fragment, vec![1, 2]);
    assert_eq!(raw.stage, ShaderStage::Vertex);
    assert_eq!(raw.next_stage, ShaderStage::Fragment);
    assert_eq!(raw.raw, vec![1, 2]);
}

#[test]
fn materialize_skips_uploaded_and_release_is_idempotent() {
    let mut shaders = ShaderManager::new();
    let vert = shaders.store_compiled_shader(ShaderKind::Vertex, vec![3, 2, 0x23, 7]);
    let frag = shaders.store_compiled_shader(ShaderKind::Fragment, vec![9]);
    let infos = shaders.pending_uploads(&[vert]).unwrap();
    assert_eq!(infos.len(), 1);
    assert_eq!(infos[0].id, vert);
    assert_eq!(infos[0].stage, ShaderStage::Vertex);
    assert_eq!(infos[0].next_stage, ShaderStage::Fragment);
    assert_eq!(infos[0].code, vec![3, 2, 0x23, 7]);
    assert_eq!(shaders.record_uploads(&infos, &vec![55]), Ok(()));
    let infos = shaders.pending_uploads(&[vert, frag]).unwrap();
    assert_eq!(infos.len(), 1);
    assert_eq!(infos[0].id, frag);
    assert_eq!(shaders.record_uploads(&infos, &vec![]), Err(ShaderError::UploadMismatch));
    assert_eq!(shaders.record_uploads(&infos, &vec![66]), Ok(()));
    assert_eq!(shaders.get_shaders().len(), 2);
    assert_eq!(shaders.clear_shader_modules(), vec![55, 66]);
    assert!(shaders.clear_shader_modules().is_empty());
}

#[test]
fn materialize_unknown_shader_fails() {
    let shaders = ShaderManager::new();
    let missing = Id(12345);
    assert!(matches!(shaders.pending_uploads(&[missing]), Err(ShaderError::NotCompiled(id)) if id == missing));
}

#[test]
fn shader_folder_plan() {
    assert_eq!(plan_shader_file("shaders/unlit/basic.vert.glsl", "basic.vert.glsl"), Some(Ok((5, ShaderKind::Vertex))));
    assert_eq!(plan_shader_file("shaders/unlit/sky.frag.glsl", "sky.frag.glsl"), Some(Ok((3, ShaderKind::Fragment))));
    assert_eq!(plan_shader_file("shaders/unlit/readme.txt", "readme.txt"), None);
    assert_eq!(plan_shader_file("a/b.tesc.glsl", "b.tesc.glsl"), Some(Err(ShaderError::UnsupportedShaderType)));
    assert_eq!(shader_name_len("noext"), 5);
    assert_eq!(shader_name_len(".vert"), 0);
}
