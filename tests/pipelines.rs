use std::cell::Cell;

use no_engine::configuration::{AntiAliasing, AntiAliasingType, PipelineConfiguration};
use no_engine::id::Id;
use no_engine::pipeline::{
    describe_pipeline, CullMode, Extent2D, PipelineDescription, PipelineError, PipelineManager, PipelineObject,
    PolygonMode, PrimitiveTopology, ShaderStageBinding, COLOR_WRITE_RGBA, DEPTH_FORMAT_D32_SFLOAT,
};
use no_engine::shader::{ShaderKind, ShaderManager, ShaderStage};
use no_engine::utils::hash;

const EXTENT: Extent2D = Extent2D { width: 800, height: 600 };

fn config(ids: &[Id], aa: AntiAliasingType) -> PipelineConfiguration {
    let mut c = PipelineConfiguration::new();
    c.shaders_id.extend_from_slice(ids);
    c.anti_alising = AntiAliasing::new(aa);
    c
}

fn manager_with_vertex_shader() -> (ShaderManager, Id) {
    let mut shaders = ShaderManager::new();
    let id = shaders.store_compiled_shader(ShaderKind::Vertex, vec![1]);
    let infos = shaders.pending_uploads(&[id]).unwrap();
    shaders.record_uploads(&infos, &vec![77]).unwrap();
    (shaders, id)
}

#[test]
fn anti_aliasing_choices() {
    let mut aa = AntiAliasingType::new();
    assert_eq!(aa, AntiAliasingType::Off);
    assert_eq!(aa.get_sample_count(), None);
    aa.choose_msaa(8);
    assert_eq!(aa.get_sample_count(), Some(8));
    aa.choose_msaa(3);
    assert_eq!(aa.get_sample_count(), Some(1));
    aa.choose_fxaa();
    assert_eq!(aa, AntiAliasingType::FXAA);
    aa.choose_taa();
    assert_eq!(aa.get_sample_count(), None);
}

#[test]
fn msaa_four_gives_four_samples_and_three_falls_back() {
    let (shaders, id) = manager_with_vertex_shader();
    let d = describe_pipeline(&shaders, &config(&[id], AntiAliasingType::MSAA(4)), EXTENT, &[50]).unwrap();
    assert_eq!(d.sample_count, 4);
    let d = describe_pipeline(&shaders, &config(&[id], AntiAliasingType::MSAA(3)), EXTENT, &[50]).unwrap();
    assert_eq!(d.sample_count, 1);
    let d = describe_pipeline(&shaders, &config(&[id], AntiAliasingType::Off), EXTENT, &[50]).unwrap();
    assert_eq!(d.sample_count, 1);
}

#[test]
fn unimplemented_anti_aliasing_fails() {
    let (shaders, id) = manager_with_vertex_shader();
    assert!(matches!(
        describe_pipeline(&shaders, &config(&[id], AntiAliasingType::FXAA), EXTENT, &[50]),
        Err(PipelineError::UnsupportedAntiAliasing)
    ));
    assert!(matches!(
        describe_pipeline(&shaders, &config(&[id], AntiAliasingType::TAA), EXTENT, &[50]),
        Err(PipelineError::UnsupportedAntiAliasing)
    ));
}

#[test]
fn description_drops_unknown_shaders_and_fixes_state() {
    let (shaders, id) = manager_with_vertex_shader();
    let d = describe_pipeline(&shaders, &config(&[Id(9), id], AntiAliasingType::Off), EXTENT, &[50, 43]).unwrap();
    assert_eq!(d.stages, vec![ShaderStageBinding { shader: 77, stage: ShaderStage::Vertex }]);
    assert_eq!(d.topology, PrimitiveTopology::TriangleList);
    assert_eq!(d.polygon_mode, PolygonMode::Fill);
    assert_eq!(d.cull_mode, CullMode::Disabled);
    assert!(!d.blend_enable && !d.depth_clamp_enable);
    assert_eq!(d.color_write_mask, COLOR_WRITE_RGBA);
    assert_eq!(d.extent, EXTENT);
    assert_eq!(d.color_attachment_formats, vec![50, 43]);
    assert_eq!(d.depth_format, DEPTH_FORMAT_D32_SFLOAT);
}

#[test]
fn require_twice_compiles_once() {
    let (shaders, id) = manager_with_vertex_shader();
    let mut cache = PipelineManager::new();
    let builds = Cell::new(0u32);
    let build = |d: PipelineDescription| {
        builds.set(builds.get() + 1);
        assert_eq!(d.sample_count, 4);
        (500 + builds.get() as u64, 600)
    };
    let first = cache.require_pipeline(&shaders, config(&[id], AntiAliasingType::MSAA(4)), EXTENT, &[50], build).unwrap();
    let build = |_d: PipelineDescription| {
        builds.set(builds.get() + 1);
        (900, 901)
    };
    let second = cache.require_pipeline(&shaders, config(&[id], AntiAliasingType::MSAA(4)), EXTENT, &[50], build).unwrap();
    assert_eq!(first, second);
    assert_eq!(builds.get(), 1);
    assert_eq!(first.pipeline, 501);
    assert_eq!(first.pipeline_layout, 600);
    assert_eq!(cache.current_pipeline_object(), Some(first));
    assert_eq!(cache.find_pipeline(&config(&[id], AntiAliasingType::MSAA(4))), Some(first));
    assert_eq!(cache.find_pipeline(&config(&[id], AntiAliasingType::MSAA(8))), None);
}

#[test]
fn distinct_configurations_get_distinct_pipelines() {
    let (shaders, id) = manager_with_vertex_shader();
    let mut cache = PipelineManager::new();
    let a = cache.require_pipeline(&shaders, config(&[id], AntiAliasingType::Off), EXTENT, &[50], |_d| (1, 2)).unwrap();
    let b = cache.require_pipeline(&shaders, config(&[id], AntiAliasingType::MSAA(2)), EXTENT, &[50], |_d| (3, 4)).unwrap();
    let c = cache.require_pipeline(&shaders, config(&[], AntiAliasingType::Off), EXTENT, &[50], |_d| (5, 6)).unwrap();
    assert_ne!(a.hash, b.hash);
    assert_ne!(a.hash, c.hash);
    assert_eq!((a.pipeline, b.pipeline, c.pipeline), (1, 3, 5));
    let failed = cache.require_pipeline(&shaders, config(&[id], AntiAliasingType::TAA), EXTENT, &[50], |_d| (7, 8));
    assert_eq!(failed, Err(PipelineError::UnsupportedAntiAliasing));
    let mut evicted = cache.clear_pipeline_objects();
    evicted.sort_by_key(|o| o.pipeline);
    assert_eq!(evicted, vec![a, b, c]);
    assert!(cache.clear_pipeline_objects().is_empty());
    assert_eq!(cache.find_pipeline(&config(&[id], AntiAliasingType::Off)), None);
}

#[test]
fn configuration_hash_is_stable_and_sensitive() {
    let c1 = config(&[Id(1), Id(2)], AntiAliasingType::Off);
    let c2 = config(&[Id(2), Id(1)], AntiAliasingType::Off);
    let o1 = PipelineObject::new(1, 2, &c1);
    let o1_again = PipelineObject::new(3, 4, &c1);
    let o2 = PipelineObject::new(1, 2, &c2);
    assert_eq!(o1.hash, o1_again.hash);
    assert_ne!(o1.hash, o2.hash);
    assert_eq!(c1.key_words(), vec![1, 2, 0, 0]);
    assert_eq!(hash(&[1, 2, 0, 0]), o1.hash);
    assert_ne!(hash(&[1, 2, 0, 0]), hash(&[1, 2, 0, 1]));
}

#[test]
fn add_shaders_appends_ids() {
    let (shaders, id) = manager_with_vertex_shader();
    let mut c = PipelineConfiguration::new();
    c.add_shaders(shaders.get_shaders());
    c.add_shaders(shaders.get_shaders());
    assert_eq!(c.shaders_id, vec![id, id]);
}
