use vstd::prelude::*;
use std::collections::HashMap;
use crate::configuration::{msaa_samples, AntiAliasingType, PipelineConfiguration};
use crate::id::Id;
use crate::shader::{ShaderManager, ShaderObject, ShaderStage};
use crate::utils::{hash, seeded_hash};

verus! {

broadcast use vstd::std_specs::hash::group_hash_axioms;

/// Width and height of a render target, in pixels.
#[derive(Clone, Copy, Debug, PartialEq, Eq, Structural)]
pub struct Extent2D {
    pub width: u32,
    pub height: u32,
}

#[derive(Clone, Copy, Debug, PartialEq, Eq, Structural)]
pub enum PrimitiveTopology {
    PointList,
    LineList,
    TriangleList,
    TriangleStrip,
}

#[derive(Clone, Copy, Debug, PartialEq, Eq, Structural)]
pub enum PolygonMode {
    Fill,
    Line,
    Point,
}

#[derive(Clone, Copy, Debug, PartialEq, Eq, Structural)]
pub enum CullMode {
    Disabled,
    Front,
    Back,
    FrontAndBack,
}

#[derive(Clone, Copy, Debug, PartialEq, Eq, Structural)]
pub enum FrontFace {
    CounterClockwise,
    Clockwise,
}

/// The red, green, blue and alpha bits of a color write mask.
pub const COLOR_WRITE_RGBA: u32 = 0xf;

/// The depth attachment format, 32-bit floating-point depth.
pub const DEPTH_FORMAT_D32_SFLOAT: i32 = 126;

/// A shader object bound to its stage in a pipeline.
#[derive(Clone, Copy, Debug, PartialEq, Eq, Structural)]
pub struct ShaderStageBinding {
    pub shader: u64,
    pub stage: ShaderStage,
}

/// Everything the device needs to compile a pipeline: shader stages, and
/// the fixed-function state of a triangle-list pipeline rendering into the
/// given color formats and one depth attachment.
pub struct PipelineDescription {
    pub stages: Vec<ShaderStageBinding>,
    pub topology: PrimitiveTopology,
    pub primitive_restart_enable: bool,
    pub depth_clamp_enable: bool,
    pub rasterizer_discard_enable: bool,
    pub polygon_mode: PolygonMode,
    pub cull_mode: CullMode,
    pub front_face: FrontFace,
    pub depth_bias_enable: bool,
    pub sample_count: u32,
    pub sample_shading_enable: bool,
    pub alpha_to_coverage_enable: bool,
    pub alpha_to_one_enable: bool,
    pub blend_enable: bool,
    pub color_write_mask: u32,
    pub extent: Extent2D,
    pub color_attachment_formats: Vec<i32>,
    pub depth_format: i32,
}

/// A compiled pipeline and its layout, under the hash of its configuration.
#[derive(Clone, Copy, Debug, PartialEq, Eq, Structural)]
pub struct PipelineObject {
    pub hash: u64,
    pub pipeline: u64,
    pub pipeline_layout: u64,
}

impl PipelineObject {
    pub fn new(pipeline: u64, pipeline_layout: u64, pipeline_configuration: &PipelineConfiguration) -> (r: Self)
        ensures
            r.hash == seeded_hash(pipeline_configuration.words()),
            r.pipeline == pipeline,
            r.pipeline_layout == pipeline_layout,
    {
        let words = pipeline_configuration.key_words();
        let hash = hash(words.as_slice());
        Self { hash, pipeline, pipeline_layout }
    }
}

#[derive(Clone, Copy, Debug, PartialEq, Eq, Structural)]
pub enum PipelineError {
    /// FXAA and TAA are not implemented.
    UnsupportedAntiAliasing,
}

/// The rasterization sample count of an anti-aliasing mode; `None` for the
/// modes that are not implemented.
pub open spec fn sample_count_of(a: AntiAliasingType) -> Option<u32> {
    match a {
        AntiAliasingType::Off => Some(1),
        AntiAliasingType::MSAA(n) => Some(msaa_samples(n)),
        _ => None,
    }
}

/// The first shader object made from shader `id`, if any.
pub open spec fn first_object(uploaded: Seq<ShaderObject>, id: Id) -> Option<ShaderObject>
    decreases uploaded.len(),
{
    if uploaded.len() == 0 {
        None
    } else {
        match first_object(uploaded.drop_last(), id) {
            Some(o) => Some(o),
            None => if uploaded.last().id == id {
                Some(uploaded.last())
            } else {
                None
            },
        }
    }
}

/// The stages of a pipeline: the requested shaders that have a shader
/// object, in request order; the others are left out.
pub open spec fn resolve_stages(uploaded: Seq<ShaderObject>, ids: Seq<Id>) -> Seq<ShaderStageBinding>
    decreases ids.len(),
{
    if ids.len() == 0 {
        Seq::empty()
    } else {
        let rest = resolve_stages(uploaded, ids.drop_last());
        match first_object(uploaded, ids.last()) {
            Some(o) => rest.push(ShaderStageBinding { shader: o.shader, stage: o.stage }),
            None => rest,
        }
    }
}

/// `d` is the description of configuration (`ids`, `a`) over the shader
/// objects `uploaded`.
pub open spec fn describes(
    d: PipelineDescription,
    uploaded: Seq<ShaderObject>,
    ids: Seq<Id>,
    a: AntiAliasingType,
    extent: Extent2D,
    formats: Seq<i32>,
) -> bool {
    &&& d.stages@ == resolve_stages(uploaded, ids)
    &&& d.topology == PrimitiveTopology::TriangleList
    &&& !d.primitive_restart_enable
    &&& !d.depth_clamp_enable
    &&& !d.rasterizer_discard_enable
    &&& d.polygon_mode == PolygonMode::Fill
    &&& d.cull_mode == CullMode::Disabled
    &&& d.front_face == FrontFace::CounterClockwise
    &&& !d.depth_bias_enable
    &&& sample_count_of(a) == Some(d.sample_count)
    &&& !d.sample_shading_enable
    &&& !d.alpha_to_coverage_enable
    &&& !d.alpha_to_one_enable
    &&& !d.blend_enable
    &&& d.color_write_mask == COLOR_WRITE_RGBA
    &&& d.extent == extent
    &&& d.color_attachment_formats@ == formats
    &&& d.depth_format == DEPTH_FORMAT_D32_SFLOAT
}

fn find_object(uploaded: &[ShaderObject], id: Id) -> (r: Option<ShaderObject>)
    ensures
        r == first_object(uploaded@, id),
{
    let mut k: usize = 0;
    while k < uploaded.len()
        invariant
            k <= uploaded@.len(),
            first_object(uploaded@.subrange(0, k as int), id).is_none(),
        decreases uploaded@.len() - k,
    {
        let ghost next = uploaded@.subrange(0, k + 1);
        assert(next.drop_last() =~= uploaded@.subrange(0, k as int));
        if uploaded[k].id.0 == id.0 {
            proof {
                lemma_first_object_extend(uploaded@, k as int + 1, id);
            }
            return Some(uploaded[k]);
        }
        k = k + 1;
    }
    assert(uploaded@.subrange(0, k as int) =~= uploaded@);
    None
}

proof fn lemma_first_object_extend(s: Seq<ShaderObject>, n: int, id: Id)
    requires
        0 < n <= s.len(),
        first_object(s.subrange(0, n), id) is Some,
    ensures
        first_object(s, id) == first_object(s.subrange(0, n), id),
    decreases s.len() - n,
{
    if n < s.len() {
        let next = s.subrange(0, n + 1);
        assert(next.drop_last() =~= s.subrange(0, n));
        lemma_first_object_extend(s, n + 1, id);
    } else {
        assert(s.subrange(0, n) =~= s);
    }
}

/// Describes the pipeline of a configuration: its shader stages resolved
/// against the shader objects on the GPU, and the fixed-function state.
/// Fails for the anti-aliasing modes that are not implemented.
pub fn describe_pipeline(
    shader_manager: &ShaderManager,
    pipeline_configuration: &PipelineConfiguration,
    extent: Extent2D,
    color_attachment_formats: &[i32],
) -> (r: Result<PipelineDescription, PipelineError>)
    ensures
        r.is_err() <==> sample_count_of(pipeline_configuration.anti_alising.anti_aliasing_type) is None,
        r.is_err() ==> r == Err::<PipelineDescription, PipelineError>(PipelineError::UnsupportedAntiAliasing),
        r.is_ok() ==> describes(
            r->Ok_0,
            shader_manager.uploaded(),
            pipeline_configuration.shaders_id@,
            pipeline_configuration.anti_alising.anti_aliasing_type,
            extent,
            color_attachment_formats@,
        ),
{
    let sample_count = match pipeline_configuration.anti_alising.anti_aliasing_type {
        AntiAliasingType::Off => 1,
        AntiAliasingType::MSAA(_) => match pipeline_configuration.anti_alising.anti_aliasing_type.get_sample_count() {
            Some(n) => n,
            None => 1,
        },
        _ => {
            return Err(PipelineError::UnsupportedAntiAliasing);
        },
    };
    let shaders = shader_manager.get_shaders();
    let ids = &pipeline_configuration.shaders_id;
    let mut stages: Vec<ShaderStageBinding> = Vec::new();
    let mut i: usize = 0;
    while i < ids.len()
        invariant
            i <= ids@.len(),
            shaders@ == shader_manager.uploaded(),
            stages@ == resolve_stages(shaders@, ids@.subrange(0, i as int)),
        decreases ids@.len() - i,
    {
        let ghost next = ids@.subrange(0, i + 1);
        assert(next.drop_last() =~= ids@.subrange(0, i as int));
        match find_object(shaders, ids[i]) {
            Some(o) => stages.push(ShaderStageBinding { shader: o.shader, stage: o.stage }),
            None => {},
        }
        i = i + 1;
    }
    assert(ids@.subrange(0, i as int) =~= ids@);
    let mut formats: Vec<i32> = Vec::new();
    let mut k: usize = 0;
    while k < color_attachment_formats.len()
        invariant
            k <= color_attachment_formats@.len(),
            formats@ == color_attachment_formats@.subrange(0, k as int),
        decreases color_attachment_formats@.len() - k,
    {
        formats.push(color_attachment_formats[k]);
        k = k + 1;
        assert(formats@ =~= color_attachment_formats@.subrange(0, k as int));
    }
    assert(color_attachment_formats@.subrange(0, k as int) =~= color_attachment_formats@);
    Ok(PipelineDescription {
        stages,
        topology: PrimitiveTopology::TriangleList,
        primitive_restart_enable: false,
        depth_clamp_enable: false,
        rasterizer_discard_enable: false,
        polygon_mode: PolygonMode::Fill,
        cull_mode: CullMode::Disabled,
        front_face: FrontFace::CounterClockwise,
        depth_bias_enable: false,
        sample_count,
        sample_shading_enable: false,
        alpha_to_coverage_enable: false,
        alpha_to_one_enable: false,
        blend_enable: false,
        color_write_mask: COLOR_WRITE_RGBA,
        extent,
        color_attachment_formats: formats,
        depth_format: DEPTH_FORMAT_D32_SFLOAT,
    })
}

/// What one request to the pipeline cache does, from the cache before it
/// (`before`), for a configuration with key words `words`, to the cache
/// after it (`after`), returning `r`: a configuration whose hash is cached
/// gets the cached object and changes nothing; otherwise a successful
/// request stores its new object under that hash and a failed one changes
/// nothing.
pub open spec fn require_step(
    before: Map<u64, PipelineObject>,
    words: Seq<u64>,
    after: Map<u64, PipelineObject>,
    r: Result<PipelineObject, PipelineError>,
) -> bool {
    let h = seeded_hash(words);
    if before.contains_key(h) {
        r == Ok::<PipelineObject, PipelineError>(before[h]) && after == before
    } else {
        &&& r.is_err() ==> after == before
        &&& r.is_ok() ==> r->Ok_0.hash == h && after == before.insert(h, r->Ok_0)
    }
}

/// Compiled pipelines by configuration hash.
pub struct PipelineManager {
    current_pipeline_object: Option<PipelineObject>,
    pipeline_objects: HashMap<u64, PipelineObject>,
    order: Vec<PipelineObject>,
}

impl PipelineManager {
    /// Each cached object is stored under its own hash, and `order` lists
    /// each cached object once.
    pub closed spec fn wf(&self) -> bool {
        &&& forall|h: u64| #[trigger] self.pipeline_objects@.contains_key(h) ==> self.pipeline_objects@[h].hash == h
        &&& forall|i: int| 0 <= i < self.order@.len() ==> {
            &&& self.pipeline_objects@.contains_key((#[trigger] self.order@[i]).hash)
            &&& self.pipeline_objects@[self.order@[i].hash] == self.order@[i]
        }
        &&& forall|h: u64| #[trigger] self.pipeline_objects@.contains_key(h) ==>
            exists|i: int| 0 <= i < self.order@.len() && self.order@[i].hash == h
        &&& forall|i: int, j: int| 0 <= i < j < self.order@.len() ==>
            (#[trigger] self.order@[i]).hash != (#[trigger] self.order@[j]).hash
    }

    /// The cached pipelines, by configuration hash.
    pub closed spec fn cache(&self) -> Map<u64, PipelineObject> {
        self.pipeline_objects@
    }

    /// The pipeline compiled last, if any.
    pub closed spec fn current(&self) -> Option<PipelineObject> {
        self.current_pipeline_object
    }

    pub fn current_pipeline_object(&self) -> (r: Option<PipelineObject>)
        ensures
            r == self.current(),
    {
        self.current_pipeline_object
    }

    pub fn new() -> (r: Self)
        ensures
            r.wf(),
            r.cache() == Map::<u64, PipelineObject>::empty(),
            r.current().is_none(),
    {
        Self { current_pipeline_object: None, pipeline_objects: HashMap::new(), order: Vec::new() }
    }

    /// The cached pipeline of a configuration, if its hash is cached.
    pub fn find_pipeline(&self, pipeline_configuration: &PipelineConfiguration) -> (r: Option<PipelineObject>)
        ensures
            r == (if self.cache().contains_key(seeded_hash(pipeline_configuration.words())) {
                Some(self.cache()[seeded_hash(pipeline_configuration.words())])
            } else {
                None
            }),
    {
        let words = pipeline_configuration.key_words();
        let h = hash(words.as_slice());
        match self.pipeline_objects.get(&h) {
            Some(o) => Some(*o),
            None => None,
        }
    }

    /// Returns the pipeline of a configuration, compiling it only when its
    /// hash is not cached: `build` is then handed the configuration's
    /// description and returns the new pipeline and layout handles, which
    /// are stored under the hash and returned.
    pub fn require_pipeline<B>(
        &mut self,
        shader_manager: &ShaderManager,
        pipeline_configuration: PipelineConfiguration,
        extent: Extent2D,
        color_attachment_formats: &[i32],
        build: B,
    ) -> (r: Result<PipelineObject, PipelineError>)
        where
            B: FnOnce(PipelineDescription) -> (u64, u64),
        requires
            old(self).wf(),
            forall|d: PipelineDescription| build.requires((d,)),
        ensures
            final(self).wf(),
            require_step(old(self).cache(), pipeline_configuration.words(), final(self).cache(), r),
            !old(self).cache().contains_key(seeded_hash(pipeline_configuration.words())) ==> {
                &&& r.is_err() <==> sample_count_of(pipeline_configuration.anti_alising.anti_aliasing_type) is None
                &&& r.is_ok() ==> exists|d: PipelineDescription, handles: (u64, u64)| {
                    &&& describes(
                        d,
                        shader_manager.uploaded(),
                        pipeline_configuration.shaders_id@,
                        pipeline_configuration.anti_alising.anti_aliasing_type,
                        extent,
                        color_attachment_formats@,
                    )
                    &&& build.ensures((d,), handles)
                    &&& r->Ok_0.pipeline == handles.0
                    &&& r->Ok_0.pipeline_layout == handles.1
                }
                &&& r.is_ok() ==> final(self).current() == Some(r->Ok_0)
            },
    {
        let words = pipeline_configuration.key_words();
        let h = hash(words.as_slice());
        match self.pipeline_objects.get(&h) {
            Some(o) => {
                return Ok(*o);
            },
            None => {},
        }
        let description = match describe_pipeline(
            shader_manager,
            &pipeline_configuration,
            extent,
            color_attachment_formats,
        ) {
            Ok(d) => d,
            Err(e) => {
                return Err(e);
            },
        };
        let ghost d = description;
        let handles = build(description);
        let pipeline_object = PipelineObject { hash: h, pipeline: handles.0, pipeline_layout: handles.1 };
        self.pipeline_objects.insert(h, pipeline_object);
        self.order.push(pipeline_object);
        self.current_pipeline_object = Some(pipeline_object);
        proof {
            assert forall|i: int| 0 <= i < self.order@.len() implies {
                &&& self.pipeline_objects@.contains_key((#[trigger] self.order@[i]).hash)
                &&& self.pipeline_objects@[self.order@[i].hash] == self.order@[i]
            } by {
                if i < self.order@.len() - 1 {
                    assert(old(self).order@[i] == self.order@[i]);
                }
            }
            assert forall|hh: u64| #[trigger] self.pipeline_objects@.contains_key(hh) implies
                exists|i: int| 0 <= i < self.order@.len() && self.order@[i].hash == hh by {
                if hh == h {
                    assert(self.order@[self.order@.len() - 1].hash == hh);
                } else {
                    let i = choose|i: int| 0 <= i < old(self).order@.len() && old(self).order@[i].hash == hh;
                    assert(self.order@[i] == old(self).order@[i]);
                }
            }
            assert forall|i: int, j: int| 0 <= i < j < self.order@.len() implies
                (#[trigger] self.order@[i]).hash != (#[trigger] self.order@[j]).hash by {
                if j == self.order@.len() - 1 {
                    assert(self.order@[i] == old(self).order@[i]);
                    assert(old(self).pipeline_objects@.contains_key(old(self).order@[i].hash));
                } else {
                    assert(self.order@[i] == old(self).order@[i]);
                    assert(self.order@[j] == old(self).order@[j]);
                }
            }
        }
        Ok(pipeline_object)
    }

    /// Empties the cache and returns every cached object once, for the
    /// device to destroy its pipeline and layout.
    pub fn clear_pipeline_objects(&mut self) -> (r: Vec<PipelineObject>)
        requires
            old(self).wf(),
        ensures
            final(self).wf(),
            final(self).cache() == Map::<u64, PipelineObject>::empty(),
            forall|i: int| 0 <= i < r@.len() ==> {
                &&& old(self).cache().contains_key((#[trigger] r@[i]).hash)
                &&& old(self).cache()[r@[i].hash] == r@[i]
            },
            forall|h: u64| #[trigger] old(self).cache().contains_key(h) ==>
                exists|i: int| 0 <= i < r@.len() && r@[i].hash == h,
            forall|i: int, j: int| 0 <= i < j < r@.len() ==> (#[trigger] r@[i]).hash != (#[trigger] r@[j]).hash,
    {
        let mut taken: Vec<PipelineObject> = Vec::new();
        std::mem::swap(&mut taken, &mut self.order);
        self.pipeline_objects = HashMap::new();
        self.current_pipeline_object = None;
        taken
    }
}

/// Requesting the same configuration twice yields the same pipeline object
/// the second time, and the second request changes nothing.
pub proof fn lemma_require_idempotent(
    cache0: Map<u64, PipelineObject>,
    words: Seq<u64>,
    cache1: Map<u64, PipelineObject>,
    r1: Result<PipelineObject, PipelineError>,
    cache2: Map<u64, PipelineObject>,
    r2: Result<PipelineObject, PipelineError>,
)
    requires
        require_step(cache0, words, cache1, r1),
        require_step(cache1, words, cache2, r2),
        r1.is_ok(),
    ensures
        r2 == r1,
        cache2 == cache1,
{
    let h = seeded_hash(words);
    if !cache0.contains_key(h) {
        assert(cache1.contains_key(h));
    }
}

} // verus!
