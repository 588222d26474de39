use vstd::prelude::*;
use crate::id::Id;
use crate::shader::ShaderObject;

verus! {

/// The anti-aliasing technique a pipeline asks for.
#[derive(Clone, Copy, Debug, PartialEq, Eq, Hash, Structural)]
pub enum AntiAliasingType {
    Off,
    MSAA(u32),
    FXAA,
    TAA,
}

/// The rasterization sample count of a multisampling request: the requested
/// count where the device offers it (2, 4, 8 or 16), else a single sample.
pub open spec fn msaa_samples(requested: u32) -> u32 {
    if requested == 2 || requested == 4 || requested == 8 || requested == 16 {
        requested
    } else {
        1
    }
}

impl AntiAliasingType {
    pub fn new() -> (r: Self)
        ensures
            r == AntiAliasingType::Off,
    {
        AntiAliasingType::Off
    }

    /// The sample count of a multisampling mode; `None` for other modes.
    pub fn get_sample_count(&self) -> (r: Option<u32>)
        ensures
            r == match *self {
                AntiAliasingType::MSAA(n) => Some(msaa_samples(n)),
                _ => None,
            },
    {
        match self {
            AntiAliasingType::MSAA(sample_count) => {
                let n = *sample_count;
                if n == 2 || n == 4 || n == 8 || n == 16 {
                    Some(n)
                } else {
                    Some(1)
                }
            },
            _ => None,
        }
    }

    pub fn choose_msaa(&mut self, sample_count: u32)
        ensures
            *final(self) == AntiAliasingType::MSAA(sample_count),
    {
        *self = AntiAliasingType::MSAA(sample_count);
    }

    pub fn choose_fxaa(&mut self)
        ensures
            *final(self) == AntiAliasingType::FXAA,
    {
        *self = AntiAliasingType::FXAA;
    }

    pub fn choose_taa(&mut self)
        ensures
            *final(self) == AntiAliasingType::TAA,
    {
        *self = AntiAliasingType::TAA;
    }
}

#[derive(Clone, Copy, Debug, PartialEq, Eq, Hash, Structural)]
pub struct AntiAliasing {
    pub anti_aliasing_type: AntiAliasingType,
}

impl AntiAliasing {
    pub fn new(anti_alising_type: AntiAliasingType) -> (r: Self)
        ensures
            r.anti_aliasing_type == anti_alising_type,
    {
        Self { anti_aliasing_type: anti_alising_type }
    }
}

/// The declarative description of a pipeline: its shaders, in order, and
/// its anti-aliasing mode.
pub struct PipelineConfiguration {
    pub shaders_id: Vec<Id>,
    pub anti_alising: AntiAliasing,
}

/// The two words that close a configuration's key: the anti-aliasing mode
/// and its parameter.
pub open spec fn anti_aliasing_words(a: AntiAliasingType) -> Seq<u64> {
    match a {
        AntiAliasingType::Off => seq![0u64, 0u64],
        AntiAliasingType::MSAA(n) => seq![1u64, n as u64],
        AntiAliasingType::FXAA => seq![2u64, 0u64],
        AntiAliasingType::TAA => seq![3u64, 0u64],
    }
}

/// The words that identify a configuration: one per shader identity, then
/// the anti-aliasing words.
pub open spec fn configuration_words(shaders: Seq<Id>, a: AntiAliasingType) -> Seq<u64> {
    shaders.map_values(|id: Id| id.0 as u64) + anti_aliasing_words(a)
}

impl PipelineConfiguration {
    pub fn new() -> (r: Self)
        ensures
            r.shaders_id@.len() == 0,
            r.anti_alising.anti_aliasing_type == AntiAliasingType::Off,
    {
        Self { shaders_id: Vec::new(), anti_alising: AntiAliasing::new(AntiAliasingType::new()) }
    }

    /// Appends the identities of the given shaders, in order.
    pub fn add_shaders(&mut self, required_shaders: &[ShaderObject])
        ensures
            final(self).shaders_id@ == old(self).shaders_id@ + required_shaders@.map_values(|s: ShaderObject| s.id),
            final(self).anti_alising == old(self).anti_alising,
    {
        let mut k: usize = 0;
        while k < required_shaders.len()
            invariant
                k <= required_shaders@.len(),
                self.anti_alising == old(self).anti_alising,
                self.shaders_id@ == old(self).shaders_id@ + required_shaders@.subrange(0, k as int).map_values(|s: ShaderObject| s.id),
            decreases required_shaders@.len() - k,
        {
            self.shaders_id.push(required_shaders[k].id);
            k = k + 1;
            assert(self.shaders_id@ =~= old(self).shaders_id@ + required_shaders@.subrange(0, k as int).map_values(|s: ShaderObject| s.id));
        }
        assert(required_shaders@.subrange(0, k as int) =~= required_shaders@);
    }

    /// The configuration's key words.
    pub open spec fn words(&self) -> Seq<u64> {
        configuration_words(self.shaders_id@, self.anti_alising.anti_aliasing_type)
    }

    pub fn key_words(&self) -> (r: Vec<u64>)
        ensures
            r@ == self.words(),
    {
        let mut out: Vec<u64> = Vec::new();
        let mut k: usize = 0;
        while k < self.shaders_id.len()
            invariant
                k <= self.shaders_id@.len(),
                out@ == self.shaders_id@.subrange(0, k as int).map_values(|id: Id| id.0 as u64),
            decreases self.shaders_id@.len() - k,
        {
            out.push(self.shaders_id[k].0 as u64);
            k = k + 1;
            assert(out@ =~= self.shaders_id@.subrange(0, k as int).map_values(|id: Id| id.0 as u64));
        }
        assert(self.shaders_id@.subrange(0, k as int) =~= self.shaders_id@);
        match self.anti_alising.anti_aliasing_type {
            AntiAliasingType::Off => {
                out.push(0);
                out.push(0);
            },
            AntiAliasingType::MSAA(n) => {
                out.push(1);
                out.push(n as u64);
            },
            AntiAliasingType::FXAA => {
                out.push(2);
                out.push(0);
            },
            AntiAliasingType::TAA => {
                out.push(3);
                out.push(0);
            },
        }
        assert(out@ =~= self.words());
        out
    }
}

/// Distinct configurations have distinct key words, so the hash of a
/// configuration sees every shader identity, their order, and the
/// anti-aliasing mode.
pub proof fn lemma_configuration_words_injective(
    s1: Seq<Id>,
    a1: AntiAliasingType,
    s2: Seq<Id>,
    a2: AntiAliasingType,
)
    requires
        configuration_words(s1, a1) == configuration_words(s2, a2),
    ensures
        s1 == s2,
        a1 == a2,
{
    let w1 = configuration_words(s1, a1);
    let w2 = configuration_words(s2, a2);
    assert(w1.len() == s1.len() + 2);
    assert(w2.len() == s2.len() + 2);
    assert(s1.len() == s2.len());
    assert forall|k: int| 0 <= k < s1.len() implies s1[k] == s2[k] by {
        assert(w1[k] == s1[k].0 as u64);
        assert(w2[k] == s2[k].0 as u64);
    }
    assert(s1 =~= s2);
    let n = s1.len() as int;
    assert(w1[n] == anti_aliasing_words(a1)[0]);
    assert(w1[n + 1] == anti_aliasing_words(a1)[1]);
    assert(w2[n] == anti_aliasing_words(a2)[0]);
    assert(w2[n + 1] == anti_aliasing_words(a2)[1]);
}

} // verus!
