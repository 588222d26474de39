use vstd::prelude::*;
use vstd::string::StringSliceAdditionalSpecFns;
use std::collections::HashMap;
use crate::id::Id;

verus! {

broadcast use vstd::std_specs::hash::group_hash_axioms;

/// A programmable stage of the graphics or compute pipeline; `Empty` where no
/// stage follows.
#[derive(Clone, Copy, Debug, PartialEq, Eq, Structural)]
pub enum ShaderStage {
    Empty,
    Vertex,
    TessellationControl,
    TessellationEvaluation,
    Geometry,
    Fragment,
    Compute,
}

/// The kinds of shader source the engine compiles.
#[derive(Clone, Copy, Debug, PartialEq, Eq, Structural)]
pub enum ShaderKind {
    Vertex,
    Fragment,
    Compute,
}

#[derive(Clone, Copy, Debug, PartialEq, Eq, Structural)]
pub enum ShaderError {
    /// A shader file name has no stage token after its first dot.
    MissingShaderType,
    /// The stage token of a shader file name is not `vert`, `frag` or `comp`.
    UnsupportedShaderType,
    /// A requested shader was never compiled.
    NotCompiled(Id),
    /// The device returned another number of shader objects than was asked.
    UploadMismatch,
}

pub open spec fn stage_of_kind(kind: ShaderKind) -> ShaderStage {
    match kind {
        ShaderKind::Vertex => ShaderStage::Vertex,
        ShaderKind::Fragment => ShaderStage::Fragment,
        ShaderKind::Compute => ShaderStage::Compute,
    }
}

/// The stage that conventionally follows a stage in a linked shader chain.
pub open spec fn next_stage_of(stage: ShaderStage) -> ShaderStage {
    match stage {
        ShaderStage::Vertex => ShaderStage::Fragment,
        ShaderStage::TessellationControl => ShaderStage::TessellationEvaluation,
        ShaderStage::TessellationEvaluation => ShaderStage::Geometry,
        ShaderStage::Geometry => ShaderStage::Fragment,
        _ => ShaderStage::Empty,
    }
}

/// The byte of `.`, which separates the parts of a shader file name.
pub const DOT: u8 = 0x2e;

/// No byte of `s` in `[a, b)` is a dot.
pub open spec fn no_dot(s: Seq<u8>, a: int, b: int) -> bool {
    forall|k: int| a <= k < b ==> s[k] != DOT
}

/// `i` is the position of the first dot of `s`.
pub open spec fn is_first_dot(s: Seq<u8>, i: int) -> bool {
    0 <= i < s.len() && s[i] == DOT && no_dot(s, 0, i)
}

/// `j` ends the token that starts after the dot at `i`: the next dot, or the
/// end of `s`.
pub open spec fn is_token_end(s: Seq<u8>, i: int, j: int) -> bool {
    &&& i < j <= s.len()
    &&& no_dot(s, i + 1, j)
    &&& (j == s.len() || s[j] == DOT)
}

/// The kind of shader a stage token names.
pub open spec fn kind_of_token(t: Seq<u8>) -> Option<ShaderKind> {
    if t == seq![0x76u8, 0x65u8, 0x72u8, 0x74u8] {
        Some(ShaderKind::Vertex)
    } else if t == seq![0x66u8, 0x72u8, 0x61u8, 0x67u8] {
        Some(ShaderKind::Fragment)
    } else if t == seq![0x63u8, 0x6fu8, 0x6du8, 0x70u8] {
        Some(ShaderKind::Compute)
    } else {
        None
    }
}

/// The extension of shader source files, `.glsl`.
pub open spec fn shader_extension() -> Seq<u8> {
    seq![0x2eu8, 0x67u8, 0x6cu8, 0x73u8, 0x6cu8]
}

/// The bytes `b` end in `.glsl`.
pub open spec fn ends_with_shader_extension(b: Seq<u8>) -> bool {
    b.len() >= 5 && b.subrange(b.len() - 5, b.len() as int) == shader_extension()
}

/// Whether a path names a shader source file: it ends in `.glsl`.
pub fn is_shader_source(path: &str) -> (r: bool)
    ensures
        r == ends_with_shader_extension(path.spec_bytes()),
{
    let b = path.as_bytes();
    let n = b.len();
    if n < 5 {
        return false;
    }
    let r = b[n - 5] == 0x2eu8 && b[n - 4] == 0x67u8 && b[n - 3] == 0x6cu8 && b[n - 2] == 0x73u8
        && b[n - 1] == 0x6cu8;
    proof {
        let tail = b@.subrange(n - 5, n as int);
        if r {
            assert(tail =~= shader_extension());
        } else {
            assert(tail != shader_extension()) by {
                if tail == shader_extension() {
                    assert(tail[0] == b@[n - 5]);
                    assert(tail[4] == b@[n - 1]);
                }
            }
        }
    }
    r
}

/// The length of a shader's name: the bytes of its file name before the
/// first dot, or all of them.
pub fn shader_name_len(file_name: &str) -> (r: usize)
    ensures
        r <= file_name.spec_bytes().len(),
        no_dot(file_name.spec_bytes(), 0, r as int),
        r == file_name.spec_bytes().len() || file_name.spec_bytes()[r as int] == DOT,
{
    let b = file_name.as_bytes();
    let mut i: usize = 0;
    while i < b.len() && b[i] != DOT
        invariant
            i <= b@.len(),
            no_dot(b@, 0, i as int),
        decreases b@.len() - i,
    {
        i = i + 1;
    }
    i
}

/// What to do with one file of a shader folder: nothing (`None`) unless its
/// path ends in `.glsl`; otherwise compile it under the name made of the
/// first `name_len` bytes of its file name, as the kind its stage token
/// names, or fail as `shader_kind_of_file_name` does.
pub fn plan_shader_file(path: &str, file_name: &str) -> (r: Option<Result<(usize, ShaderKind), ShaderError>>)
    ensures
        r.is_none() <==> !ends_with_shader_extension(path.spec_bytes()),
        r.is_some() ==> match r->Some_0 {
            Ok((name_len, kind)) => {
                &&& shader_kind_of_file_name_spec(file_name.spec_bytes(), Ok(kind))
                &&& name_len <= file_name.spec_bytes().len()
                &&& no_dot(file_name.spec_bytes(), 0, name_len as int)
                &&& name_len < file_name.spec_bytes().len() && file_name.spec_bytes()[name_len as int] == DOT
            },
            Err(e) => shader_kind_of_file_name_spec(file_name.spec_bytes(), Err(e)),
        },
{
    if !is_shader_source(path) {
        return None;
    }
    match shader_kind_of_file_name(file_name) {
        Ok(kind) => {
            let name_len = shader_name_len(file_name);
            Some(Ok((name_len, kind)))
        },
        Err(e) => Some(Err(e)),
    }
}

/// `r` is what `shader_kind_of_file_name` returns for the bytes `b`.
pub open spec fn shader_kind_of_file_name_spec(b: Seq<u8>, r: Result<ShaderKind, ShaderError>) -> bool {
    &&& no_dot(b, 0, b.len() as int) <==> r == Err::<ShaderKind, ShaderError>(ShaderError::MissingShaderType)
    &&& forall|i: int, j: int|
        is_first_dot(b, i) && is_token_end(b, i, j) ==> r == match kind_of_token(b.subrange(i + 1, j)) {
            Some(k) => Ok::<ShaderKind, ShaderError>(k),
            None => Err(ShaderError::UnsupportedShaderType),
        }
}

/// The kind of a shader file named `name.<stage>[.<ext>]`: the token after
/// the first dot, up to the next dot, is `vert`, `frag` or `comp`.
pub fn shader_kind_of_file_name(file_name: &str) -> (r: Result<ShaderKind, ShaderError>)
    ensures
        shader_kind_of_file_name_spec(file_name.spec_bytes(), r),
{
    let b = file_name.as_bytes();
    let n = b.len();
    let mut i: usize = 0;
    while i < n && b[i] != DOT
        invariant
            i <= n,
            n == b@.len(),
            no_dot(b@, 0, i as int),
        decreases n - i,
    {
        i = i + 1;
    }
    if i == n {
        return Err(ShaderError::MissingShaderType);
    }
    let mut j: usize = i + 1;
    while j < n && b[j] != DOT
        invariant
            i < j <= n,
            n == b@.len(),
            no_dot(b@, i + 1, j as int),
        decreases n - j,
    {
        j = j + 1;
    }
    let ghost token = b@.subrange(i + 1, j as int);
    let len = j - (i + 1);
    let r = if len == 4 && b[i + 1] == 0x76u8 && b[i + 2] == 0x65u8 && b[i + 3] == 0x72u8
        && b[i + 4] == 0x74u8 {
        assert(token =~= seq![0x76u8, 0x65u8, 0x72u8, 0x74u8]);
        Ok(ShaderKind::Vertex)
    } else if len == 4 && b[i + 1] == 0x66u8 && b[i + 2] == 0x72u8 && b[i + 3] == 0x61u8
        && b[i + 4] == 0x67u8 {
        assert(token =~= seq![0x66u8, 0x72u8, 0x61u8, 0x67u8]);
        Ok(ShaderKind::Fragment)
    } else if len == 4 && b[i + 1] == 0x63u8 && b[i + 2] == 0x6fu8 && b[i + 3] == 0x6du8
        && b[i + 4] == 0x70u8 {
        assert(token =~= seq![0x63u8, 0x6fu8, 0x6du8, 0x70u8]);
        Ok(ShaderKind::Compute)
    } else {
        assert(kind_of_token(token).is_none()) by {
            if token.len() == 4 {
                assert(token[0] == b@[i + 1]);
                assert(token[1] == b@[i + 2]);
                assert(token[2] == b@[i + 3]);
                assert(token[3] == b@[i + 4]);
            }
        }
        Err(ShaderError::UnsupportedShaderType)
    };
    proof {
        assert(!no_dot(b@, 0, n as int));
        assert forall|i2: int, j2: int|
            is_first_dot(b@, i2) && is_token_end(b@, i2, j2) implies i2 == i && j2 == j by {
            if i2 < i {
                assert(b@[i2] != DOT);
            }
            if i2 > i {
                assert(b@[i as int] != DOT);
            }
            if j2 < j {
                assert(b@[j2] != DOT);
            }
            if j2 > j {
                assert(b@[j as int] != DOT);
            }
        }
    }
    r
}

/// A compiled shader binary with its stage and the stage that follows it.
pub struct RawShader {
    pub stage: ShaderStage,
    pub next_stage: ShaderStage,
    pub raw: Vec<u8>,
}

impl RawShader {
    pub fn new(shader_stage: ShaderStage, next_shader_stage: ShaderStage, raw: Vec<u8>) -> (r: Self)
        ensures
            r.stage == shader_stage,
            r.next_stage == next_shader_stage,
            r.raw@ == raw@,
    {
        Self { stage: shader_stage, next_stage: next_shader_stage, raw }
    }
}

/// A compiled shader made resident on the GPU.
#[derive(Clone, Copy, Debug, PartialEq, Eq, Structural)]
pub struct ShaderObject {
    pub id: Id,
    pub stage: ShaderStage,
    pub shader: u64,
}

/// What the device needs to create one shader object.
pub struct ShaderUploadInfo {
    pub id: Id,
    pub stage: ShaderStage,
    pub next_stage: ShaderStage,
    pub code: Vec<u8>,
}

/// Compiled shaders by identity, and the shader objects made from them.
pub struct ShaderManager {
    compiled_shaders: HashMap<usize, RawShader>,
    uploaded_shaders: Vec<ShaderObject>,
}

/// Some shader object of `uploaded` was made from shader `id`.
pub open spec fn is_materialized(uploaded: Seq<ShaderObject>, id: Id) -> bool {
    exists|k: int| 0 <= k < uploaded.len() && (#[trigger] uploaded[k]).id == id
}

/// The requested identities that are not materialized yet, in request order.
pub open spec fn pending_ids(uploaded: Seq<ShaderObject>, ids: Seq<Id>) -> Seq<Id>
    decreases ids.len(),
{
    if ids.len() == 0 {
        Seq::empty()
    } else {
        let rest = pending_ids(uploaded, ids.drop_last());
        if is_materialized(uploaded, ids.last()) {
            rest
        } else {
            rest.push(ids.last())
        }
    }
}

/// Requested identity `k` is neither materialized nor compiled.
pub open spec fn is_missing(
    compiled: Map<usize, RawShader>,
    uploaded: Seq<ShaderObject>,
    ids: Seq<Id>,
    k: int,
) -> bool {
    0 <= k < ids.len() && !is_materialized(uploaded, ids[k]) && !compiled.contains_key(ids[k].0)
}

impl ShaderManager {
    pub fn map_shader_stage(shader_type: ShaderKind) -> (r: ShaderStage)
        ensures
            r == stage_of_kind(shader_type),
    {
        match shader_type {
            ShaderKind::Vertex => ShaderStage::Vertex,
            ShaderKind::Fragment => ShaderStage::Fragment,
            ShaderKind::Compute => ShaderStage::Compute,
        }
    }

    pub fn map_next_stage(shader_stage: ShaderStage) -> (r: ShaderStage)
        ensures
            r == next_stage_of(shader_stage),
    {
        match shader_stage {
            ShaderStage::Vertex => ShaderStage::Fragment,
            ShaderStage::TessellationControl => ShaderStage::TessellationEvaluation,
            ShaderStage::TessellationEvaluation => ShaderStage::Geometry,
            ShaderStage::Geometry => ShaderStage::Fragment,
            _ => ShaderStage::Empty,
        }
    }

    /// The compiled shaders, by identity value.
    pub closed spec fn compiled(&self) -> Map<usize, RawShader> {
        self.compiled_shaders@
    }

    /// The shader objects on the GPU, in upload order.
    pub closed spec fn uploaded(&self) -> Seq<ShaderObject> {
        self.uploaded_shaders@
    }

    pub fn new() -> (r: Self)
        ensures
            r.compiled() == Map::<usize, RawShader>::empty(),
            r.uploaded().len() == 0,
    {
        Self { compiled_shaders: HashMap::new(), uploaded_shaders: Vec::new() }
    }

    /// Keeps a compiled binary under a fresh identity, with the stage of its
    /// kind and the stage that follows it.
    pub fn store_compiled_shader(&mut self, shader_type: ShaderKind, spirv: Vec<u8>) -> (r: Id)
        ensures
            final(self).compiled().dom() == old(self).compiled().dom().insert(r.0),
            forall|k: usize| k != r.0 && old(self).compiled().contains_key(k)
                ==> final(self).compiled()[k] == old(self).compiled()[k],
            final(self).compiled()[r.0].stage == stage_of_kind(shader_type),
            final(self).compiled()[r.0].next_stage == next_stage_of(stage_of_kind(shader_type)),
            final(self).compiled()[r.0].raw@ == spirv@,
            final(self).uploaded() == old(self).uploaded(),
    {
        let current_stage = Self::map_shader_stage(shader_type);
        let next_stage = Self::map_next_stage(current_stage);
        let compiled_shader = RawShader::new(current_stage, next_stage, spirv);
        let id = Id::new();
        self.compiled_shaders.insert(id.0, compiled_shader);
        id
    }

    fn find_uploaded(&self, id: Id) -> (r: bool)
        ensures
            r == is_materialized(self.uploaded(), id),
    {
        let mut k: usize = 0;
        while k < self.uploaded_shaders.len()
            invariant
                k <= self.uploaded_shaders@.len(),
                forall|m: int| 0 <= m < k ==> self.uploaded_shaders@[m].id != id,
            decreases self.uploaded_shaders@.len() - k,
        {
            if self.uploaded_shaders[k].id.0 == id.0 {
                return true;
            }
            k = k + 1;
        }
        false
    }

    /// What must be created on the GPU to materialize the given shaders:
    /// one entry per requested shader that is not materialized yet, in
    /// request order, carrying its compiled binary. Fails on the first
    /// requested shader that is neither materialized nor compiled.
    pub fn pending_uploads(&self, ids: &[Id]) -> (r: Result<Vec<ShaderUploadInfo>, ShaderError>)
        ensures
            r.is_err() <==> exists|k: int| is_missing(self.compiled(), self.uploaded(), ids@, k),
            r.is_err() ==> exists|k: int| {
                &&& is_missing(self.compiled(), self.uploaded(), ids@, k)
                &&& forall|m: int| 0 <= m < k ==> !is_missing(self.compiled(), self.uploaded(), ids@, m)
                &&& r == Err::<Vec<ShaderUploadInfo>, ShaderError>(ShaderError::NotCompiled(ids@[k]))
            },
            r.is_ok() ==> ({
                let infos = r->Ok_0@;
                let pending = pending_ids(self.uploaded(), ids@);
                &&& infos.len() == pending.len()
                &&& forall|q: int| 0 <= q < infos.len() ==> {
                    let raw = self.compiled()[pending[q].0];
                    &&& (#[trigger] infos[q]).id == pending[q]
                    &&& infos[q].stage == raw.stage
                    &&& infos[q].next_stage == raw.next_stage
                    &&& infos[q].code@ == raw.raw@
                }
            }),
    {
        let mut infos: Vec<ShaderUploadInfo> = Vec::new();
        let mut i: usize = 0;
        while i < ids.len()
            invariant
                i <= ids@.len(),
                forall|m: int| 0 <= m < i ==> !is_missing(self.compiled(), self.uploaded(), ids@, m),
                ({
                    let pending = pending_ids(self.uploaded(), ids@.subrange(0, i as int));
                    &&& infos@.len() == pending.len()
                    &&& forall|q: int| 0 <= q < infos@.len() ==> {
                        let raw = self.compiled()[pending[q].0];
                        &&& (#[trigger] infos@[q]).id == pending[q]
                        &&& self.compiled().contains_key(pending[q].0)
                        &&& infos@[q].stage == raw.stage
                        &&& infos@[q].next_stage == raw.next_stage
                        &&& infos@[q].code@ == raw.raw@
                    }
                }),
            decreases ids@.len() - i,
        {
            let id = ids[i];
            let ghost prefix = ids@.subrange(0, i as int);
            let ghost next = ids@.subrange(0, i + 1);
            assert(next.drop_last() =~= prefix);
            assert(next.last() == id);
            if !self.find_uploaded(id) {
                match self.compiled_shaders.get(&id.0) {
                    None => {
                        assert(is_missing(self.compiled(), self.uploaded(), ids@, i as int));
                        return Err(ShaderError::NotCompiled(id));
                    },
                    Some(raw) => {
                        infos.push(ShaderUploadInfo {
                            id,
                            stage: raw.stage,
                            next_stage: raw.next_stage,
                            code: raw.raw.clone(),
                        });
                    },
                }
            }
            i = i + 1;
        }
        assert(ids@.subrange(0, ids@.len() as int) =~= ids@);
        Ok(infos)
    }

    /// Records the shader objects the device created for `infos`, one
    /// handle per entry and in the same order.
    pub fn record_uploads(&mut self, infos: &Vec<ShaderUploadInfo>, handles: &Vec<u64>) -> (r: Result<(), ShaderError>)
        ensures
            r.is_ok() <==> infos@.len() == handles@.len(),
            r.is_err() ==> r == Err::<(), ShaderError>(ShaderError::UploadMismatch),
            r.is_err() ==> final(self).uploaded() == old(self).uploaded(),
            r.is_ok() ==> final(self).uploaded() == old(self).uploaded() + Seq::new(
                infos@.len(),
                |q: int| ShaderObject { id: infos@[q].id, stage: infos@[q].stage, shader: handles@[q] },
            ),
            final(self).compiled() == old(self).compiled(),
    {
        if infos.len() != handles.len() {
            return Err(ShaderError::UploadMismatch);
        }
        let mut q: usize = 0;
        while q < infos.len()
            invariant
                q <= infos@.len(),
                infos@.len() == handles@.len(),
                self.compiled() == old(self).compiled(),
                self.uploaded() == old(self).uploaded() + Seq::new(
                    q as nat,
                    |p: int| ShaderObject { id: infos@[p].id, stage: infos@[p].stage, shader: handles@[p] },
                ),
            decreases infos@.len() - q,
        {
            self.uploaded_shaders.push(ShaderObject { id: infos[q].id, stage: infos[q].stage, shader: handles[q] });
            q = q + 1;
            assert(self.uploaded() =~= old(self).uploaded() + Seq::new(
                q as nat,
                |p: int| ShaderObject { id: infos@[p].id, stage: infos@[p].stage, shader: handles@[p] },
            ));
        }
        Ok(())
    }

    /// Forgets every shader object and returns their handles, for the device
    /// to destroy. Calling it again returns nothing.
    pub fn clear_shader_modules(&mut self) -> (r: Vec<u64>)
        ensures
            r@ == old(self).uploaded().map_values(|o: ShaderObject| o.shader),
            final(self).uploaded().len() == 0,
            final(self).compiled() == old(self).compiled(),
    {
        let mut handles: Vec<u64> = Vec::new();
        let mut k: usize = 0;
        while k < self.uploaded_shaders.len()
            invariant
                k <= self.uploaded_shaders@.len(),
                handles@ == self.uploaded_shaders@.subrange(0, k as int).map_values(|o: ShaderObject| o.shader),
            decreases self.uploaded_shaders@.len() - k,
        {
            handles.push(self.uploaded_shaders[k].shader);
            k = k + 1;
            assert(handles@ =~= self.uploaded_shaders@.subrange(0, k as int).map_values(|o: ShaderObject| o.shader));
        }
        assert(self.uploaded_shaders@.subrange(0, k as int) =~= self.uploaded_shaders@);
        self.uploaded_shaders = Vec::new();
        handles
    }

    /// The shader objects on the GPU.
    pub fn get_shaders(&self) -> (r: &[ShaderObject])
        ensures
            r@ == self.uploaded(),
    {
        self.uploaded_shaders.as_slice()
    }
}

} // verus!
