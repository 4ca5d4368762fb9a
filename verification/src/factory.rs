//! The resource-creation contract of a device backend, and the composed
//! factory operations built on it: program linking, validated pipeline-state
//! construction, and shortcut constructors with fixed policy.

use vstd::prelude::*;

use crate::mesh::Mesh;
use crate::pso::{
    CreationError, Descriptor, DescriptorView, InitElement, InitError, PipelineInit,
    PipelineState, Primitive, Rasterizer, RawPipeline, SlotBinding, link_elems, link_to,
};
use crate::shade::{
    CreateProgramError, CreateShaderError, Program, ProgramError, ProgramView, Shader,
    ShaderModel, ShaderSet, ShaderSource, Stage,
};
use crate::tex::{
    AaMode, FilterMethod, Kind, Sampler, SamplerInfo, SurfaceFormat, Texture, TextureError,
    TextureInfo, WrapMode,
};

verus! {

/// Role a buffer plays in draw calls.
#[derive(Clone, Copy, PartialEq, Eq, Structural, Debug)]
pub enum BufferRole {
    Vertex,
    Index,
}

/// Backend handle to a created buffer, with the role it was created for.
#[derive(Clone, Copy, PartialEq, Eq, Structural, Debug)]
pub struct Buffer {
    pub id: u64,
    pub role: BufferRole,
}

/// Device capabilities this layer consults.
#[derive(Clone, Copy, PartialEq, Eq, Structural, Debug)]
pub struct Capabilities {
    pub shader_model: ShaderModel,
}

/// One backend call, as a factory's call log records it.
#[derive(Clone, Copy, PartialEq, Eq, Structural, Debug)]
pub enum CallRecord {
    CompileVertex,
    CompilePixel,
    LinkProgram,
    CreatePipeline,
    CreateTexture(TextureInfo),
    CreateTextureStatic(TextureInfo),
    GenerateMipmap(u64),
    CreateBuffer(BufferRole),
    CreateSampler(SamplerInfo),
}

/// The abstract behaviour of a device backend: its shading capability and,
/// for each kind of creation call, the outcome the call would have. Backend
/// calls never change a factory's behaviour — only its call log — so the
/// operations composed on top of [`Factory`] can state exactly what they
/// return across several calls.
#[verifier::ext_equal]
pub struct FactoryBehavior {
    pub shader_model: ShaderModel,
    pub vertex: spec_fn(Seq<u8>) -> Result<Shader, CreateShaderError>,
    pub pixel: spec_fn(Seq<u8>) -> Result<Shader, CreateShaderError>,
    pub program: spec_fn(ShaderSet) -> Result<ProgramView, CreateProgramError>,
    pub pipeline: spec_fn(ProgramView, DescriptorView) -> Result<RawPipeline, CreationError>,
    pub texture: spec_fn(TextureInfo) -> Result<Texture, TextureError>,
    pub texture_static: spec_fn(TextureInfo, Seq<u32>) -> Result<Texture, TextureError>,
    pub sampler: spec_fn(SamplerInfo) -> Sampler,
    pub buffer: spec_fn(Seq<u32>, BufferRole) -> Buffer,
}

impl FactoryBehavior {
    /// Outcome of compiling `code` as a vertex shader.
    pub open spec fn vertex_outcome(self, code: Seq<u8>) -> Result<Shader, CreateShaderError> {
        (self.vertex)(code)
    }

    /// Outcome of compiling `code` as a pixel shader.
    pub open spec fn pixel_outcome(self, code: Seq<u8>) -> Result<Shader, CreateShaderError> {
        (self.pixel)(code)
    }

    /// Outcome of linking `set` into a program.
    pub open spec fn program_outcome(self, set: ShaderSet) -> Result<
        ProgramView,
        CreateProgramError,
    > {
        (self.program)(set)
    }

    /// Outcome of realizing `desc` against `program` as a pipeline object.
    pub open spec fn pipeline_outcome(self, program: ProgramView, desc: DescriptorView) -> Result<
        RawPipeline,
        CreationError,
    > {
        (self.pipeline)(program, desc)
    }

    /// Outcome of creating a texture described by `info`.
    pub open spec fn texture_outcome(self, info: TextureInfo) -> Result<Texture, TextureError> {
        (self.texture)(info)
    }

    /// Outcome of creating a texture described by `info` with contents `data`.
    pub open spec fn texture_static_outcome(self, info: TextureInfo, data: Seq<u32>) -> Result<
        Texture,
        TextureError,
    > {
        (self.texture_static)(info, data)
    }

    /// The sampler created for `info`.
    pub open spec fn sampler_outcome(self, info: SamplerInfo) -> Sampler {
        (self.sampler)(info)
    }

    /// The buffer created for `data` in role `role`.
    pub open spec fn buffer_outcome(self, data: Seq<u32>, role: BufferRole) -> Buffer {
        (self.buffer)(data, role)
    }
}

/// The resource-creation contract of a graphics device backend.
///
/// The two spec functions are the abstract model every implementor exposes:
/// the backend's [`FactoryBehavior`] and the log of backend calls made so
/// far. Each method performs one backend call, appends exactly one record to
/// the log, and leaves the behaviour unchanged.
pub trait Factory: Sized {
    /// The backend's capability and call outcomes.
    spec fn behavior(&self) -> FactoryBehavior;

    /// Backend calls made so far, oldest first.
    spec fn log(&self) -> Seq<CallRecord>;

    fn get_capabilities(&self) -> (r: Capabilities)
        ensures
            r.shader_model == self.behavior().shader_model,
    ;

    fn create_shader_vertex(&mut self, code: &Vec<u8>) -> (r: Result<Shader, CreateShaderError>)
        ensures
            r == old(self).behavior().vertex_outcome(code@),
            r matches Ok(s) ==> s.stage == Stage::Vertex,
            final(self).log() == old(self).log().push(CallRecord::CompileVertex),
            final(self).behavior() == old(self).behavior(),
    ;

    fn create_shader_pixel(&mut self, code: &Vec<u8>) -> (r: Result<Shader, CreateShaderError>)
        ensures
            r == old(self).behavior().pixel_outcome(code@),
            r matches Ok(s) ==> s.stage == Stage::Pixel,
            final(self).log() == old(self).log().push(CallRecord::CompilePixel),
            final(self).behavior() == old(self).behavior(),
    ;

    fn create_program(&mut self, set: &ShaderSet) -> (r: Result<Program, CreateProgramError>)
        ensures
            match old(self).behavior().program_outcome(*set) {
                Ok(pv) => r matches Ok(p) && p@ == pv,
                Err(e) => r == Err::<Program, CreateProgramError>(e),
            },
            final(self).log() == old(self).log().push(CallRecord::LinkProgram),
            final(self).behavior() == old(self).behavior(),
    ;

    fn create_pipeline_state_raw(&mut self, program: &Program, desc: &Descriptor) -> (r: Result<
        RawPipeline,
        CreationError,
    >)
        ensures
            r == old(self).behavior().pipeline_outcome(program@, desc@),
            final(self).log() == old(self).log().push(CallRecord::CreatePipeline),
            final(self).behavior() == old(self).behavior(),
    ;

    fn create_texture(&mut self, info: TextureInfo) -> (r: Result<Texture, TextureError>)
        ensures
            r == old(self).behavior().texture_outcome(info),
            r matches Ok(t) ==> t.info == info,
            final(self).log() == old(self).log().push(CallRecord::CreateTexture(info)),
            final(self).behavior() == old(self).behavior(),
    ;

    fn create_texture_static(&mut self, info: TextureInfo, data: &Vec<u32>) -> (r: Result<
        Texture,
        TextureError,
    >)
        ensures
            r == old(self).behavior().texture_static_outcome(info, data@),
            r matches Ok(t) ==> t.info == info,
            final(self).log() == old(self).log().push(CallRecord::CreateTextureStatic(info)),
            final(self).behavior() == old(self).behavior(),
    ;

    fn generate_mipmap(&mut self, texture: &Texture)
        ensures
            final(self).log() == old(self).log().push(CallRecord::GenerateMipmap(texture.id)),
            final(self).behavior() == old(self).behavior(),
    ;

    fn create_sampler(&mut self, info: SamplerInfo) -> (r: Sampler)
        ensures
            r == old(self).behavior().sampler_outcome(info),
            r.info == info,
            final(self).log() == old(self).log().push(CallRecord::CreateSampler(info)),
            final(self).behavior() == old(self).behavior(),
    ;

    fn create_buffer_static(&mut self, data: &Vec<u32>, role: BufferRole) -> (r: Buffer)
        ensures
            r == old(self).behavior().buffer_outcome(data@, role),
            r.role == role,
            final(self).log() == old(self).log().push(CallRecord::CreateBuffer(role)),
            final(self).behavior() == old(self).behavior(),
    ;
}

/// Error creating a pipeline state, tagged with the pipeline stage that
/// failed. Exactly one variant is produced per failed call, matching the
/// first stage that failed; only `DescriptorInit` carries a recoverable
/// resource — the already-linked program — for the caller to dispose of.
#[derive(Clone, PartialEq, Eq, Debug)]
pub enum PipelineStateError {
    /// The shader program failed to link.
    ProgramLink(CreateProgramError),
    /// The descriptor could not be populated from the init description.
    DescriptorInit(InitError, Program),
    /// The device failed to realize the descriptor.
    DeviceCreate(CreationError),
}

/// What linking a vertex/pixel shader pair does, as a relation between the
/// backend behaviour, the call log before and after, the two code blobs and
/// the result.
pub open spec fn link_program_post(
    b: FactoryBehavior,
    pre_log: Seq<CallRecord>,
    post_log: Seq<CallRecord>,
    vs: Seq<u8>,
    ps: Seq<u8>,
    r: Result<Program, ProgramError>,
) -> bool {
    match b.vertex_outcome(vs) {
        Err(e) => {
            &&& r == Err::<Program, ProgramError>(ProgramError::Vertex(e))
            &&& post_log == pre_log.push(CallRecord::CompileVertex)
        },
        Ok(v) => match b.pixel_outcome(ps) {
            Err(e) => {
                &&& r == Err::<Program, ProgramError>(ProgramError::Pixel(e))
                &&& post_log == pre_log.push(CallRecord::CompileVertex).push(
                    CallRecord::CompilePixel,
                )
            },
            Ok(p) => {
                &&& post_log == pre_log.push(CallRecord::CompileVertex).push(
                    CallRecord::CompilePixel,
                ).push(CallRecord::LinkProgram)
                &&& match b.program_outcome(ShaderSet::Simple(v, p)) {
                    Ok(pv) => r matches Ok(pr) && pr@ == pv,
                    Err(e) => r == Err::<Program, ProgramError>(ProgramError::Link(e)),
                }
            },
        },
    }
}

/// Law: when vertex compilation fails, the linking path stops at once — the
/// vertex error is reported, exactly one compilation is recorded, and no
/// pixel compilation is ever attempted.
pub proof fn lemma_vertex_failure_short_circuits(
    b: FactoryBehavior,
    pre_log: Seq<CallRecord>,
    post_log: Seq<CallRecord>,
    vs: Seq<u8>,
    ps: Seq<u8>,
    r: Result<Program, ProgramError>,
)
    requires
        link_program_post(b, pre_log, post_log, vs, ps, r),
        b.vertex_outcome(vs) is Err,
    ensures
        r == Err::<Program, ProgramError>(ProgramError::Vertex(b.vertex_outcome(vs)->Err_0)),
        post_log == pre_log.push(CallRecord::CompileVertex),
        forall|i: int|
            pre_log.len() <= i < post_log.len() ==> #[trigger] post_log[i]
                != CallRecord::CompilePixel,
{
}

/// Compile a vertex and a pixel shader and link them into a simple program.
/// The stages run in a fixed order and the first failure wins: when vertex
/// compilation fails, pixel compilation is never attempted, and linking is
/// attempted only after both compilations succeeded.
pub fn link_program<F: Factory>(f: &mut F, vs_code: &Vec<u8>, ps_code: &Vec<u8>) -> (r: Result<
    Program,
    ProgramError,
>)
    ensures
        final(f).behavior() == old(f).behavior(),
        link_program_post(
            old(f).behavior(),
            old(f).log(),
            final(f).log(),
            vs_code@,
            ps_code@,
            r,
        ),
{
    let vs = match f.create_shader_vertex(vs_code) {
        Ok(s) => s,
        Err(e) => {
            return Err(ProgramError::Vertex(e));
        },
    };
    let ps = match f.create_shader_pixel(ps_code) {
        Ok(s) => s,
        Err(e) => {
            return Err(ProgramError::Pixel(e));
        },
    };
    let set = ShaderSet::Simple(vs, ps);
    match f.create_program(&set) {
        Ok(p) => Ok(p),
        Err(e) => Err(ProgramError::Link(e)),
    }
}

/// Query the device's shading model once, pick the matching variant of each
/// shader source, and link the resulting code. Selection failures are tagged
/// with their stage and reported before any compilation is attempted, the
/// vertex stage first.
pub fn link_program_source<F: Factory>(
    f: &mut F,
    vs_src: ShaderSource,
    ps_src: ShaderSource,
) -> (r: Result<Program, ProgramError>)
    ensures
        final(f).behavior() == old(f).behavior(),
        ({
            let model = old(f).behavior().shader_model;
            if !vs_src.has_tier_le(model) {
                &&& r == Err::<Program, ProgramError>(
                    ProgramError::Vertex(CreateShaderError::ModelNotSupported),
                )
                &&& final(f).log() == old(f).log()
            } else if !ps_src.has_tier_le(model) {
                &&& r == Err::<Program, ProgramError>(
                    ProgramError::Pixel(CreateShaderError::ModelNotSupported),
                )
                &&& final(f).log() == old(f).log()
            } else {
                link_program_post(
                    old(f).behavior(),
                    old(f).log(),
                    final(f).log(),
                    vs_src.selection(model),
                    ps_src.selection(model),
                    r,
                )
            }
        }),
{
    let caps = f.get_capabilities();
    let model = caps.shader_model;
    match vs_src.select(model) {
        Err(_) => Err(ProgramError::Vertex(CreateShaderError::ModelNotSupported)),
        Ok(vs_code) => match ps_src.select(model) {
            Err(_) => Err(ProgramError::Pixel(CreateShaderError::ModelNotSupported)),
            Ok(ps_code) => link_program(f, vs_code, ps_code),
        },
    }
}

/// What validated pipeline-state construction does, as a relation between
/// the backend behaviour, the call log before and after, the inputs and the
/// result.
pub open spec fn create_pipeline_state_post(
    b: FactoryBehavior,
    pre_log: Seq<CallRecord>,
    post_log: Seq<CallRecord>,
    shaders: ShaderSet,
    primitive: Primitive,
    rasterizer: Rasterizer,
    elems: Seq<InitElement>,
    r: Result<PipelineState, PipelineStateError>,
) -> bool {
    match b.program_outcome(shaders) {
        Err(e) => {
            &&& r == Err::<PipelineState, PipelineStateError>(PipelineStateError::ProgramLink(e))
            &&& post_log == pre_log.push(CallRecord::LinkProgram)
        },
        Ok(pv) => match link_elems(elems, pv.signature) {
            Err(e) => {
                &&& r matches Err(PipelineStateError::DescriptorInit(e2, p)) && e2 == e && p@ == pv
                &&& post_log == pre_log.push(CallRecord::LinkProgram)
            },
            Ok(ms) => {
                let desc = DescriptorView { primitive, rasterizer, attributes: ms };
                match b.pipeline_outcome(pv, desc) {
                    Err(e) => {
                        &&& r == Err::<PipelineState, PipelineStateError>(
                            PipelineStateError::DeviceCreate(e),
                        )
                        &&& post_log == pre_log.push(CallRecord::LinkProgram).push(
                            CallRecord::CreatePipeline,
                        )
                    },
                    Ok(raw) => {
                        &&& r matches Ok(ps) && ps.raw == raw && ps.primitive == primitive
                            && ps.meta@ == ms
                        &&& post_log == pre_log.push(CallRecord::LinkProgram).push(
                            CallRecord::CreatePipeline,
                        )
                    },
                }
            },
        },
    }
}

/// Law: when the signature of the linked program lacks, or mistypes, a slot
/// the init description requires, construction fails with `DescriptorInit`,
/// the error carries the already-linked program unchanged, and the device is
/// never asked to realize a descriptor.
pub proof fn lemma_descriptor_init_carries_program(
    b: FactoryBehavior,
    pre_log: Seq<CallRecord>,
    post_log: Seq<CallRecord>,
    shaders: ShaderSet,
    primitive: Primitive,
    rasterizer: Rasterizer,
    elems: Seq<InitElement>,
    r: Result<PipelineState, PipelineStateError>,
)
    requires
        create_pipeline_state_post(b, pre_log, post_log, shaders, primitive, rasterizer, elems, r),
        b.program_outcome(shaders) is Ok,
        link_elems(elems, b.program_outcome(shaders)->Ok_0.signature) is Err,
    ensures
        r matches Err(PipelineStateError::DescriptorInit(e, p)) && e == link_elems(
            elems,
            b.program_outcome(shaders)->Ok_0.signature,
        )->Err_0 && p@ == b.program_outcome(shaders)->Ok_0,
        post_log == pre_log.push(CallRecord::LinkProgram),
        forall|i: int|
            pre_log.len() <= i < post_log.len() ==> #[trigger] post_log[i]
                != CallRecord::CreatePipeline,
{
}

/// Law: a `DeviceCreate` error can only follow successful validation — when
/// it is produced, the program linked, every slot of the init description
/// resolved against the program's signature, and the device realization call
/// was recorded after the link call.
pub proof fn lemma_device_create_implies_validation(
    b: FactoryBehavior,
    pre_log: Seq<CallRecord>,
    post_log: Seq<CallRecord>,
    shaders: ShaderSet,
    primitive: Primitive,
    rasterizer: Rasterizer,
    elems: Seq<InitElement>,
    r: Result<PipelineState, PipelineStateError>,
)
    requires
        create_pipeline_state_post(b, pre_log, post_log, shaders, primitive, rasterizer, elems, r),
        r matches Err(PipelineStateError::DeviceCreate(_)),
    ensures
        b.program_outcome(shaders) is Ok,
        link_elems(elems, b.program_outcome(shaders)->Ok_0.signature) is Ok,
        post_log == pre_log.push(CallRecord::LinkProgram).push(CallRecord::CreatePipeline),
{
}

/// Build a validated pipeline state: link the program from `shaders`, let the
/// typed init description populate a descriptor seeded with `primitive` and
/// `rasterizer` against the program's reflected signature, then ask the
/// device to realize the descriptor. The stages fail in a fixed order —
/// `ProgramLink`, then `DescriptorInit` carrying the already-linked program,
/// then `DeviceCreate` — and device realization is attempted only after
/// descriptor validation has succeeded.
pub fn create_pipeline_state<F: Factory>(
    f: &mut F,
    shaders: &ShaderSet,
    primitive: Primitive,
    rasterizer: Rasterizer,
    init: &PipelineInit,
) -> (r: Result<PipelineState, PipelineStateError>)
    ensures
        final(f).behavior() == old(f).behavior(),
        create_pipeline_state_post(
            old(f).behavior(),
            old(f).log(),
            final(f).log(),
            *shaders,
            primitive,
            rasterizer,
            init.elements@,
            r,
        ),
{
    let program = match f.create_program(shaders) {
        Ok(p) => p,
        Err(e) => {
            return Err(PipelineStateError::ProgramLink(e));
        },
    };
    let mut descriptor = Descriptor::new(primitive, rasterizer);
    let meta = match link_to(init, &mut descriptor, &program.signature) {
        Ok(m) => m,
        Err(e) => {
            return Err(PipelineStateError::DescriptorInit(e, program));
        },
    };
    proof {
        let ms = link_elems(init.elements@, program@.signature)->Ok_0;
        assert(Seq::<SlotBinding>::empty() + ms =~= ms);
        assert(descriptor@ == (DescriptorView { primitive, rasterizer, attributes: ms }));
    }
    let raw = match f.create_pipeline_state_raw(&program, &descriptor) {
        Ok(raw) => raw,
        Err(e) => {
            return Err(PipelineStateError::DeviceCreate(e));
        },
    };
    Ok(PipelineState::new(raw, primitive, meta))
}

/// Create a mesh from vertex data: a static vertex buffer whose vertex count
/// is the length of the data.
pub fn create_mesh<F: Factory>(f: &mut F, data: &Vec<u32>) -> (r: Mesh)
    requires
        data@.len() <= 0xffff_ffff,
    ensures
        final(f).behavior() == old(f).behavior(),
        r.buffer == old(f).behavior().buffer_outcome(data@, BufferRole::Vertex),
        r.num_vertices == data@.len(),
        final(f).log() == old(f).log().push(CallRecord::CreateBuffer(BufferRole::Vertex)),
{
    let nv: usize = data.len();
    let buf = f.create_buffer_static(data, BufferRole::Vertex);
    Mesh::from_format(buf, nv as u32)
}

/// Description of a plain RGBA8 2D texture: a single surface, one mip level.
pub open spec fn rgba8_info(width: u16, height: u16) -> TextureInfo {
    TextureInfo {
        width,
        height,
        depth: 1,
        levels: 1,
        kind: Kind::D2(AaMode::Single),
        format: SurfaceFormat::Rgba8,
    }
}

/// Create a simple RGBA8 2D texture of the given size.
pub fn create_texture_rgba8<F: Factory>(f: &mut F, width: u16, height: u16) -> (r: Result<
    Texture,
    TextureError,
>)
    ensures
        final(f).behavior() == old(f).behavior(),
        r == old(f).behavior().texture_outcome(rgba8_info(width, height)),
        r matches Ok(t) ==> t.info == rgba8_info(width, height),
        final(f).log() == old(f).log().push(CallRecord::CreateTexture(rgba8_info(width, height))),
{
    f.create_texture(
        TextureInfo {
            width,
            height,
            depth: 1,
            levels: 1,
            kind: Kind::D2(AaMode::Single),
            format: SurfaceFormat::Rgba8,
        },
    )
}

/// Mip level count that asks the backend for every supported level.
pub const ALL_MIP_LEVELS: u8 = 99;

/// Description of an RGBA8 2D texture with a full mip chain requested.
pub open spec fn mip_chain_rgba8_info(width: u16, height: u16) -> TextureInfo {
    TextureInfo {
        width,
        height,
        depth: 1,
        levels: ALL_MIP_LEVELS,
        kind: Kind::D2(AaMode::Single),
        format: SurfaceFormat::Rgba8,
    }
}

/// Create an RGBA8 2D texture with the given contents and a mipmap chain.
/// On successful creation exactly one mipmap-generation call follows, as a
/// best-effort step; on creation failure no mipmap generation is attempted
/// and the error is passed through.
pub fn create_texture_rgba8_static<F: Factory>(
    f: &mut F,
    width: u16,
    height: u16,
    data: &Vec<u32>,
) -> (r: Result<Texture, TextureError>)
    ensures
        final(f).behavior() == old(f).behavior(),
        r == old(f).behavior().texture_static_outcome(
            mip_chain_rgba8_info(width, height),
            data@,
        ),
        r matches Ok(t) ==> t.info == mip_chain_rgba8_info(width, height),
        match old(f).behavior().texture_static_outcome(mip_chain_rgba8_info(width, height), data@) {
            Ok(t) => final(f).log() == old(f).log().push(
                CallRecord::CreateTextureStatic(mip_chain_rgba8_info(width, height)),
            ).push(CallRecord::GenerateMipmap(t.id)),
            Err(_) => final(f).log() == old(f).log().push(
                CallRecord::CreateTextureStatic(mip_chain_rgba8_info(width, height)),
            ),
        },
{
    let info = TextureInfo {
        width,
        height,
        depth: 1,
        levels: ALL_MIP_LEVELS,
        kind: Kind::D2(AaMode::Single),
        format: SurfaceFormat::Rgba8,
    };
    match f.create_texture_static(info, data) {
        Ok(handle) => {
            f.generate_mipmap(&handle);
            Ok(handle)
        },
        Err(e) => Err(e),
    }
}

/// Description of a depth+stencil 2D texture: no depth slices, one level.
pub open spec fn depth_stencil_info(width: u16, height: u16) -> TextureInfo {
    TextureInfo {
        width,
        height,
        depth: 0,
        levels: 1,
        kind: Kind::D2(AaMode::Single),
        format: SurfaceFormat::Depth24Stencil8,
    }
}

/// Create a simple depth+stencil 2D texture of the given size.
pub fn create_texture_depth_stencil<F: Factory>(f: &mut F, width: u16, height: u16) -> (r: Result<
    Texture,
    TextureError,
>)
    ensures
        final(f).behavior() == old(f).behavior(),
        r == old(f).behavior().texture_outcome(depth_stencil_info(width, height)),
        r matches Ok(t) ==> t.info == depth_stencil_info(width, height),
        final(f).log() == old(f).log().push(
            CallRecord::CreateTexture(depth_stencil_info(width, height)),
        ),
{
    f.create_texture(
        TextureInfo {
            width,
            height,
            depth: 0,
            levels: 1,
            kind: Kind::D2(AaMode::Single),
            format: SurfaceFormat::Depth24Stencil8,
        },
    )
}

/// The fixed sampler policy of [`create_sampler_linear`]: trilinear
/// filtering, clamping wrap mode.
pub open spec fn linear_sampler_info() -> SamplerInfo {
    SamplerInfo { filter: FilterMethod::Trilinear, wrap: WrapMode::Clamp }
}

/// Create the standard linear sampler: trilinear filtering with clamping,
/// a fixed policy independent of any other state.
pub fn create_sampler_linear<F: Factory>(f: &mut F) -> (r: Sampler)
    ensures
        final(f).behavior() == old(f).behavior(),
        r == old(f).behavior().sampler_outcome(linear_sampler_info()),
        r.info == linear_sampler_info(),
        final(f).log() == old(f).log().push(CallRecord::CreateSampler(linear_sampler_info())),
{
    f.create_sampler(SamplerInfo::new(FilterMethod::Trilinear, WrapMode::Clamp))
}

} // verus!
