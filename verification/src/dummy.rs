//! Recording stand-ins for the external collaborators: a scripted device
//! backend that logs every call it receives, and plain context/provider
//! implementations. They let the composed factory operations be exercised —
//! call counts and call order included — without a real GPU.

use vstd::prelude::*;

use crate::context::{Context, GlProvider};
use crate::factory::{
    Buffer, BufferRole, CallRecord, Capabilities, Factory, FactoryBehavior,
};
use crate::pso::{CreationError, Descriptor, RawPipeline};
use crate::shade::{
    CreateProgramError, CreateShaderError, Program, ProgramView, Shader, ShaderModel, ShaderSet,
    Signature, SignatureEntry, Stage,
};
use crate::tex::{Sampler, SamplerInfo, Texture, TextureError, TextureInfo};

verus! {

/// Handle id the scripted backend gives every vertex shader.
pub const VERTEX_SHADER_ID: u64 = 1;

/// Handle id the scripted backend gives every pixel shader.
pub const PIXEL_SHADER_ID: u64 = 2;

/// Handle id the scripted backend gives every program.
pub const PROGRAM_ID: u64 = 3;

/// Handle id the scripted backend gives every pipeline object.
pub const PIPELINE_ID: u64 = 4;

/// Handle id the scripted backend gives every texture.
pub const TEXTURE_ID: u64 = 5;

/// Handle id the scripted backend gives every sampler.
pub const SAMPLER_ID: u64 = 6;

/// Handle id the scripted backend gives every buffer.
pub const BUFFER_ID: u64 = 7;

/// A scripted device backend. Each `..._ok` flag decides whether the
/// corresponding creation call succeeds; `signature` is the reflected
/// signature every linked program reports; `calls` records every backend
/// call, oldest first.
pub struct DummyFactory {
    pub model: ShaderModel,
    pub vertex_ok: bool,
    pub pixel_ok: bool,
    pub program_ok: bool,
    pub pipeline_ok: bool,
    pub texture_ok: bool,
    pub texture_static_ok: bool,
    pub signature: Signature,
    pub calls: Vec<CallRecord>,
}

impl DummyFactory {
    /// A backend whose every call succeeds, with the given capability and
    /// reflected program signature, and an empty call log.
    pub fn new(model: ShaderModel, signature: Signature) -> (r: DummyFactory)
        ensures
            r.model == model,
            r.vertex_ok,
            r.pixel_ok,
            r.program_ok,
            r.pipeline_ok,
            r.texture_ok,
            r.texture_static_ok,
            r.signature == signature,
            r.calls@ == Seq::<CallRecord>::empty(),
    {
        DummyFactory {
            model,
            vertex_ok: true,
            pixel_ok: true,
            program_ok: true,
            pipeline_ok: true,
            texture_ok: true,
            texture_static_ok: true,
            signature,
            calls: Vec::new(),
        }
    }

    /// A fresh copy of the scripted signature.
    fn copy_signature(&self) -> (r: Signature)
        ensures
            r.entries@ == self.signature.entries@,
    {
        let mut entries: Vec<SignatureEntry> = Vec::new();
        let n: usize = self.signature.entries.len();
        let mut i: usize = 0;
        proof {
            assert(self.signature.entries@.take(0) =~= Seq::<SignatureEntry>::empty());
        }
        while i < n
            invariant
                0 <= i <= n,
                n == self.signature.entries@.len(),
                entries@ == self.signature.entries@.take(i as int),
            decreases n - i,
        {
            let e = self.signature.entries[i];
            entries.push(e);
            proof {
                assert(entries@ =~= self.signature.entries@.take(i as int + 1));
            }
            i = i + 1;
        }
        proof {
            assert(self.signature.entries@.take(n as int) =~= self.signature.entries@);
        }
        Signature { entries }
    }
}

impl Factory for DummyFactory {
    open spec fn behavior(&self) -> FactoryBehavior {
        FactoryBehavior {
            shader_model: self.model,
            vertex: |code: Seq<u8>|
                if self.vertex_ok {
                    Ok(Shader { id: VERTEX_SHADER_ID, stage: Stage::Vertex })
                } else {
                    Err(CreateShaderError::CompilationFailed)
                },
            pixel: |code: Seq<u8>|
                if self.pixel_ok {
                    Ok(Shader { id: PIXEL_SHADER_ID, stage: Stage::Pixel })
                } else {
                    Err(CreateShaderError::CompilationFailed)
                },
            program: |set: ShaderSet|
                if self.program_ok {
                    Ok(ProgramView { id: PROGRAM_ID, signature: self.signature.entries@ })
                } else {
                    Err(CreateProgramError::LinkFailed)
                },
            pipeline: |program: ProgramView, desc: crate::pso::DescriptorView|
                if self.pipeline_ok {
                    Ok(RawPipeline { id: PIPELINE_ID })
                } else {
                    Err(CreationError)
                },
            texture: |info: TextureInfo|
                if self.texture_ok {
                    Ok(Texture { id: TEXTURE_ID, info })
                } else {
                    Err(TextureError::Unsupported)
                },
            texture_static: |info: TextureInfo, data: Seq<u32>|
                if self.texture_static_ok {
                    Ok(Texture { id: TEXTURE_ID, info })
                } else {
                    Err(TextureError::Unsupported)
                },
            sampler: |info: SamplerInfo| Sampler { id: SAMPLER_ID, info },
            buffer: |data: Seq<u32>, role: BufferRole| Buffer { id: BUFFER_ID, role },
        }
    }

    open spec fn log(&self) -> Seq<CallRecord> {
        self.calls@
    }

    fn get_capabilities(&self) -> (r: Capabilities) {
        Capabilities { shader_model: self.model }
    }

    fn create_shader_vertex(&mut self, code: &Vec<u8>) -> (r: Result<Shader, CreateShaderError>) {
        self.calls.push(CallRecord::CompileVertex);
        proof {
            assert(self.behavior() =~= old(self).behavior());
        }
        if self.vertex_ok {
            Ok(Shader { id: VERTEX_SHADER_ID, stage: Stage::Vertex })
        } else {
            Err(CreateShaderError::CompilationFailed)
        }
    }

    fn create_shader_pixel(&mut self, code: &Vec<u8>) -> (r: Result<Shader, CreateShaderError>) {
        self.calls.push(CallRecord::CompilePixel);
        proof {
            assert(self.behavior() =~= old(self).behavior());
        }
        if self.pixel_ok {
            Ok(Shader { id: PIXEL_SHADER_ID, stage: Stage::Pixel })
        } else {
            Err(CreateShaderError::CompilationFailed)
        }
    }

    fn create_program(&mut self, set: &ShaderSet) -> (r: Result<Program, CreateProgramError>) {
        self.calls.push(CallRecord::LinkProgram);
        proof {
            assert(self.behavior() =~= old(self).behavior());
        }
        if self.program_ok {
            let signature = self.copy_signature();
            Ok(Program { id: PROGRAM_ID, signature })
        } else {
            Err(CreateProgramError::LinkFailed)
        }
    }

    fn create_pipeline_state_raw(&mut self, program: &Program, desc: &Descriptor) -> (r: Result<
        RawPipeline,
        CreationError,
    >) {
        self.calls.push(CallRecord::CreatePipeline);
        proof {
            assert(self.behavior() =~= old(self).behavior());
        }
        if self.pipeline_ok {
            Ok(RawPipeline { id: PIPELINE_ID })
        } else {
            Err(CreationError)
        }
    }

    fn create_texture(&mut self, info: TextureInfo) -> (r: Result<Texture, TextureError>) {
        self.calls.push(CallRecord::CreateTexture(info));
        proof {
            assert(self.behavior() =~= old(self).behavior());
        }
        if self.texture_ok {
            Ok(Texture { id: TEXTURE_ID, info })
        } else {
            Err(TextureError::Unsupported)
        }
    }

    fn create_texture_static(&mut self, info: TextureInfo, data: &Vec<u32>) -> (r: Result<
        Texture,
        TextureError,
    >) {
        self.calls.push(CallRecord::CreateTextureStatic(info));
        proof {
            assert(self.behavior() =~= old(self).behavior());
        }
        if self.texture_static_ok {
            Ok(Texture { id: TEXTURE_ID, info })
        } else {
            Err(TextureError::Unsupported)
        }
    }

    fn generate_mipmap(&mut self, texture: &Texture) {
        self.calls.push(CallRecord::GenerateMipmap(texture.id));
        proof {
            assert(self.behavior() =~= old(self).behavior());
        }
    }

    fn create_sampler(&mut self, info: SamplerInfo) -> (r: Sampler) {
        self.calls.push(CallRecord::CreateSampler(info));
        proof {
            assert(self.behavior() =~= old(self).behavior());
        }
        Sampler { id: SAMPLER_ID, info }
    }

    fn create_buffer_static(&mut self, data: &Vec<u32>, role: BufferRole) -> (r: Buffer) {
        self.calls.push(CallRecord::CreateBuffer(role));
        proof {
            assert(self.behavior() =~= old(self).behavior());
        }
        Buffer { id: BUFFER_ID, role }
    }
}

/// A context stand-in: tracks whether it is current and counts
/// presentations. `swaps` is the runtime counter the tests read (saturating,
/// so counting itself never fails); `present_count` is the exact count the
/// [`Context::presented`] observer reports.
pub struct DummyContext {
    pub current: bool,
    pub swaps: u64,
    pub present_count: Ghost<nat>,
}

impl DummyContext {
    /// A context that is not yet current and has presented nothing.
    pub fn new() -> (r: DummyContext)
        ensures
            !r.current,
            r.swaps == 0,
            r.presented() == 0,
    {
        DummyContext { current: false, swaps: 0, present_count: Ghost(0) }
    }
}

impl Context for DummyContext {
    open spec fn is_current(&self) -> bool {
        self.current
    }

    open spec fn presented(&self) -> nat {
        self.present_count@
    }

    fn make_current(&mut self) {
        self.current = true;
    }

    fn swap_buffers(&mut self) {
        if self.swaps < u64::MAX {
            self.swaps = self.swaps + 1;
        }
        self.present_count = Ghost(self.present_count@ + 1);
    }
}

/// A provider stand-in that reports a fixed entry-point address and a fixed
/// answer to every extension query.
pub struct DummyProvider {
    pub address: usize,
    pub extensions_supported: bool,
}

impl GlProvider for DummyProvider {
    open spec fn proc_address_of(&self, name: Seq<char>) -> usize {
        self.address
    }

    open spec fn supports_extension(&self, name: Seq<char>) -> bool {
        self.extensions_supported
    }

    fn get_proc_address(&self, name: &str) -> (r: usize) {
        self.address
    }

    fn extension_supported(&self, name: &str) -> (r: bool) {
        self.extensions_supported
    }
}

} // verus!
