//! Shading models, shader sources, shaders and linked programs.

use vstd::prelude::*;

verus! {

/// Tiered capability level of the GPU's shader execution environment.
#[derive(Clone, Copy, PartialEq, Eq, Structural, Debug)]
pub enum ShaderModel {
    Unsupported,
    Model20,
    Model30,
    Model40,
    Model50,
}

impl ShaderModel {
    /// Numeric value of the tier, used to compare capability levels.
    pub open spec fn tier(self) -> u32 {
        match self {
            ShaderModel::Unsupported => 0,
            ShaderModel::Model20 => 20,
            ShaderModel::Model30 => 30,
            ShaderModel::Model40 => 40,
            ShaderModel::Model50 => 50,
        }
    }

    /// Runtime counterpart of [`Self::tier`].
    pub fn tier_value(&self) -> (r: u32)
        ensures
            r == self.tier(),
    {
        match self {
            ShaderModel::Unsupported => 0,
            ShaderModel::Model20 => 20,
            ShaderModel::Model30 => 30,
            ShaderModel::Model40 => 40,
            ShaderModel::Model50 => 50,
        }
    }
}

/// Error reported by the backend when a shader cannot be created.
#[derive(Clone, Copy, PartialEq, Eq, Structural, Debug)]
pub enum CreateShaderError {
    /// No shader-source variant matches the device's shading model.
    ModelNotSupported,
    /// The backend rejected the shader code.
    CompilationFailed,
}

/// Error reported by the backend when a program cannot be linked.
#[derive(Clone, Copy, PartialEq, Eq, Structural, Debug)]
pub enum CreateProgramError {
    /// The backend could not link the shader set into a program.
    LinkFailed,
}

/// Pipeline stage a shader object belongs to.
#[derive(Clone, Copy, PartialEq, Eq, Structural, Debug)]
pub enum Stage {
    Vertex,
    Pixel,
}

/// Backend handle to a compiled shader.
#[derive(Clone, Copy, PartialEq, Eq, Structural, Debug)]
pub struct Shader {
    pub id: u64,
    pub stage: Stage,
}

/// A set of shaders to be linked into one program. The simple path links
/// exactly one vertex and one pixel stage.
#[derive(Clone, Copy, PartialEq, Eq, Structural, Debug)]
pub enum ShaderSet {
    Simple(Shader, Shader),
}

/// Scalar shape of one vertex attribute slot.
#[derive(Clone, Copy, PartialEq, Eq, Structural, Debug)]
pub enum AttrFormat {
    Scalar,
    Vec2,
    Vec3,
    Vec4,
}

/// One entry of a program's reflected input signature: a slot together with
/// the format the program expects there.
#[derive(Clone, Copy, PartialEq, Eq, Structural, Debug)]
pub struct SignatureEntry {
    pub slot: u8,
    pub format: AttrFormat,
}

/// Reflection data of a linked program: its named/typed input slots.
#[derive(Clone, PartialEq, Eq, Debug)]
pub struct Signature {
    pub entries: Vec<SignatureEntry>,
}

/// Backend handle to a linked program, together with its reflected signature.
#[derive(Clone, PartialEq, Eq, Debug)]
pub struct Program {
    pub id: u64,
    pub signature: Signature,
}

/// Mathematical value of a [`Program`].
pub struct ProgramView {
    pub id: u64,
    pub signature: Seq<SignatureEntry>,
}

impl View for Program {
    type V = ProgramView;

    open spec fn view(&self) -> ProgramView {
        ProgramView { id: self.id, signature: self.signature.entries@ }
    }
}

/// Shader code for each supported shading-model tier; at most one code blob
/// per tier by construction.
#[derive(Clone, PartialEq, Eq, Debug)]
pub struct ShaderSource {
    pub code20: Option<Vec<u8>>,
    pub code30: Option<Vec<u8>>,
    pub code40: Option<Vec<u8>>,
    pub code50: Option<Vec<u8>>,
}

impl ShaderSource {
    /// A source set with no code for any tier.
    pub fn empty() -> (r: ShaderSource)
        ensures
            r.code20 is None,
            r.code30 is None,
            r.code40 is None,
            r.code50 is None,
    {
        ShaderSource { code20: None, code30: None, code40: None, code50: None }
    }

    /// The code blob this source set holds for tier `t`, if any.
    pub open spec fn code_at(self, t: ShaderModel) -> Option<Seq<u8>> {
        match t {
            ShaderModel::Unsupported => None,
            ShaderModel::Model20 => match self.code20 {
                Some(c) => Some(c@),
                None => None,
            },
            ShaderModel::Model30 => match self.code30 {
                Some(c) => Some(c@),
                None => None,
            },
            ShaderModel::Model40 => match self.code40 {
                Some(c) => Some(c@),
                None => None,
            },
            ShaderModel::Model50 => match self.code50 {
                Some(c) => Some(c@),
                None => None,
            },
        }
    }

    /// Does some tier at or below `model` carry code?
    pub open spec fn has_tier_le(self, model: ShaderModel) -> bool {
        ||| (self.code50 is Some && model.tier() >= 50)
        ||| (self.code40 is Some && model.tier() >= 40)
        ||| (self.code30 is Some && model.tier() >= 30)
        ||| (self.code20 is Some && model.tier() >= 20)
    }

    /// The code of the highest tier at or below `model`; meaningful only
    /// when [`Self::has_tier_le`] holds.
    pub open spec fn selection(self, model: ShaderModel) -> Seq<u8> {
        if self.code50 is Some && model.tier() >= 50 {
            self.code50->Some_0@
        } else if self.code40 is Some && model.tier() >= 40 {
            self.code40->Some_0@
        } else if self.code30 is Some && model.tier() >= 30 {
            self.code30->Some_0@
        } else {
            self.code20->Some_0@
        }
    }

    /// Pick the shader-source variant for the device's shading model:
    /// the highest tier at or below `model` that carries code. Fails with
    /// [`CreateShaderError::ModelNotSupported`] when no tier qualifies.
    pub fn select<'a>(&'a self, model: ShaderModel) -> (r: Result<&'a Vec<u8>, CreateShaderError>)
        ensures
            r is Ok <==> self.has_tier_le(model),
            r matches Ok(code) ==> code@ == self.selection(model),
            r matches Err(e) ==> e == CreateShaderError::ModelNotSupported,
    {
        let m: u32 = model.tier_value();
        if m >= 50 {
            if let Some(code) = &self.code50 {
                return Ok(code);
            }
        }
        if m >= 40 {
            if let Some(code) = &self.code40 {
                return Ok(code);
            }
        }
        if m >= 30 {
            if let Some(code) = &self.code30 {
                return Ok(code);
            }
        }
        if m >= 20 {
            if let Some(code) = &self.code20 {
                return Ok(code);
            }
        }
        Err(CreateShaderError::ModelNotSupported)
    }
}

/// Law: whenever some tier at or below `model` carries code, the selection is
/// the code of one such tier — a tier at or below the requested model, never
/// above it.
pub proof fn lemma_selection_within_model(src: ShaderSource, model: ShaderModel)
    requires
        src.has_tier_le(model),
    ensures
        exists|t: ShaderModel|
            t.tier() <= model.tier() && #[trigger] src.code_at(t) == Some(src.selection(model)),
{
    if src.code50 is Some && model.tier() >= 50 {
        assert(src.code_at(ShaderModel::Model50) == Some(src.selection(model)));
    } else if src.code40 is Some && model.tier() >= 40 {
        assert(src.code_at(ShaderModel::Model40) == Some(src.selection(model)));
    } else if src.code30 is Some && model.tier() >= 30 {
        assert(src.code_at(ShaderModel::Model30) == Some(src.selection(model)));
    } else {
        assert(src.code_at(ShaderModel::Model20) == Some(src.selection(model)));
    }
}

/// Error produced by program construction, tagged with the first stage that
/// failed: vertex compilation, then pixel compilation, then linking.
#[derive(Clone, Copy, PartialEq, Eq, Structural, Debug)]
pub enum ProgramError {
    /// The vertex shader could not be created.
    Vertex(CreateShaderError),
    /// The pixel shader could not be created.
    Pixel(CreateShaderError),
    /// The program could not be linked.
    Link(CreateProgramError),
}

} // verus!
