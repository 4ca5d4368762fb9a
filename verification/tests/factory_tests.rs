use gfx::dummy::{
    DummyFactory, BUFFER_ID, PIPELINE_ID, PROGRAM_ID, TEXTURE_ID,
};
use gfx::factory::{
    create_mesh, create_pipeline_state, create_sampler_linear, create_texture_depth_stencil,
    create_texture_rgba8, create_texture_rgba8_static, link_program, link_program_source,
    BufferRole, CallRecord, ALL_MIP_LEVELS,
};
use gfx::pso::{
    CreationError, CullFace, FrontFace, InitElement, InitError, PipelineInit, Primitive,
    Rasterizer, SlotBinding,
};
use gfx::shade::{
    AttrFormat, CreateProgramError, CreateShaderError, ProgramError, Shader, ShaderModel,
    ShaderSet, ShaderSource, Signature, SignatureEntry, Stage,
};
use gfx::tex::{AaMode, FilterMethod, Kind, SurfaceFormat, TextureError, TextureInfo, WrapMode};
use gfx::factory::PipelineStateError;

fn signature(entries: Vec<(u8, AttrFormat)>) -> Signature {
    Signature {
        entries: entries
            .into_iter()
            .map(|(slot, format)| SignatureEntry { slot, format })
            .collect(),
    }
}

fn all_ok_factory(model: ShaderModel) -> DummyFactory {
    DummyFactory::new(model, signature(vec![(0, AttrFormat::Vec2), (1, AttrFormat::Vec4)]))
}

fn rasterizer() -> Rasterizer {
    Rasterizer {
        front_face: FrontFace::CounterClockwise,
        cull_face: CullFace::Back,
    }
}

#[test]
fn link_program_success_makes_three_calls_in_order() {
    let mut f = all_ok_factory(ShaderModel::Model30);
    let program = link_program(&mut f, &vec![1], &vec![2]).unwrap();
    assert_eq!(program.id, PROGRAM_ID);
    assert_eq!(
        f.calls,
        vec![
            CallRecord::CompileVertex,
            CallRecord::CompilePixel,
            CallRecord::LinkProgram,
        ]
    );
}

#[test]
fn link_program_vertex_failure_skips_pixel_compilation() {
    let mut f = all_ok_factory(ShaderModel::Model30);
    f.vertex_ok = false;
    let r = link_program(&mut f, &vec![1], &vec![2]);
    assert_eq!(
        r,
        Err(ProgramError::Vertex(CreateShaderError::CompilationFailed))
    );
    // Exactly one compilation was attempted: the vertex stage.
    assert_eq!(f.calls, vec![CallRecord::CompileVertex]);
}

#[test]
fn link_program_pixel_failure_reported_after_vertex_success() {
    let mut f = all_ok_factory(ShaderModel::Model30);
    f.pixel_ok = false;
    let r = link_program(&mut f, &vec![1], &vec![2]);
    assert_eq!(
        r,
        Err(ProgramError::Pixel(CreateShaderError::CompilationFailed))
    );
    assert_eq!(
        f.calls,
        vec![CallRecord::CompileVertex, CallRecord::CompilePixel]
    );
}

#[test]
fn link_program_link_failure() {
    let mut f = all_ok_factory(ShaderModel::Model30);
    f.program_ok = false;
    let r = link_program(&mut f, &vec![1], &vec![2]);
    assert_eq!(r, Err(ProgramError::Link(CreateProgramError::LinkFailed)));
}

#[test]
fn link_program_source_pixel_selection_failure() {
    // Device at shader model 3.0; the vertex source offers tiers 2.0 and
    // 3.0, the pixel source only 4.0: vertex selection would succeed, pixel
    // selection fails, and no compilation is attempted.
    let mut f = all_ok_factory(ShaderModel::Model30);
    let vs_src = ShaderSource {
        code20: Some(vec![2, 0]),
        code30: Some(vec![3, 0]),
        code40: None,
        code50: None,
    };
    let ps_src = ShaderSource {
        code20: None,
        code30: None,
        code40: Some(vec![4, 0]),
        code50: None,
    };
    let r = link_program_source(&mut f, vs_src, ps_src);
    assert_eq!(
        r,
        Err(ProgramError::Pixel(CreateShaderError::ModelNotSupported))
    );
    assert_eq!(f.calls, Vec::new());
}

#[test]
fn link_program_source_vertex_selection_failure_wins() {
    // Both selections fail; the vertex stage is reported first.
    let mut f = all_ok_factory(ShaderModel::Model30);
    let vs_src = ShaderSource {
        code20: None,
        code30: None,
        code40: Some(vec![4, 0]),
        code50: None,
    };
    let ps_src = ShaderSource {
        code20: None,
        code30: None,
        code40: Some(vec![4, 1]),
        code50: None,
    };
    let r = link_program_source(&mut f, vs_src, ps_src);
    assert_eq!(
        r,
        Err(ProgramError::Vertex(CreateShaderError::ModelNotSupported))
    );
    assert_eq!(f.calls, Vec::new());
}

#[test]
fn link_program_source_success() {
    let mut f = all_ok_factory(ShaderModel::Model30);
    let vs_src = ShaderSource {
        code20: Some(vec![2, 0]),
        code30: Some(vec![3, 0]),
        code40: None,
        code50: None,
    };
    let ps_src = ShaderSource {
        code20: None,
        code30: Some(vec![3, 1]),
        code40: None,
        code50: None,
    };
    let program = link_program_source(&mut f, vs_src, ps_src).unwrap();
    assert_eq!(program.id, PROGRAM_ID);
    assert_eq!(
        f.calls,
        vec![
            CallRecord::CompileVertex,
            CallRecord::CompilePixel,
            CallRecord::LinkProgram,
        ]
    );
}

fn simple_shader_set() -> ShaderSet {
    ShaderSet::Simple(
        Shader {
            id: 1,
            stage: Stage::Vertex,
        },
        Shader {
            id: 2,
            stage: Stage::Pixel,
        },
    )
}

#[test]
fn create_pipeline_state_missing_slot_returns_linked_program() {
    let mut f = all_ok_factory(ShaderModel::Model30);
    let init = PipelineInit {
        elements: vec![
            InitElement {
                slot: 0,
                format: AttrFormat::Vec2,
            },
            InitElement {
                slot: 7,
                format: AttrFormat::Vec4,
            },
        ],
    };
    let r = create_pipeline_state(
        &mut f,
        &simple_shader_set(),
        Primitive::TriangleList,
        rasterizer(),
        &init,
    );
    match r {
        Err(PipelineStateError::DescriptorInit(e, program)) => {
            assert_eq!(e, InitError::MissingSlot(7));
            // The already-linked program is handed back unchanged.
            assert_eq!(program.id, PROGRAM_ID);
            assert_eq!(
                program.signature,
                signature(vec![(0, AttrFormat::Vec2), (1, AttrFormat::Vec4)])
            );
        }
        other => panic!("expected DescriptorInit, got {:?}", other),
    }
    // The device was never asked to realize a descriptor.
    assert_eq!(f.calls, vec![CallRecord::LinkProgram]);
}

#[test]
fn create_pipeline_state_format_mismatch() {
    let mut f = all_ok_factory(ShaderModel::Model30);
    let init = PipelineInit {
        elements: vec![InitElement {
            slot: 1,
            format: AttrFormat::Scalar,
        }],
    };
    let r = create_pipeline_state(
        &mut f,
        &simple_shader_set(),
        Primitive::TriangleList,
        rasterizer(),
        &init,
    );
    assert!(matches!(
        r,
        Err(PipelineStateError::DescriptorInit(InitError::FormatMismatch(1), _))
    ));
}

#[test]
fn create_pipeline_state_program_failure_stops_early() {
    let mut f = all_ok_factory(ShaderModel::Model30);
    f.program_ok = false;
    let r = create_pipeline_state(
        &mut f,
        &simple_shader_set(),
        Primitive::TriangleList,
        rasterizer(),
        &PipelineInit { elements: vec![] },
    );
    assert_eq!(
        r,
        Err(PipelineStateError::ProgramLink(
            CreateProgramError::LinkFailed
        ))
    );
    assert_eq!(f.calls, vec![CallRecord::LinkProgram]);
}

#[test]
fn create_pipeline_state_device_failure_comes_after_validation() {
    let mut f = all_ok_factory(ShaderModel::Model30);
    f.pipeline_ok = false;
    let init = PipelineInit {
        elements: vec![InitElement {
            slot: 0,
            format: AttrFormat::Vec2,
        }],
    };
    let r = create_pipeline_state(
        &mut f,
        &simple_shader_set(),
        Primitive::TriangleList,
        rasterizer(),
        &init,
    );
    assert_eq!(r, Err(PipelineStateError::DeviceCreate(CreationError)));
    // Descriptor validation succeeded first; only then was the device asked.
    assert_eq!(
        f.calls,
        vec![CallRecord::LinkProgram, CallRecord::CreatePipeline]
    );
}

#[test]
fn create_pipeline_state_success() {
    let mut f = all_ok_factory(ShaderModel::Model30);
    let init = PipelineInit {
        elements: vec![
            InitElement {
                slot: 1,
                format: AttrFormat::Vec4,
            },
            InitElement {
                slot: 0,
                format: AttrFormat::Vec2,
            },
        ],
    };
    let ps = create_pipeline_state(
        &mut f,
        &simple_shader_set(),
        Primitive::TriangleStrip,
        rasterizer(),
        &init,
    )
    .unwrap();
    assert_eq!(ps.raw.id, PIPELINE_ID);
    assert_eq!(ps.primitive, Primitive::TriangleStrip);
    assert_eq!(
        ps.meta,
        vec![
            SlotBinding {
                slot: 1,
                format: AttrFormat::Vec4,
            },
            SlotBinding {
                slot: 0,
                format: AttrFormat::Vec2,
            },
        ]
    );
    assert_eq!(
        f.calls,
        vec![CallRecord::LinkProgram, CallRecord::CreatePipeline]
    );
}

#[test]
fn create_texture_rgba8_round_trip() {
    let mut f = all_ok_factory(ShaderModel::Model30);
    let t = create_texture_rgba8(&mut f, 16, 8).unwrap();
    assert_eq!(t.id, TEXTURE_ID);
    assert_eq!(
        t.info,
        TextureInfo {
            width: 16,
            height: 8,
            depth: 1,
            levels: 1,
            kind: Kind::D2(AaMode::Single),
            format: SurfaceFormat::Rgba8,
        }
    );
}

#[test]
fn create_texture_rgba8_failure_passes_error_through() {
    let mut f = all_ok_factory(ShaderModel::Model30);
    f.texture_ok = false;
    assert_eq!(
        create_texture_rgba8(&mut f, 16, 8),
        Err(TextureError::Unsupported)
    );
}

#[test]
fn texture_static_success_generates_mipmap_exactly_once() {
    let mut f = all_ok_factory(ShaderModel::Model30);
    let t = create_texture_rgba8_static(&mut f, 4, 4, &vec![0; 16]).unwrap();
    let expected_info = TextureInfo {
        width: 4,
        height: 4,
        depth: 1,
        levels: ALL_MIP_LEVELS,
        kind: Kind::D2(AaMode::Single),
        format: SurfaceFormat::Rgba8,
    };
    assert_eq!(t.info, expected_info);
    assert_eq!(
        f.calls,
        vec![
            CallRecord::CreateTextureStatic(expected_info),
            CallRecord::GenerateMipmap(TEXTURE_ID),
        ]
    );
    let mipmap_calls = f
        .calls
        .iter()
        .filter(|c| matches!(c, CallRecord::GenerateMipmap(_)))
        .count();
    assert_eq!(mipmap_calls, 1);
}

#[test]
fn texture_static_failure_generates_no_mipmap() {
    let mut f = all_ok_factory(ShaderModel::Model30);
    f.texture_static_ok = false;
    let r = create_texture_rgba8_static(&mut f, 4, 4, &vec![0; 16]);
    assert_eq!(r, Err(TextureError::Unsupported));
    let mipmap_calls = f
        .calls
        .iter()
        .filter(|c| matches!(c, CallRecord::GenerateMipmap(_)))
        .count();
    assert_eq!(mipmap_calls, 0);
    assert_eq!(f.calls.len(), 1);
}

#[test]
fn create_texture_depth_stencil_description() {
    let mut f = all_ok_factory(ShaderModel::Model30);
    let t = create_texture_depth_stencil(&mut f, 640, 480).unwrap();
    assert_eq!(
        t.info,
        TextureInfo {
            width: 640,
            height: 480,
            depth: 0,
            levels: 1,
            kind: Kind::D2(AaMode::Single),
            format: SurfaceFormat::Depth24Stencil8,
        }
    );
}

#[test]
fn create_sampler_linear_fixed_policy() {
    let mut f = all_ok_factory(ShaderModel::Model30);
    let s = create_sampler_linear(&mut f);
    assert_eq!(s.info.filter, FilterMethod::Trilinear);
    assert_eq!(s.info.wrap, WrapMode::Clamp);

    // The policy does not depend on any other backend state.
    let mut failing = all_ok_factory(ShaderModel::Unsupported);
    failing.vertex_ok = false;
    failing.pixel_ok = false;
    failing.program_ok = false;
    failing.pipeline_ok = false;
    failing.texture_ok = false;
    failing.texture_static_ok = false;
    let s2 = create_sampler_linear(&mut failing);
    assert_eq!(s2.info.filter, FilterMethod::Trilinear);
    assert_eq!(s2.info.wrap, WrapMode::Clamp);
}

#[test]
fn create_mesh_derives_vertex_count_from_data() {
    let mut f = all_ok_factory(ShaderModel::Model30);
    let mesh = create_mesh(&mut f, &vec![10, 20, 30, 40]);
    assert_eq!(mesh.num_vertices, 4);
    assert_eq!(mesh.buffer.id, BUFFER_ID);
    assert_eq!(mesh.buffer.role, BufferRole::Vertex);
    assert_eq!(f.calls, vec![CallRecord::CreateBuffer(BufferRole::Vertex)]);
}
