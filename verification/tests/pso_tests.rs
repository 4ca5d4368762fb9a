use gfx::pso::{
    link_to, lookup_slot, CullFace, Descriptor, FrontFace, InitElement, InitError, PipelineInit,
    Primitive, Rasterizer, SlotBinding,
};
use gfx::shade::{AttrFormat, Signature, SignatureEntry};

fn signature() -> Signature {
    Signature {
        entries: vec![
            SignatureEntry {
                slot: 0,
                format: AttrFormat::Vec2,
            },
            SignatureEntry {
                slot: 3,
                format: AttrFormat::Scalar,
            },
        ],
    }
}

fn descriptor() -> Descriptor {
    Descriptor::new(
        Primitive::TriangleList,
        Rasterizer {
            front_face: FrontFace::Clockwise,
            cull_face: CullFace::Nothing,
        },
    )
}

#[test]
fn lookup_slot_finds_matching_entry() {
    let r = lookup_slot(
        &signature(),
        InitElement {
            slot: 3,
            format: AttrFormat::Scalar,
        },
    );
    assert_eq!(
        r,
        Ok(SlotBinding {
            slot: 3,
            format: AttrFormat::Scalar,
        })
    );
}

#[test]
fn lookup_slot_missing() {
    let r = lookup_slot(
        &signature(),
        InitElement {
            slot: 9,
            format: AttrFormat::Scalar,
        },
    );
    assert_eq!(r, Err(InitError::MissingSlot(9)));
}

#[test]
fn lookup_slot_format_mismatch() {
    let r = lookup_slot(
        &signature(),
        InitElement {
            slot: 0,
            format: AttrFormat::Vec4,
        },
    );
    assert_eq!(r, Err(InitError::FormatMismatch(0)));
}

#[test]
fn link_to_populates_descriptor_and_meta() {
    let mut desc = descriptor();
    let init = PipelineInit {
        elements: vec![
            InitElement {
                slot: 3,
                format: AttrFormat::Scalar,
            },
            InitElement {
                slot: 0,
                format: AttrFormat::Vec2,
            },
        ],
    };
    let meta = link_to(&init, &mut desc, &signature()).unwrap();
    let expected = vec![
        SlotBinding {
            slot: 3,
            format: AttrFormat::Scalar,
        },
        SlotBinding {
            slot: 0,
            format: AttrFormat::Vec2,
        },
    ];
    assert_eq!(meta, expected);
    assert_eq!(desc.attributes, expected);
    assert_eq!(desc.primitive, Primitive::TriangleList);
}

#[test]
fn link_to_failure_leaves_descriptor_unchanged() {
    let mut desc = descriptor();
    let init = PipelineInit {
        elements: vec![
            InitElement {
                slot: 0,
                format: AttrFormat::Vec2,
            },
            InitElement {
                slot: 5,
                format: AttrFormat::Vec3,
            },
        ],
    };
    let r = link_to(&init, &mut desc, &signature());
    assert_eq!(r, Err(InitError::MissingSlot(5)));
    assert!(desc.attributes.is_empty());
}

#[test]
fn link_to_empty_init_succeeds_with_empty_meta() {
    let mut desc = descriptor();
    let init = PipelineInit { elements: vec![] };
    let meta = link_to(&init, &mut desc, &signature()).unwrap();
    assert!(meta.is_empty());
    assert!(desc.attributes.is_empty());
}
