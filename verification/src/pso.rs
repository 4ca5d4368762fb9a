//! Pipeline-state descriptors: primitive topology, rasterizer state, and the
//! validation of a typed pipeline init description against a program's
//! reflected signature.

use vstd::prelude::*;

use crate::shade::{AttrFormat, SignatureEntry, Signature};

verus! {

/// Primitive topology a pipeline assembles vertices into.
#[derive(Clone, Copy, PartialEq, Eq, Structural, Debug)]
pub enum Primitive {
    Point,
    Line,
    LineStrip,
    TriangleList,
    TriangleStrip,
    TriangleFan,
}

/// Winding order that defines the front of a face.
#[derive(Clone, Copy, PartialEq, Eq, Structural, Debug)]
pub enum FrontFace {
    Clockwise,
    CounterClockwise,
}

/// Which faces the rasterizer culls.
#[derive(Clone, Copy, PartialEq, Eq, Structural, Debug)]
pub enum CullFace {
    Nothing,
    Front,
    Back,
}

/// Rasterizer configuration of a pipeline.
#[derive(Clone, Copy, PartialEq, Eq, Structural, Debug)]
pub struct Rasterizer {
    pub front_face: FrontFace,
    pub cull_face: CullFace,
}

/// Error produced when a pipeline init description cannot be bound to a
/// program signature.
#[derive(Clone, Copy, PartialEq, Eq, Structural, Debug)]
pub enum InitError {
    /// The program signature has no entry for this slot.
    MissingSlot(u8),
    /// The signature entry for this slot has an incompatible format.
    FormatMismatch(u8),
}

/// One slot requirement of a pipeline init description.
#[derive(Clone, Copy, PartialEq, Eq, Structural, Debug)]
pub struct InitElement {
    pub slot: u8,
    pub format: AttrFormat,
}

/// Typed pipeline init description: the slots, with their formats, that the
/// pipeline requires from the program's reflected signature.
#[derive(Clone, PartialEq, Eq, Debug)]
pub struct PipelineInit {
    pub elements: Vec<InitElement>,
}

/// One validated entry of the meta binding table: a slot of the init
/// description resolved against the signature entry that backs it.
#[derive(Clone, Copy, PartialEq, Eq, Structural, Debug)]
pub struct SlotBinding {
    pub slot: u8,
    pub format: AttrFormat,
}

/// An in-progress pipeline configuration, mutated only while a pipeline init
/// description populates it, then frozen and handed to the device.
#[derive(Clone, PartialEq, Eq, Debug)]
pub struct Descriptor {
    pub primitive: Primitive,
    pub rasterizer: Rasterizer,
    pub attributes: Vec<SlotBinding>,
}

/// Mathematical value of a [`Descriptor`].
pub struct DescriptorView {
    pub primitive: Primitive,
    pub rasterizer: Rasterizer,
    pub attributes: Seq<SlotBinding>,
}

impl View for Descriptor {
    type V = DescriptorView;

    open spec fn view(&self) -> DescriptorView {
        DescriptorView {
            primitive: self.primitive,
            rasterizer: self.rasterizer,
            attributes: self.attributes@,
        }
    }
}

impl Descriptor {
    /// An empty descriptor seeded with a primitive topology and a
    /// rasterizer configuration.
    pub fn new(primitive: Primitive, rasterizer: Rasterizer) -> (r: Descriptor)
        ensures
            r.primitive == primitive,
            r.rasterizer == rasterizer,
            r.attributes@ == Seq::<SlotBinding>::empty(),
    {
        Descriptor { primitive, rasterizer, attributes: Vec::new() }
    }
}

/// Backend handle to a realized pipeline object.
#[derive(Clone, Copy, PartialEq, Eq, Structural, Debug)]
pub struct RawPipeline {
    pub id: u64,
}

/// Error reported by the backend when a descriptor cannot be realized.
#[derive(Clone, Copy, PartialEq, Eq, Structural, Debug)]
pub struct CreationError;

/// A realized pipeline: the device handle, the primitive topology it was
/// built with, and the validated meta binding table for draw-time binding.
#[derive(Clone, PartialEq, Eq, Debug)]
pub struct PipelineState {
    pub raw: RawPipeline,
    pub primitive: Primitive,
    pub meta: Vec<SlotBinding>,
}

impl PipelineState {
    /// Wrap a realized device handle with its topology and meta table.
    pub fn new(raw: RawPipeline, primitive: Primitive, meta: Vec<SlotBinding>) -> (r: PipelineState)
        ensures
            r.raw == raw,
            r.primitive == primitive,
            r.meta@ == meta@,
    {
        PipelineState { raw, primitive, meta }
    }
}

/// Resolution of one init element against a signature: the binding of the
/// first signature entry with the element's slot, `MissingSlot` when no entry
/// has it, `FormatMismatch` when the entry's format differs.
pub open spec fn slot_lookup(sig: Seq<SignatureEntry>, elem: InitElement) -> Result<
    SlotBinding,
    InitError,
>
    decreases sig.len(),
{
    if sig.len() == 0 {
        Err(InitError::MissingSlot(elem.slot))
    } else if sig.first().slot == elem.slot {
        if sig.first().format == elem.format {
            Ok(SlotBinding { slot: elem.slot, format: sig.first().format })
        } else {
            Err(InitError::FormatMismatch(elem.slot))
        }
    } else {
        slot_lookup(sig.drop_first(), elem)
    }
}

/// Resolution of a whole init description against a signature: the meta
/// binding table when every element resolves, else the error of the first
/// element that does not.
pub open spec fn link_elems(elems: Seq<InitElement>, sig: Seq<SignatureEntry>) -> Result<
    Seq<SlotBinding>,
    InitError,
>
    decreases elems.len(),
{
    if elems.len() == 0 {
        Ok(Seq::<SlotBinding>::empty())
    } else {
        match slot_lookup(sig, elems.first()) {
            Err(e) => Err(e),
            Ok(b) => match link_elems(elems.drop_first(), sig) {
                Err(e) => Err(e),
                Ok(rest) => Ok(seq![b] + rest),
            },
        }
    }
}

/// Resolve one init element against a program signature.
pub fn lookup_slot(signature: &Signature, elem: InitElement) -> (r: Result<SlotBinding, InitError>)
    ensures
        r == slot_lookup(signature.entries@, elem),
{
    let ghost sig = signature.entries@;
    let n: usize = signature.entries.len();
    let mut i: usize = 0;
    proof {
        assert(sig.skip(0) =~= sig);
    }
    while i < n
        invariant
            0 <= i <= n,
            n == sig.len(),
            sig == signature.entries@,
            slot_lookup(sig, elem) == slot_lookup(sig.skip(i as int), elem),
        decreases n - i,
    {
        let entry = signature.entries[i];
        proof {
            assert(sig.skip(i as int).first() == sig[i as int]);
            assert(sig.skip(i as int).drop_first() =~= sig.skip(i as int + 1));
        }
        if entry.slot == elem.slot {
            if entry.format == elem.format {
                return Ok(SlotBinding { slot: elem.slot, format: entry.format });
            } else {
                return Err(InitError::FormatMismatch(elem.slot));
            }
        }
        i = i + 1;
    }
    proof {
        assert(sig.skip(n as int).len() == 0);
    }
    Err(InitError::MissingSlot(elem.slot))
}

/// Populate `descriptor` from the init description, validating every declared
/// slot against the program signature. On success the descriptor gains one
/// attribute per element and the meta binding table is returned; on the first
/// failing element the descriptor is left unchanged and the element's error
/// is returned.
pub fn link_to(init: &PipelineInit, descriptor: &mut Descriptor, signature: &Signature) -> (r:
    Result<Vec<SlotBinding>, InitError>)
    ensures
        final(descriptor).primitive == old(descriptor).primitive,
        final(descriptor).rasterizer == old(descriptor).rasterizer,
        match link_elems(init.elements@, signature.entries@) {
            Ok(ms) => {
                &&& r matches Ok(m) && m@ == ms
                &&& final(descriptor).attributes@ == old(descriptor).attributes@ + ms
            },
            Err(e) => {
                &&& r == Err::<Vec<SlotBinding>, InitError>(e)
                &&& *final(descriptor) == *old(descriptor)
            },
        },
{
    let ghost elems = init.elements@;
    let ghost sig = signature.entries@;
    let n: usize = init.elements.len();
    let mut meta: Vec<SlotBinding> = Vec::new();
    let mut i: usize = 0;
    proof {
        assert(elems.skip(0) =~= elems);
        if link_elems(elems, sig) is Ok {
            assert(meta@ + link_elems(elems, sig)->Ok_0 =~= link_elems(elems, sig)->Ok_0);
        }
    }
    while i < n
        invariant
            0 <= i <= n,
            n == elems.len(),
            elems == init.elements@,
            sig == signature.entries@,
            meta@.len() == i,
            *descriptor == *old(descriptor),
            link_elems(elems, sig) == (match link_elems(elems.skip(i as int), sig) {
                Ok(rest) => Ok::<Seq<SlotBinding>, InitError>(meta@ + rest),
                Err(e) => Err::<Seq<SlotBinding>, InitError>(e),
            }),
        decreases n - i,
    {
        let elem = init.elements[i];
        proof {
            assert(elems.skip(i as int).first() == elems[i as int]);
            assert(elems.skip(i as int).drop_first() =~= elems.skip(i as int + 1));
        }
        let ghost meta_prev = meta@;
        match lookup_slot(signature, elem) {
            Ok(b) => {
                meta.push(b);
                proof {
                    let rest_r = link_elems(elems.skip(i as int + 1), sig);
                    if rest_r is Ok {
                        let rest = rest_r->Ok_0;
                        assert(meta_prev + (seq![b] + rest) =~= meta@ + rest);
                    }
                }
            },
            Err(e) => {
                return Err(e);
            },
        }
        i = i + 1;
    }
    proof {
        assert(elems.skip(n as int).len() == 0);
        assert(meta@ + Seq::<SlotBinding>::empty() =~= meta@);
    }
    let m: usize = meta.len();
    let mut j: usize = 0;
    while j < m
        invariant
            0 <= j <= m,
            m == meta@.len(),
            descriptor.primitive == old(descriptor).primitive,
            descriptor.rasterizer == old(descriptor).rasterizer,
            descriptor.attributes@ == old(descriptor).attributes@ + meta@.take(j as int),
            link_elems(init.elements@, signature.entries@) == Ok::<Seq<SlotBinding>, InitError>(
                meta@,
            ),
        decreases m - j,
    {
        let b = meta[j];
        descriptor.attributes.push(b);
        proof {
            assert(descriptor.attributes@ =~= old(descriptor).attributes@ + meta@.take(
                j as int + 1,
            ));
        }
        j = j + 1;
    }
    proof {
        assert(meta@.take(m as int) =~= meta@);
    }
    Ok(meta)
}

/// Does the signature hold an entry backing this binding, slot and format?
pub open spec fn binding_in_signature(b: SlotBinding, sig: Seq<SignatureEntry>) -> bool {
    exists|j: int|
        0 <= j < sig.len() && (#[trigger] sig[j]).slot == b.slot && sig[j].format == b.format
}

/// Every binding that `slot_lookup` resolves is backed by a signature entry
/// and keeps the element's slot.
pub proof fn lemma_slot_lookup_wf(sig: Seq<SignatureEntry>, elem: InitElement)
    ensures
        slot_lookup(sig, elem) matches Ok(b) ==> b.slot == elem.slot && binding_in_signature(
            b,
            sig,
        ),
    decreases sig.len(),
{
    if sig.len() == 0 {
    } else if sig.first().slot == elem.slot {
        if sig.first().format == elem.format {
            let b = slot_lookup(sig, elem)->Ok_0;
            assert((sig[0]).slot == b.slot && sig[0].format == b.format);
        }
    } else {
        lemma_slot_lookup_wf(sig.drop_first(), elem);
        if slot_lookup(sig.drop_first(), elem) is Ok {
            let b = slot_lookup(sig.drop_first(), elem)->Ok_0;
            let j = choose|j: int|
                0 <= j < sig.drop_first().len() && (#[trigger] sig.drop_first()[j]).slot == b.slot
                    && sig.drop_first()[j].format == b.format;
            assert((sig[j + 1]).slot == b.slot && sig[j + 1].format == b.format);
        }
    }
}

/// Law: a validated meta binding table has one binding per declared element,
/// in declaration order and under the declared slots, and every binding is
/// backed — slot and format — by an entry of the program signature it was
/// linked against.
pub proof fn lemma_meta_table_wf(elems: Seq<InitElement>, sig: Seq<SignatureEntry>)
    ensures
        link_elems(elems, sig) matches Ok(ms) ==> {
            &&& ms.len() == elems.len()
            &&& forall|i: int| 0 <= i < ms.len() ==> (#[trigger] ms[i]).slot == elems[i].slot
            &&& forall|i: int| 0 <= i < ms.len() ==> binding_in_signature(#[trigger] ms[i], sig)
        },
    decreases elems.len(),
{
    if elems.len() == 0 {
    } else {
        match slot_lookup(sig, elems.first()) {
            Ok(b) => {
                lemma_slot_lookup_wf(sig, elems.first());
                lemma_meta_table_wf(elems.drop_first(), sig);
                match link_elems(elems.drop_first(), sig) {
                    Ok(rest) => {
                        let ms = seq![b] + rest;
                        assert(link_elems(elems, sig) == Ok::<Seq<SlotBinding>, InitError>(ms));
                        assert(ms[0] == b);
                        assert forall|i: int| 0 <= i < ms.len() implies (#[trigger] ms[i]).slot
                            == elems[i].slot by {
                            if i > 0 {
                                assert(ms[i] == rest[i - 1]);
                                assert(elems.drop_first()[i - 1] == elems[i]);
                            }
                        }
                        assert forall|i: int| 0 <= i < ms.len() implies binding_in_signature(
                            #[trigger] ms[i],
                            sig,
                        ) by {
                            if i > 0 {
                                assert(ms[i] == rest[i - 1]);
                            }
                        }
                    },
                    Err(_) => {},
                }
            },
            Err(_) => {},
        }
    }
}

} // verus!
