//! Typed metadata records and their lifecycle callbacks.
//!
//! A record is a typed annotation attached to one buffer: either a stream
//! identifier or an owned text label.  Each kind has an init callback that
//! initializes every field deterministically and a transform-copy callback
//! that constructs a fresh, independent record for a destination buffer,
//! deep-copying any heap-owned payload.  Release is handled by ownership, so
//! no free callback exists.

use vstd::prelude::*;

use crate::buffer::Buffer;
use crate::buffer::spec_attach;
use crate::registry::MetaTypeDescriptor;
use crate::registry::MetaTypeTag;
use crate::registry::Registry;

verus! {

/// The stream-identifier record payload.
#[derive(Clone, Copy, Debug, PartialEq, Eq, Structural)]
pub struct NnmcBufferMeta {
    /// The tagged stream identifier.
    pub stream_id: u32,
}

/// The text-label record payload.
#[derive(Clone, Debug, PartialEq, Eq)]
pub struct CustomMeta {
    /// The owned label text.
    pub label: String,
}

/// One metadata record, as attached to a buffer.
#[derive(Clone, Debug, PartialEq, Eq)]
pub enum MetaRecord {
    StreamId(NnmcBufferMeta),
    Label(CustomMeta),
}

impl MetaRecord {
    /// The kind of this record.
    pub open spec fn tag(self) -> MetaTypeTag {
        match self {
            MetaRecord::StreamId(_) => MetaTypeTag::StreamId,
            MetaRecord::Label(_) => MetaTypeTag::TextLabel,
        }
    }

    /// Reads the kind of this record.
    pub fn kind(&self) -> (t: MetaTypeTag)
        ensures
            t == self.tag(),
    {
        match self {
            MetaRecord::StreamId(_) => MetaTypeTag::StreamId,
            MetaRecord::Label(_) => MetaTypeTag::TextLabel,
        }
    }
}

/// How a destination buffer was produced from a source buffer: by copying
/// the whole region, or only a subset of it.
#[derive(Clone, Copy, Debug, PartialEq, Eq, Structural)]
pub enum CopyKind {
    Full,
    Region,
}

impl NnmcBufferMeta {
    /// Reads the stored stream identifier.
    pub fn get_stream_id(&self) -> (r: u32)
        ensures
            r == self.stream_id,
    {
        self.stream_id
    }

    /// Attaches a stream-id record carrying `stream_id` to a uniquely owned
    /// buffer, registering the kind lazily first.  The record is initialized
    /// by the init callback and then given its value; it replaces the first
    /// stream-id record already attached, if any.
    pub fn add(reg: &mut Registry, buffer: &mut Buffer, stream_id: u32)
        requires
            old(reg).wf(),
            old(buffer).wf(),
            old(buffer).ref_count == 1,
        ensures
            final(reg).wf(),
            *final(reg) == old(reg).spec_register(MetaTypeTag::StreamId).0,
            final(buffer).wf(),
            final(buffer).metas@ == spec_attach(
                old(buffer).metas@,
                MetaRecord::StreamId(NnmcBufferMeta { stream_id }),
            ),
            final(buffer).same_region(*old(buffer)),
            final(buffer).ref_count == old(buffer).ref_count,
    {
        let _info = nnmc_buffer_meta_get_info(reg);
        let mut m = nnmc_buffer_meta_init();
        m.stream_id = stream_id;
        buffer.attach_record(MetaRecord::StreamId(m));
    }
}

impl CustomMeta {
    /// Reads the stored label.
    pub fn get_label(&self) -> (r: &str)
        ensures
            r@ == self.label@,
    {
        self.label.as_str()
    }

    /// Attaches a text-label record carrying `label` to a uniquely owned
    /// buffer, registering the kind lazily first.  The record is initialized
    /// by the init callback (an empty label) and then given its text; it
    /// replaces the first text-label record already attached, if any.
    pub fn add(reg: &mut Registry, buffer: &mut Buffer, label: String)
        requires
            old(reg).wf(),
            old(buffer).wf(),
            old(buffer).ref_count == 1,
        ensures
            final(reg).wf(),
            *final(reg) == old(reg).spec_register(MetaTypeTag::TextLabel).0,
            final(buffer).wf(),
            final(buffer).metas@ == spec_attach(
                old(buffer).metas@,
                MetaRecord::Label(CustomMeta { label }),
            ),
            final(buffer).same_region(*old(buffer)),
            final(buffer).ref_count == old(buffer).ref_count,
    {
        let _info = custom_meta_get_info(reg);
        let mut m = custom_meta_init();
        m.label = label;
        buffer.attach_record(MetaRecord::Label(m));
    }
}

/// Init callback of the stream-id kind: every field set deterministically.
pub fn nnmc_buffer_meta_init() -> (r: NnmcBufferMeta)
    ensures
        r.stream_id == 0,
{
    NnmcBufferMeta { stream_id: 0 }
}

/// Init callback of the text-label kind: the label starts empty.
pub fn custom_meta_init() -> (r: CustomMeta)
    ensures
        r.label@ == Seq::<char>::empty(),
{
    CustomMeta { label: String::new() }
}

/// Transform-copy callback of the stream-id kind: a fresh record carrying
/// the same identifier, whatever the copy kind.
pub fn nnmc_buffer_meta_transform(src: &NnmcBufferMeta, kind: CopyKind) -> (r: NnmcBufferMeta)
    ensures
        r == *src,
{
    let _ = kind;
    NnmcBufferMeta { stream_id: src.stream_id }
}

/// Transform-copy callback of the text-label kind: a fresh record whose
/// label is a deep copy of the source's, aliasing nothing, whatever the
/// copy kind.
pub fn custom_meta_transform(src: &CustomMeta, kind: CopyKind) -> (r: CustomMeta)
    ensures
        r == *src,
{
    let _ = kind;
    CustomMeta { label: src.label.clone() }
}

/// Constructs the independent copy of a record for a destination buffer, by
/// the transform-copy callback of the record's kind.  The copy equals the
/// source in value and owns its payload.
pub fn meta_record_transform(rec: &MetaRecord, kind: CopyKind) -> (r: MetaRecord)
    ensures
        r == *rec,
{
    match rec {
        MetaRecord::StreamId(m) => MetaRecord::StreamId(nnmc_buffer_meta_transform(m, kind)),
        MetaRecord::Label(m) => MetaRecord::Label(custom_meta_transform(m, kind)),
    }
}

/// Registers the stream-id metadata kind lazily and returns its type
/// identity.
pub fn nnmc_buffer_meta_get_type(reg: &mut Registry) -> (r: u64)
    requires
        old(reg).wf(),
    ensures
        final(reg).wf(),
        ({
            let (reg2, d) = old(reg).spec_register(MetaTypeTag::StreamId);
            *final(reg) == reg2 && r == d.api_type
        }),
{
    let d = reg.register_type(MetaTypeTag::StreamId);
    d.api_type
}

/// Registers the stream-id metadata kind lazily and returns its descriptor.
pub fn nnmc_buffer_meta_get_info(reg: &mut Registry) -> (r: MetaTypeDescriptor)
    requires
        old(reg).wf(),
    ensures
        final(reg).wf(),
        (*final(reg), r) == old(reg).spec_register(MetaTypeTag::StreamId),
{
    reg.register_type(MetaTypeTag::StreamId)
}

/// Registers the text-label metadata kind lazily and returns its type
/// identity.
pub fn custom_meta_api_get_type(reg: &mut Registry) -> (r: u64)
    requires
        old(reg).wf(),
    ensures
        final(reg).wf(),
        ({
            let (reg2, d) = old(reg).spec_register(MetaTypeTag::TextLabel);
            *final(reg) == reg2 && r == d.api_type
        }),
{
    let d = reg.register_type(MetaTypeTag::TextLabel);
    d.api_type
}

/// Registers the text-label metadata kind lazily and returns its descriptor.
pub fn custom_meta_get_info(reg: &mut Registry) -> (r: MetaTypeDescriptor)
    requires
        old(reg).wf(),
    ensures
        final(reg).wf(),
        (*final(reg), r) == old(reg).spec_register(MetaTypeTag::TextLabel),
{
    reg.register_type(MetaTypeTag::TextLabel)
}

} // verus!
