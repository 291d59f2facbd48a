//! Reference-counted buffer handles and their metadata lists.
//!
//! A buffer handle stands for one unit of media data: a byte region
//! (identified by `data_id`, with an offset and a length), an ordered list
//! of attached metadata records, and a reference count.  A buffer is mutated
//! in place only while uniquely owned.  `copy_region` produces a shallow
//! structural copy: a fresh handle over the same byte region, whose
//! metadata list is rebuilt through each record's transform-copy callback,
//! so the copy aliases no heap-owned payload of the source.

use vstd::prelude::*;

use crate::meta::CopyKind;
use crate::meta::CustomMeta;
use crate::meta::MetaRecord;
use crate::meta::NnmcBufferMeta;
use crate::meta::meta_record_transform;
use crate::registry::MetaTypeTag;

verus! {

/// A per-buffer failure, reported to the caller without disturbing the
/// element's state.
#[derive(Clone, Copy, Debug, PartialEq, Eq, Structural)]
pub enum FlowError {
    /// Buffer processing was attempted before a successful negotiation.
    NotNegotiated,
    /// The requested region does not lie inside the buffer's region.
    Error,
}

/// Which parts of a buffer a structural copy carries over.  The byte region
/// is always shared, never duplicated; this only decides whether the
/// metadata list propagates.
#[derive(Clone, Copy, Debug, PartialEq, Eq, Structural)]
pub struct BufferCopyFlags {
    /// Propagate the metadata list through the transform-copy callbacks.
    pub meta: bool,
}

/// The index of the first record of the given kind, if any.
pub open spec fn first_tag_index(metas: Seq<MetaRecord>, tag: MetaTypeTag) -> Option<int>
    decreases metas.len(),
{
    if metas.len() == 0 {
        None
    } else if metas[0].tag() == tag {
        Some(0int)
    } else {
        match first_tag_index(metas.drop_first(), tag) {
            Some(i) => Some(i + 1),
            None => None,
        }
    }
}

/// If position `i` holds the first record of kind `tag`, then
/// `first_tag_index` finds exactly `i`.
pub proof fn lemma_first_tag_index_some(metas: Seq<MetaRecord>, tag: MetaTypeTag, i: int)
    requires
        0 <= i < metas.len(),
        metas[i].tag() == tag,
        forall|j: int| 0 <= j < i ==> metas[j].tag() != tag,
    ensures
        first_tag_index(metas, tag) == Some(i),
    decreases metas.len(),
{
    if i == 0 {
    } else {
        assert(metas[0].tag() != tag);
        let rest = metas.drop_first();
        assert(rest[i - 1] == metas[i]);
        assert forall|j: int| 0 <= j < i - 1 implies rest[j].tag() != tag by {
            assert(rest[j] == metas[j + 1]);
        }
        lemma_first_tag_index_some(rest, tag, i - 1);
    }
}

/// If no record has kind `tag`, then `first_tag_index` finds nothing.
pub proof fn lemma_first_tag_index_none(metas: Seq<MetaRecord>, tag: MetaTypeTag)
    requires
        forall|j: int| 0 <= j < metas.len() ==> metas[j].tag() != tag,
    ensures
        first_tag_index(metas, tag) is None,
    decreases metas.len(),
{
    if metas.len() > 0 {
        let rest = metas.drop_first();
        assert forall|j: int| 0 <= j < rest.len() implies rest[j].tag() != tag by {
            assert(rest[j] == metas[j + 1]);
        }
        lemma_first_tag_index_none(rest, tag);
    }
}

/// What `first_tag_index` found, when it found something: the position is in
/// range, holds a record of the kind, and nothing before it does.
pub proof fn lemma_first_tag_index_props(metas: Seq<MetaRecord>, tag: MetaTypeTag)
    ensures
        first_tag_index(metas, tag) matches Some(i) ==> 0 <= i < metas.len() && metas[i].tag()
            == tag && (forall|j: int| 0 <= j < i ==> metas[j].tag() != tag),
        first_tag_index(metas, tag) is None ==> forall|j: int|
            0 <= j < metas.len() ==> metas[j].tag() != tag,
    decreases metas.len(),
{
    if metas.len() > 0 && metas[0].tag() != tag {
        let rest = metas.drop_first();
        lemma_first_tag_index_props(rest, tag);
        match first_tag_index(rest, tag) {
            Some(k) => {
                assert forall|j: int| 0 <= j < k + 1 implies metas[j].tag() != tag by {
                    if j > 0 {
                        assert(metas[j] == rest[j - 1]);
                    }
                }
            },
            None => {
                assert forall|j: int| 0 <= j < metas.len() implies metas[j].tag() != tag by {
                    if j > 0 {
                        assert(metas[j] == rest[j - 1]);
                    }
                }
            },
        }
    }
}

/// The stream identifier a record carries.
pub open spec fn spec_record_stream_id(rec: MetaRecord) -> u32
    recommends
        rec is StreamId,
{
    match rec {
        MetaRecord::StreamId(m) => m.stream_id,
        MetaRecord::Label(_) => 0,
    }
}

/// The label text a record carries.
pub open spec fn spec_record_label(rec: MetaRecord) -> Seq<char>
    recommends
        rec is Label,
{
    match rec {
        MetaRecord::StreamId(_) => Seq::empty(),
        MetaRecord::Label(m) => m.label@,
    }
}

/// The stream identifier of the first stream-id record, if any.
pub open spec fn spec_first_stream_id(metas: Seq<MetaRecord>) -> Option<u32> {
    match first_tag_index(metas, MetaTypeTag::StreamId) {
        Some(i) => Some(spec_record_stream_id(metas[i])),
        None => None,
    }
}

/// The label of the first text-label record, if any.
pub open spec fn spec_first_label(metas: Seq<MetaRecord>) -> Option<Seq<char>> {
    match first_tag_index(metas, MetaTypeTag::TextLabel) {
        Some(i) => Some(spec_record_label(metas[i])),
        None => None,
    }
}

/// What attaching a record to a metadata list yields: the first record of
/// the same kind is replaced, or the record is appended when the list holds
/// none of its kind.
pub open spec fn spec_attach(metas: Seq<MetaRecord>, rec: MetaRecord) -> Seq<MetaRecord> {
    match first_tag_index(metas, rec.tag()) {
        Some(i) => metas.update(i, rec),
        None => metas.push(rec),
    }
}

/// After attaching a record, the first record of its kind is that record.
pub proof fn lemma_attach_found(metas: Seq<MetaRecord>, rec: MetaRecord)
    ensures
        first_tag_index(spec_attach(metas, rec), rec.tag()) matches Some(i) && spec_attach(
            metas,
            rec,
        )[i] == rec,
{
    let tag = rec.tag();
    lemma_first_tag_index_props(metas, tag);
    match first_tag_index(metas, tag) {
        Some(i) => {
            let m2 = metas.update(i, rec);
            assert forall|j: int| 0 <= j < i implies m2[j].tag() != tag by {
                assert(m2[j] == metas[j]);
            }
            lemma_first_tag_index_some(m2, tag, i);
        },
        None => {
            let m2 = metas.push(rec);
            assert forall|j: int| 0 <= j < metas.len() implies m2[j].tag() != tag by {
                assert(m2[j] == metas[j]);
            }
            lemma_first_tag_index_some(m2, tag, metas.len() as int);
        },
    }
}

/// Round trip: attaching a stream-id record with value `v` and reading the
/// stream identifier back yields exactly `v`, whatever was attached before.
pub proof fn lemma_stream_id_round_trip(metas: Seq<MetaRecord>, v: u32)
    ensures
        spec_first_stream_id(
            spec_attach(metas, MetaRecord::StreamId(NnmcBufferMeta { stream_id: v })),
        ) == Some(v),
{
    lemma_attach_found(metas, MetaRecord::StreamId(NnmcBufferMeta { stream_id: v }));
}

/// Round trip: attaching a text-label record and reading the label back
/// yields exactly its text, whatever was attached before.
pub proof fn lemma_label_round_trip(metas: Seq<MetaRecord>, m: CustomMeta)
    ensures
        spec_first_label(spec_attach(metas, MetaRecord::Label(m))) == Some(m.label@),
{
    lemma_attach_found(metas, MetaRecord::Label(m));
}

/// One unit of media data flowing through the pipeline.
#[derive(Debug)]
pub struct Buffer {
    /// Identity of the underlying byte region; structural copies share it.
    pub data_id: u64,
    /// Offset of this handle's region inside the byte region.
    pub region_offset: u64,
    /// Length of this handle's region.
    pub region_length: u64,
    /// The attached metadata records, in attachment order.
    pub metas: Vec<MetaRecord>,
    /// How many owners share this handle; in-place mutation is legal only
    /// at one.
    pub ref_count: u32,
}

impl Buffer {
    /// A live handle has at least one owner and a region whose bounds do
    /// not wrap.
    pub open spec fn wf(self) -> bool {
        self.ref_count >= 1 && self.region_offset + self.region_length <= u64::MAX
    }

    /// Both handles window the same byte region identically.
    pub open spec fn same_region(self, other: Buffer) -> bool {
        self.data_id == other.data_id && self.region_offset == other.region_offset
            && self.region_length == other.region_length
    }

    /// A fresh, uniquely owned handle over a whole byte region, with no
    /// metadata attached.
    pub fn new(data_id: u64, region_length: u64) -> (b: Buffer)
        ensures
            b.wf(),
            b.data_id == data_id,
            b.region_offset == 0,
            b.region_length == region_length,
            b.metas@ == Seq::<MetaRecord>::empty(),
            b.ref_count == 1,
    {
        Buffer { data_id, region_offset: 0, region_length, metas: Vec::new(), ref_count: 1 }
    }

    /// Hands a further owner a share of this handle.
    pub fn acquire(&mut self)
        requires
            old(self).wf(),
            old(self).ref_count < u32::MAX,
        ensures
            final(self).wf(),
            *final(self) == (Buffer { ref_count: (old(self).ref_count + 1) as u32, ..*old(self) }),
    {
        self.ref_count = self.ref_count + 1;
    }

    /// Drops one owner's share.  The last owner's drop destroys the handle
    /// — its byte region and every still-attached record are released by
    /// ownership — and nothing remains.
    pub fn release(self) -> (r: Option<Buffer>)
        requires
            self.wf(),
        ensures
            r is Some <==> self.ref_count > 1,
            r matches Some(b) ==> b == (Buffer { ref_count: (self.ref_count - 1) as u32, ..self }),
            r matches Some(b) ==> b.wf(),
    {
        if self.ref_count > 1 {
            let c = self.ref_count - 1;
            Some(Buffer { ref_count: c, ..self })
        } else {
            None
        }
    }

    /// Attaches a record to a uniquely owned buffer: the first record of the
    /// same kind is replaced, otherwise the record is appended.
    pub fn attach_record(&mut self, rec: MetaRecord)
        requires
            old(self).wf(),
            old(self).ref_count == 1,
        ensures
            final(self).wf(),
            final(self).metas@ == spec_attach(old(self).metas@, rec),
            final(self).same_region(*old(self)),
            final(self).ref_count == old(self).ref_count,
    {
        let tag = rec.kind();
        let n = self.metas.len();
        let mut i: usize = 0;
        while i < n
            invariant
                i <= n,
                n == self.metas.len(),
                *self == *old(self),
                old(self).wf(),
                old(self).ref_count == 1,
                forall|j: int| 0 <= j < i ==> self.metas@[j].tag() != tag,
                tag == rec.tag(),
            decreases n - i,
        {
            if self.metas[i].kind() == tag {
                proof {
                    lemma_first_tag_index_some(self.metas@, tag, i as int);
                }
                self.metas.set(i, rec);
                return ;
            }
            i = i + 1;
        }
        proof {
            lemma_first_tag_index_none(self.metas@, tag);
        }
        self.metas.push(rec);
    }

    /// Reads the stream identifier carried by the first stream-id record,
    /// or nothing when none is attached — a normal, expected outcome.
    pub fn get_meta_stream_id(&self) -> (r: Option<u32>)
        ensures
            r == spec_first_stream_id(self.metas@),
    {
        let n = self.metas.len();
        let mut i: usize = 0;
        while i < n
            invariant
                i <= n,
                n == self.metas.len(),
                forall|j: int| 0 <= j < i ==> self.metas@[j].tag() != MetaTypeTag::StreamId,
            decreases n - i,
        {
            match &self.metas[i] {
                MetaRecord::StreamId(m) => {
                    proof {
                        lemma_first_tag_index_some(
                            self.metas@,
                            MetaTypeTag::StreamId,
                            i as int,
                        );
                    }
                    return Some(m.get_stream_id());
                },
                MetaRecord::Label(_) => {},
            }
            i = i + 1;
        }
        proof {
            lemma_first_tag_index_none(self.metas@, MetaTypeTag::StreamId);
        }
        None
    }

    /// Reads a deep copy of the label carried by the first text-label
    /// record, or nothing when none is attached.
    pub fn get_meta_label(&self) -> (r: Option<String>)
        ensures
            r is Some <==> spec_first_label(self.metas@) is Some,
            r matches Some(s) ==> Some(s@) == spec_first_label(self.metas@),
    {
        let n = self.metas.len();
        let mut i: usize = 0;
        while i < n
            invariant
                i <= n,
                n == self.metas.len(),
                forall|j: int| 0 <= j < i ==> self.metas@[j].tag() != MetaTypeTag::TextLabel,
            decreases n - i,
        {
            match &self.metas[i] {
                MetaRecord::Label(m) => {
                    proof {
                        lemma_first_tag_index_some(
                            self.metas@,
                            MetaTypeTag::TextLabel,
                            i as int,
                        );
                    }
                    return Some(m.label.clone());
                },
                MetaRecord::StreamId(_) => {},
            }
            i = i + 1;
        }
        proof {
            lemma_first_tag_index_none(self.metas@, MetaTypeTag::TextLabel);
        }
        None
    }

    /// Produces a shallow structural copy of (a window of) this buffer: a
    /// fresh, uniquely owned handle sharing the same byte region, whose
    /// metadata list — when the flags propagate it — is rebuilt record by
    /// record through the transform-copy callbacks, equal in value to the
    /// source list and aliasing none of its heap-owned payloads.
    pub fn copy_region(&self, flags: BufferCopyFlags, offset: u64, size: Option<u64>) -> (r:
        Result<Buffer, FlowError>)
        requires
            self.wf(),
        ensures
            r is Ok <==> offset <= self.region_length && (size matches Some(s) ==> offset + s
                <= self.region_length),
            r is Err ==> r == Err::<Buffer, FlowError>(FlowError::Error),
            r matches Ok(b) ==> b.wf(),
            r matches Ok(b) ==> b.data_id == self.data_id,
            r matches Ok(b) ==> b.region_offset == self.region_offset + offset,
            r matches Ok(b) ==> b.region_length == (match size {
                Some(s) => s,
                None => (self.region_length - offset) as u64,
            }),
            r matches Ok(b) ==> b.ref_count == 1,
            r matches Ok(b) ==> b.metas@ == (if flags.meta {
                self.metas@
            } else {
                Seq::<MetaRecord>::empty()
            }),
    {
        if offset > self.region_length {
            return Err(FlowError::Error);
        }
        let new_length: u64 = match size {
            Some(s) => {
                if s > self.region_length - offset {
                    return Err(FlowError::Error);
                }
                s
            },
            None => self.region_length - offset,
        };
        let kind = if offset == 0 && new_length == self.region_length {
            CopyKind::Full
        } else {
            CopyKind::Region
        };
        let mut metas: Vec<MetaRecord> = Vec::new();
        if flags.meta {
            let n = self.metas.len();
            let mut i: usize = 0;
            while i < n
                invariant
                    i <= n,
                    n == self.metas.len(),
                    metas@ == self.metas@.subrange(0, i as int),
                decreases n - i,
            {
                metas.push(meta_record_transform(&self.metas[i], kind));
                proof {
                    assert(metas@ =~= self.metas@.subrange(0, i + 1 as int));
                }
                i = i + 1;
            }
            proof {
                assert(metas@ =~= self.metas@);
            }
        }
        Ok(
            Buffer {
                data_id: self.data_id,
                region_offset: self.region_offset + offset,
                region_length: new_length,
                metas,
                ref_count: 1,
            },
        )
    }
}

} // verus!
