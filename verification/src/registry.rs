//! The process-wide metadata type registry.
//!
//! Each metadata kind is registered once and receives a stable type
//! identity.  Registration is idempotent: a second registration of the same
//! kind returns the descriptor that the first one created, and the
//! underlying registration side effect runs exactly once per kind.  The
//! registry also records whether the transform element itself has been
//! registered with the host pipeline.

use vstd::prelude::*;

verus! {

/// The closed set of metadata kinds this crate defines.
#[derive(Clone, Copy, Debug, PartialEq, Eq, Structural)]
pub enum MetaTypeTag {
    /// A 32-bit stream identifier.
    StreamId,
    /// An owned text label.
    TextLabel,
}

/// The registered identity of one metadata kind.
#[derive(Clone, Copy, Debug, PartialEq, Eq, Structural)]
pub struct MetaTypeDescriptor {
    /// Which kind this descriptor stands for.
    pub tag: MetaTypeTag,
    /// The type identity the registry assigned; distinct per registered kind.
    pub api_type: u64,
}

/// The unique type name of a metadata kind.
pub open spec fn spec_type_name(tag: MetaTypeTag) -> Seq<char> {
    match tag {
        MetaTypeTag::StreamId => "NnmcBufferMeta"@,
        MetaTypeTag::TextLabel => "MyCustomMeta"@,
    }
}

/// The size in bytes of the fixed part of a record of the given kind: four
/// bytes for the stream identifier, and the 24-byte owned-text header for
/// the label.
pub open spec fn spec_record_size(tag: MetaTypeTag) -> usize {
    match tag {
        MetaTypeTag::StreamId => 4usize,
        MetaTypeTag::TextLabel => 24usize,
    }
}

impl MetaTypeDescriptor {
    /// The unique type name of the kind this descriptor stands for.
    pub fn name(&self) -> (r: &'static str)
        ensures
            r@ == spec_type_name(self.tag),
    {
        match self.tag {
            MetaTypeTag::StreamId => "NnmcBufferMeta",
            MetaTypeTag::TextLabel => "MyCustomMeta",
        }
    }

    /// The size in bytes of the fixed part of a record of this kind.
    pub fn record_size(&self) -> (r: usize)
        ensures
            r == spec_record_size(self.tag),
    {
        match self.tag {
            MetaTypeTag::StreamId => 4,
            MetaTypeTag::TextLabel => 24,
        }
    }
}

/// The inability to register with the host machinery; fatal to startup, and
/// never produced by this model, whose registrations cannot fail.
#[derive(Clone, Copy, Debug, PartialEq, Eq, Structural)]
pub enum RegistrationFault {
    HostRejected,
}

/// The process-wide registration state.
pub struct Registry {
    /// The stream-id kind, once registered.
    pub stream_id: Option<MetaTypeDescriptor>,
    /// The text-label kind, once registered.
    pub text_label: Option<MetaTypeDescriptor>,
    /// The next type identity to assign.
    pub next_api_type: u64,
    /// How often the stream-id registration side effect has run.
    pub stream_id_registrations: u64,
    /// How often the text-label registration side effect has run.
    pub text_label_registrations: u64,
    /// Whether the transform element is registered with the host pipeline.
    pub element_registered: bool,
}

impl Registry {
    /// The descriptor registered for a kind, if any.
    pub open spec fn descriptor_of(self, tag: MetaTypeTag) -> Option<MetaTypeDescriptor> {
        match tag {
            MetaTypeTag::StreamId => self.stream_id,
            MetaTypeTag::TextLabel => self.text_label,
        }
    }

    /// How often the registration side effect has run for a kind.
    pub open spec fn registrations_of(self, tag: MetaTypeTag) -> u64 {
        match tag {
            MetaTypeTag::StreamId => self.stream_id_registrations,
            MetaTypeTag::TextLabel => self.text_label_registrations,
        }
    }

    /// Registry invariant: each registered descriptor carries its own tag
    /// and a type identity below the allocation counter, identities are
    /// distinct, and the side effect has run exactly once per registered
    /// kind and never for an unregistered one.
    pub open spec fn wf(self) -> bool {
        &&& (self.stream_id matches Some(d) ==> d.tag == MetaTypeTag::StreamId && d.api_type
            < self.next_api_type)
        &&& (self.text_label matches Some(d) ==> d.tag == MetaTypeTag::TextLabel && d.api_type
            < self.next_api_type)
        &&& (self.stream_id is Some && self.text_label is Some ==> self.stream_id->0.api_type
            != self.text_label->0.api_type)
        &&& self.next_api_type == (if self.stream_id is Some {
            1int
        } else {
            0int
        }) + (if self.text_label is Some {
            1int
        } else {
            0int
        })
        &&& self.stream_id_registrations == (if self.stream_id is Some {
            1u64
        } else {
            0u64
        })
        &&& self.text_label_registrations == (if self.text_label is Some {
            1u64
        } else {
            0u64
        })
    }

    /// What registering a kind yields: the registry afterwards, and the
    /// descriptor for the kind.  An already-registered kind is returned
    /// unchanged; otherwise a fresh type identity is assigned and the side
    /// effect for the kind runs once.
    pub open spec fn spec_register(self, tag: MetaTypeTag) -> (Registry, MetaTypeDescriptor) {
        match self.descriptor_of(tag) {
            Some(d) => (self, d),
            None => {
                let d = MetaTypeDescriptor { tag, api_type: self.next_api_type };
                let r = match tag {
                    MetaTypeTag::StreamId => Registry {
                        stream_id: Some(d),
                        next_api_type: (self.next_api_type + 1) as u64,
                        stream_id_registrations: (self.stream_id_registrations + 1) as u64,
                        ..self
                    },
                    MetaTypeTag::TextLabel => Registry {
                        text_label: Some(d),
                        next_api_type: (self.next_api_type + 1) as u64,
                        text_label_registrations: (self.text_label_registrations + 1) as u64,
                        ..self
                    },
                };
                (r, d)
            },
        }
    }

    /// An empty registry: nothing registered, no side effect run.
    pub fn new() -> (r: Registry)
        ensures
            r.wf(),
            r.stream_id is None,
            r.text_label is None,
            r.element_registered == false,
    {
        Registry {
            stream_id: None,
            text_label: None,
            next_api_type: 0,
            stream_id_registrations: 0,
            text_label_registrations: 0,
            element_registered: false,
        }
    }

    /// Registers a metadata kind, lazily and idempotently: the first call
    /// for a kind runs the registration side effect and assigns a fresh
    /// type identity; every later call returns the same descriptor and
    /// changes nothing.
    pub fn register_type(&mut self, tag: MetaTypeTag) -> (r: MetaTypeDescriptor)
        requires
            old(self).wf(),
        ensures
            final(self).wf(),
            (*final(self), r) == old(self).spec_register(tag),
            r.tag == tag,
            final(self).descriptor_of(tag) == Some(r),
            final(self).element_registered == old(self).element_registered,
            old(self).descriptor_of(tag) matches Some(d) ==> r == d && *final(self) == *old(
                self,
            ),
    {
        match tag {
            MetaTypeTag::StreamId => {
                match self.stream_id {
                    Some(d) => d,
                    None => {
                        let d = MetaTypeDescriptor { tag, api_type: self.next_api_type };
                        self.stream_id = Some(d);
                        self.next_api_type = self.next_api_type + 1;
                        self.stream_id_registrations = self.stream_id_registrations + 1;
                        d
                    },
                }
            },
            MetaTypeTag::TextLabel => {
                match self.text_label {
                    Some(d) => d,
                    None => {
                        let d = MetaTypeDescriptor { tag, api_type: self.next_api_type };
                        self.text_label = Some(d);
                        self.next_api_type = self.next_api_type + 1;
                        self.text_label_registrations = self.text_label_registrations + 1;
                        d
                    },
                }
            },
        }
    }
}

/// Registering the same metadata kind twice returns equal descriptors and
/// does not run the registration side effect a second time.
pub proof fn lemma_register_idempotent(reg: Registry, tag: MetaTypeTag)
    requires
        reg.wf(),
    ensures
        ({
            let (reg1, d1) = reg.spec_register(tag);
            let (reg2, d2) = reg1.spec_register(tag);
            &&& d2 == d1
            &&& reg2 == reg1
            &&& reg1.registrations_of(tag) == 1
            &&& reg2.registrations_of(tag) == 1
        }),
{
}

} // verus!
