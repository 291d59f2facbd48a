//! The stream-id transform element.
//!
//! The element negotiates an input/output format pair, and while running
//! tags every buffer handed to it with a stream-id record carrying the
//! currently configured identifier.  Its lifecycle is `Stopped` →
//! `Negotiated` → `Running` and back: a negotiation event parses both
//! candidate formats and rejects invalid ones, a stop releases the
//! negotiated formats, and no buffer transform proceeds while they are
//! unset.  Per buffer, the element mutates in place only a uniquely owned
//! buffer (and only when its in-place mode says so), and otherwise forwards
//! a structural copy that shares the payload memory and carries its own
//! metadata list.

use vstd::prelude::*;

use crate::buffer::Buffer;
use crate::buffer::BufferCopyFlags;
use crate::buffer::FlowError;
use crate::buffer::spec_attach;
use crate::format::FormatPair;
use crate::format::NegotiationError;
use crate::format::RawCaps;
use crate::format::caps_valid;
use crate::format::negotiate;
use crate::format::spec_negotiate;
use crate::meta::MetaRecord;
use crate::meta::NnmcBufferMeta;
use crate::registry::MetaTypeTag;
use crate::registry::RegistrationFault;
use crate::registry::Registry;

verus! {

/// The stream identifier an element is configured with before anyone sets
/// one.
pub const DEFAULT_STREAM_ID: u32 = 0;

/// Mutable configuration of the element, read by the per-buffer transform
/// path and written through the configuration interface.
#[derive(Clone, Copy, Debug, PartialEq, Eq, Structural)]
pub struct Settings {
    /// The identifier tagged onto each processed buffer.
    pub stream_id: u32,
}

impl Default for Settings {
    /// A fresh configuration carries the default stream identifier.
    fn default() -> (s: Settings)
        ensures
            s.stream_id == DEFAULT_STREAM_ID,
    {
        Settings { stream_id: DEFAULT_STREAM_ID }
    }
}

/// Where the element stands in its lifecycle.
#[derive(Clone, Copy, Debug, PartialEq, Eq, Structural)]
pub enum ElementState {
    /// No formats negotiated; no buffer may be transformed.
    Stopped,
    /// Formats negotiated; waiting for the start signal.
    Negotiated,
    /// Processing buffers.
    Running,
}

/// What the element hands back for a prepared buffer: the input buffer
/// itself, mutated in place, or a fresh structural copy.
#[derive(Debug)]
pub enum PrepareOutputBufferSuccess {
    /// A fresh buffer, distinct from the input.
    Buffer(Buffer),
    /// The input buffer, tagged in place and unchanged in identity.
    InputBuffer,
}

/// The transform element.
pub struct StreamIdElement {
    /// The negotiated formats, set by a successful negotiation and cleared
    /// on stop.
    pub state: Option<FormatPair>,
    /// Whether the pipeline has started the element.
    pub running: bool,
    /// The current configuration.
    pub settings: Settings,
    /// Static mode, decided at construction: whether this element may ever
    /// mutate a buffer in place.
    pub in_place_mode: bool,
}

impl StreamIdElement {
    /// The element runs only after a successful negotiation, and retained
    /// formats are always valid.
    pub open spec fn wf(self) -> bool {
        &&& (self.running ==> self.state is Some)
        &&& (self.state matches Some(p) ==> p.wf())
    }

    /// The lifecycle state the fields encode.
    pub open spec fn lifecycle(self) -> ElementState {
        if self.state is None {
            ElementState::Stopped
        } else if self.running {
            ElementState::Running
        } else {
            ElementState::Negotiated
        }
    }

    /// The record the element attaches to a buffer under its current
    /// configuration.
    pub open spec fn tag_record(self) -> MetaRecord {
        MetaRecord::StreamId(NnmcBufferMeta { stream_id: self.settings.stream_id })
    }

    /// A fresh element: stopped, with default settings.
    pub fn new(in_place_mode: bool) -> (e: StreamIdElement)
        ensures
            e.wf(),
            e.lifecycle() == ElementState::Stopped,
            e.state is None,
            !e.running,
            e.settings.stream_id == DEFAULT_STREAM_ID,
            e.in_place_mode == in_place_mode,
    {
        StreamIdElement { state: None, running: false, settings: Settings::default(), in_place_mode }
    }

    /// Handles a negotiation event.  Both candidates are parsed; on success
    /// the element holds exactly the parsed pair and (re-)enters
    /// `Negotiated`, while on failure the error of the first bad candidate
    /// is reported and no format descriptor is retained.  Settings and mode
    /// are untouched either way.
    pub fn set_caps(&mut self, incaps: &RawCaps, outcaps: &RawCaps) -> (r: Result<
        (),
        NegotiationError,
    >)
        requires
            old(self).wf(),
        ensures
            final(self).wf(),
            r is Ok <==> caps_valid(*incaps) && caps_valid(*outcaps),
            spec_negotiate(*incaps, *outcaps) matches Ok(p) ==> r == Ok::<(), NegotiationError>(
                (),
            ) && final(self).state == Some(p),
            spec_negotiate(*incaps, *outcaps) matches Err(e) ==> r == Err::<(), NegotiationError>(
                e,
            ) && final(self).state is None,
            !final(self).running,
            final(self).lifecycle() == (if r is Ok {
                ElementState::Negotiated
            } else {
                ElementState::Stopped
            }),
            final(self).settings == old(self).settings,
            final(self).in_place_mode == old(self).in_place_mode,
    {
        match negotiate(incaps, outcaps) {
            Ok(pair) => {
                self.state = Some(pair);
                self.running = false;
                Ok(())
            },
            Err(e) => {
                self.state = None;
                self.running = false;
                Err(e)
            },
        }
    }

    /// Handles the pipeline start signal.  Entry into `Running` is owed
    /// exactly when formats are negotiated; otherwise nothing changes and
    /// the caller is told the element is not negotiated.
    pub fn start(&mut self) -> (r: Result<(), FlowError>)
        requires
            old(self).wf(),
        ensures
            final(self).wf(),
            r is Ok <==> old(self).state is Some,
            r is Ok ==> *final(self) == (StreamIdElement { running: true, ..*old(self) })
                && final(self).lifecycle() == ElementState::Running,
            r is Err ==> r == Err::<(), FlowError>(FlowError::NotNegotiated) && *final(self)
                == *old(self),
    {
        if self.state.is_some() {
            self.running = true;
            Ok(())
        } else {
            Err(FlowError::NotNegotiated)
        }
    }

    /// Handles the pipeline stop signal, legal in any state: the negotiated
    /// formats are released and the element returns to `Stopped`.  Settings
    /// survive a stop.
    pub fn stop(&mut self)
        requires
            old(self).wf(),
        ensures
            final(self).wf(),
            *final(self) == (StreamIdElement { state: None, running: false, ..*old(self) }),
            final(self).lifecycle() == ElementState::Stopped,
    {
        self.state = None;
        self.running = false;
    }

    /// Configures the stream identifier, legal in any state; it takes
    /// effect on the next buffer processed.  The whole value is written —
    /// a reader never observes a torn identifier.
    pub fn set_stream_id(&mut self, value: u32)
        requires
            old(self).wf(),
        ensures
            final(self).wf(),
            *final(self) == (StreamIdElement {
                settings: Settings { stream_id: value },
                ..*old(self)
            }),
    {
        self.settings = Settings { stream_id: value };
    }

    /// Reads the configured stream identifier.
    pub fn get_stream_id(&self) -> (r: u32)
        ensures
            r == self.settings.stream_id,
    {
        self.settings.stream_id
    }

    /// The in-place transform hook: a deliberate no-op that succeeds while
    /// the element runs and leaves the buffer untouched; the actual tagging
    /// happens in buffer preparation.
    pub fn transform_ip(&self, buf: &mut Buffer) -> (r: Result<(), FlowError>)
        requires
            self.wf(),
        ensures
            *final(buf) == *old(buf),
            r is Ok <==> self.lifecycle() == ElementState::Running,
            r is Err ==> r == Err::<(), FlowError>(FlowError::NotNegotiated),
    {
        let _ = buf;
        if self.running {
            Ok(())
        } else {
            Err(FlowError::NotNegotiated)
        }
    }

    /// Prepares the output buffer for one arriving buffer, owed success
    /// exactly while the element runs; before any successful negotiation
    /// the buffer is rejected with a flow error and nothing is touched.
    ///
    /// A uniquely owned input is tagged in place when the element's mode
    /// permits, and returned unchanged in identity.  Any other input is
    /// left untouched; the element forwards a structural copy instead,
    /// sharing the payload region, carrying deep copies of the propagated
    /// records, and tagged with the configured stream identifier.
    pub fn prepare_output_buffer(&self, reg: &mut Registry, inbuf: &mut Buffer) -> (r: Result<
        PrepareOutputBufferSuccess,
        FlowError,
    >)
        requires
            self.wf(),
            old(reg).wf(),
            old(inbuf).wf(),
        ensures
            final(reg).wf(),
            final(inbuf).wf(),
            r is Ok <==> self.lifecycle() == ElementState::Running,
            r is Err ==> r == Err::<PrepareOutputBufferSuccess, FlowError>(
                FlowError::NotNegotiated,
            ) && *final(inbuf) == *old(inbuf) && *final(reg) == *old(reg),
            r is Ok ==> *final(reg) == old(reg).spec_register(MetaTypeTag::StreamId).0,
            r == Ok::<PrepareOutputBufferSuccess, FlowError>(
                PrepareOutputBufferSuccess::InputBuffer,
            ) <==> self.lifecycle() == ElementState::Running && old(inbuf).ref_count == 1
                && self.in_place_mode,
            r matches Ok(PrepareOutputBufferSuccess::InputBuffer) ==> final(inbuf).metas@
                == spec_attach(old(inbuf).metas@, self.tag_record()) && final(inbuf).same_region(
                *old(inbuf),
            ) && final(inbuf).ref_count == 1,
            r matches Ok(PrepareOutputBufferSuccess::Buffer(b)) ==> *final(inbuf) == *old(inbuf)
                && b.wf() && b.ref_count == 1 && b.same_region(*old(inbuf)) && b.metas@
                == spec_attach(old(inbuf).metas@, self.tag_record()),
    {
        if !self.running {
            return Err(FlowError::NotNegotiated);
        }
        let stream_id = self.settings.stream_id;
        if inbuf.ref_count == 1 && self.in_place_mode {
            NnmcBufferMeta::add(reg, inbuf, stream_id);
            Ok(PrepareOutputBufferSuccess::InputBuffer)
        } else {
            let copy_flags = BufferCopyFlags { meta: true };
            let mut buf = match inbuf.copy_region(copy_flags, 0, None) {
                Ok(b) => b,
                Err(e) => {
                    return Err(e);
                },
            };
            NnmcBufferMeta::add(reg, &mut buf, stream_id);
            Ok(PrepareOutputBufferSuccess::Buffer(buf))
        }
    }
}

/// Registers the stream-id transform element with the host pipeline's
/// registry; in this model the registration cannot fail.
pub fn register(reg: &mut Registry) -> (r: Result<(), RegistrationFault>)
    requires
        old(reg).wf(),
    ensures
        final(reg).wf(),
        r is Ok,
        *final(reg) == (Registry { element_registered: true, ..*old(reg) }),
{
    reg.element_registered = true;
    Ok(())
}

} // verus!
