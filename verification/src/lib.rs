//! A buffer-metadata tagging stage for a streaming media pipeline.
//!
//! The crate models the core of a transform element that sits between a
//! source and a sink: it negotiates an input/output video format, attaches a
//! strongly typed metadata record (a stream identifier or a text label) to
//! each buffer that flows through it, and forwards the buffer with minimal
//! copying.  Buffers are reference-counted handles; a buffer is mutated in
//! place only while it is uniquely owned, and is otherwise copied
//! structurally, sharing its payload memory while carrying its own,
//! deep-copied metadata list.

pub mod buffer;
pub mod format;
pub mod meta;
pub mod registry;
pub mod streamid;

use vstd::prelude::*;

use crate::registry::RegistrationFault;
use crate::registry::Registry;

verus! {

/// Entry point of the plugin: registers the stream-id transform element
/// with the host pipeline's registry.
pub fn plugin_init(reg: &mut Registry) -> (r: Result<(), RegistrationFault>)
    requires
        old(reg).wf(),
    ensures
        final(reg).wf(),
        r is Ok,
        *final(reg) == (Registry { element_registered: true, ..*old(reg) }),
{
    streamid::register(reg)?;
    Ok(())
}

} // verus!
