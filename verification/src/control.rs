//! The control-thread side of a hot reload: name a session, record a staged
//! module once it is opened, extract a processing object from it, and offer
//! the object to the audio thread over the handoff channel. The filesystem
//! and loading steps themselves run outside this crate; each function here
//! states exactly what the protocol does with their outcomes.

use vstd::prelude::*;

use crate::channel::{channel_items, push_accepted, push_result, HandoffChannel};
use crate::identity::{derive_identity, SessionIdentity};
use crate::loader::LibLoader;
use crate::stager::{spec_parse_descriptor, spec_staging_dir_name, staging_dir_name};

verus! {

/// Derive a fresh session identity and the staging directory name it keys.
/// The caller creates the directory and must treat an existing one as a
/// collision, fatal for this attempt: sessions are assumed disjoint.
pub fn new_session() -> (r: (SessionIdentity, String))
    ensures
        r.0.wf(),
        r.1@ == spec_staging_dir_name(r.0),
{
    let id = derive_identity();
    let name = staging_dir_name(&id);
    (id, name)
}

/// One reload action, taken after a staged copy of the module was opened
/// from `path`: the module is retained under a fresh generation, an object
/// extracted from it (`factory_resolved` says whether the factory symbol
/// resolved) is offered to the audio thread, and a full channel refuses the
/// offer without disturbing what is already queued. Returns whether an
/// object was queued.
pub fn reload_action(
    loader: &mut LibLoader,
    channel: &mut HandoffChannel,
    path: String,
    factory_resolved: bool,
) -> (queued: bool)
    requires
        old(loader).wf(),
        old(loader).next_generation_view() < u64::MAX,
    ensures
        final(loader).wf(),
        final(loader).modules_view() == old(loader).modules_view().push(
            crate::loader::ModuleRecord {
                generation: old(loader).next_generation_view(),
                path,
            },
        ),
        !factory_resolved ==> {
            &&& !queued
            &&& channel_items(*final(channel)) == channel_items(*old(channel))
        },
        factory_resolved ==> {
            &&& queued == push_accepted(channel_items(*old(channel)))
            &&& channel_items(*final(channel)) == push_result(
                channel_items(*old(channel)),
                final(loader).modules_view().last().generation,
            )
        },
{
    let generation = loader.record_open(path);
    let extracted = loader.extract_processing_object(factory_resolved);
    proof {
        assert(loader.modules_view().last().generation == generation);
    }
    match extracted {
        Some(obj) => channel.try_push(obj),
        None => false,
    }
}

/// An attempted reattach to a published session that could not go ahead.
#[derive(Clone, Copy, Debug, PartialEq, Eq, Structural)]
pub enum ReattachError {
    /// The session's descriptor could not be read.
    MissingDescriptor,
    /// The descriptor does not carry the expected key.
    MalformedDescriptor,
}

/// Decide a reattach from what was read of a session's descriptor, with no
/// copy step: `descriptor` holds the record's contents, or `None` where the
/// file was missing or unreadable. Returns the staged file path to open
/// directly exactly when the record is well formed, and says which way it
/// failed otherwise; a failure changes nothing and the caller retries on a
/// later poll.
pub fn reattach_target(descriptor: Option<&str>) -> (r: Result<String, ReattachError>)
    ensures
        match r {
            Ok(path) => {
                &&& descriptor is Some
                &&& spec_parse_descriptor(descriptor->Some_0@) == Some(path@)
            },
            Err(e) => match e {
                ReattachError::MissingDescriptor => descriptor is None,
                ReattachError::MalformedDescriptor => {
                    &&& descriptor is Some
                    &&& spec_parse_descriptor(descriptor->Some_0@) is None
                },
            },
        },
{
    match descriptor {
        None => Err(ReattachError::MissingDescriptor),
        Some(s) => match crate::stager::parse_descriptor(s) {
            Ok(path) => Ok(path),
            Err(_) => Err(ReattachError::MalformedDescriptor),
        },
    }
}

} // verus!
