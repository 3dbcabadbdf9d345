pub mod message_authenticator;
pub mod phase;
pub mod step;

use vstd::prelude::*;

verus! {

/// Why a step that decides on a received packet failed: it never fails, so the type has no
/// value.
pub type RadiusHandlerError = core::convert::Infallible;

/// Marks the pipeline that decides what to answer to a received packet.
pub struct RadiusHandlerPipelineTarget;

} // verus!
