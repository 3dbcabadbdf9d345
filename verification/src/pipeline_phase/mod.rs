pub mod message_authenticator;

use crate::pipeline::RadiusPipelineError;
use crate::radius::container::RadiusPacketContainer;
use vstd::prelude::*;

verus! {

/// A stage that reads a received packet and records what it learns.
pub trait RadiusPipelinePhase {
    fn process(&mut self, packet_container: &mut RadiusPacketContainer) -> Result<
        (),
        RadiusPipelineError,
    >;
}

} // verus!
