pub mod response_authenticator;

use crate::radius::RadiusPacket;
use crate::radius::container::RadiusPacketContainer;
use vstd::prelude::*;

verus! {

/// Why a transformer failed: no transformer fails, so the type has no value.
pub type RadiusPacketTransformerError = core::convert::Infallible;

/// Changes a packet about to be sent, given the container of the packet it answers.
pub trait RadiusPacketTransformer {
    fn transform(
        &mut self,
        packet: &mut RadiusPacket,
        original_packet_container: &RadiusPacketContainer,
    ) -> Result<(), RadiusPacketTransformerError>;
}

} // verus!
