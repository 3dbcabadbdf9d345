use crate::handler::{RadiusHandler, RadiusHandlerAction, RadiusHandlerError};
use crate::pipeline::handler::message_authenticator::discards_for_status;
use crate::pipeline::input::message_authenticator::MessageAuthenticatorStatus;
use crate::radius::container::RadiusPacketContainer;
use crate::radius::metadata::RadiusPacketMetadata;
use vstd::prelude::*;

verus! {

/// Drops received packets whose Message-Authenticator was found invalid.
pub struct MessageAuthenticatorRadiusHandler {}

impl MessageAuthenticatorRadiusHandler {
    pub fn new() -> (handler: Self) {
        Self {  }
    }
}

impl RadiusHandler for MessageAuthenticatorRadiusHandler {
    /// Discards the packet when its Message-Authenticator status is `Invalid`; otherwise hands
    /// it to the next handler.
    fn handle<'p>(&mut self, packet_container: &'p RadiusPacketContainer) -> (result: Result<
        RadiusHandlerAction<'p>,
        RadiusHandlerError,
    >)
        ensures
            discards_for_status(
                MessageAuthenticatorStatus::spec_stored(packet_container@.metadata),
            ) ==> result matches Ok(RadiusHandlerAction::DiscardPacket),
            !discards_for_status(
                MessageAuthenticatorStatus::spec_stored(packet_container@.metadata),
            ) ==> result matches Ok(RadiusHandlerAction::NextHandler),
    {
        match packet_container.get_metadata::<MessageAuthenticatorStatus>() {
            Some(MessageAuthenticatorStatus::Valid) => Ok(RadiusHandlerAction::NextHandler),
            Some(MessageAuthenticatorStatus::Invalid) => Ok(RadiusHandlerAction::DiscardPacket),
            _ => Ok(RadiusHandlerAction::NextHandler),
        }
    }
}

} // verus!
