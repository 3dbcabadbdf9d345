pub mod message_authenticator;

use crate::peer::RadiusPeer;
use crate::radius::RadiusPacket;
use crate::radius::container::RadiusPacketContainer;
use vstd::prelude::*;

verus! {

/// What a handler decided for a received packet.
pub enum RadiusHandlerAction<'p> {
    SendPacket { packet: RadiusPacket, peer: &'p RadiusPeer },
    DiscardPacket,
    NextHandler,
}

/// Why a handler failed: no handler fails, so the type has no value.
pub type RadiusHandlerError = core::convert::Infallible;

/// Decides what to do with a received packet.
pub trait RadiusHandler {
    fn handle<'p>(&mut self, packet_container: &'p RadiusPacketContainer) -> Result<
        RadiusHandlerAction<'p>,
        RadiusHandlerError,
    >;
}

} // verus!
