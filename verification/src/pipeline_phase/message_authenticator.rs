use crate::pipeline::RadiusPipelineError;
use crate::pipeline::input::message_authenticator::{
    compute_message_authenticator_status, with_message_authenticator_status,
};
use crate::pipeline_phase::RadiusPipelinePhase;
use crate::radius::container::RadiusPacketContainer;
use vstd::prelude::*;
use vstd::string::StringSliceAdditionalSpecFns;

verus! {

/// Checks the Message-Authenticator attribute of a received packet against the shared secret
/// and records what it found.
pub struct MessageAuthenticatorRadiusPipelinePhase {
    secret: Vec<u8>,
}

impl View for MessageAuthenticatorRadiusPipelinePhase {
    type V = Seq<u8>;

    /// The shared secret's bytes.
    closed spec fn view(&self) -> Seq<u8> {
        self.secret@
    }
}

impl MessageAuthenticatorRadiusPipelinePhase {
    pub fn new(secret: &str) -> (phase: Self)
        ensures
            phase@ == secret.spec_bytes(),
    {
        Self { secret: vstd::slice::slice_to_vec(secret.as_bytes()) }
    }
}

impl RadiusPipelinePhase for MessageAuthenticatorRadiusPipelinePhase {
    /// Records whether the packet's first Message-Authenticator is `Valid` or `Invalid`
    /// under the secret, or `NotFound`; nothing else changes.
    fn process(&mut self, packet_container: &mut RadiusPacketContainer) -> (result: Result<
        (),
        RadiusPipelineError,
    >)
        ensures
            result is Ok,
            *final(self) == *old(self),
            final(packet_container)@ == with_message_authenticator_status(
                old(self)@,
                old(packet_container)@,
            ),
    {
        let status = compute_message_authenticator_status(
            packet_container.packet(),
            self.secret.as_slice(),
        );
        packet_container.set_metadata(status);
        Ok(())
    }
}

} // verus!
