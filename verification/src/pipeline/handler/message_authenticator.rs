use crate::pipeline::RadiusPipelineStepAction;
use crate::pipeline::handler::RadiusHandlerError;
use crate::pipeline::handler::phase::RadiusHandlerPhaseCode;
use crate::pipeline::input::message_authenticator::MessageAuthenticatorStatus;
use crate::radius::container::{RadiusPacketInputContainer, RadiusPacketOutputContainer};
use crate::radius::metadata::RadiusPacketMetadata;
use vstd::prelude::*;

verus! {

/// Whether a packet with this recorded Message-Authenticator status is dropped: exactly when
/// the status is `Invalid`.
pub open spec fn discards_for_status(status: Option<MessageAuthenticatorStatus>) -> bool {
    status == Some(MessageAuthenticatorStatus::Invalid)
}

/// Drops received packets whose Message-Authenticator was found invalid.
pub struct MessageAuthenticatorRadiusHandlerPipelineStep {}

impl MessageAuthenticatorRadiusHandlerPipelineStep {
    pub fn new() -> (step: Self) {
        Self {  }
    }

    pub fn name(&self) -> (name: String)
        ensures
            name@ == "Message-Authenticator"@,
    {
        "Message-Authenticator".to_owned()
    }

    pub fn phase_code(&self) -> (phase_code: RadiusHandlerPhaseCode)
        ensures
            phase_code == RadiusHandlerPhaseCode::Validation,
    {
        RadiusHandlerPhaseCode::Validation
    }

    /// Discards the packet when its Message-Authenticator status is `Invalid`; otherwise, valid,
    /// not found or not checked, lets the next step decide.
    pub fn process(&mut self, packet_container: &RadiusPacketInputContainer) -> (result: Result<
        RadiusPipelineStepAction<RadiusPacketOutputContainer>,
        RadiusHandlerError,
    >)
        ensures
            discards_for_status(
                MessageAuthenticatorStatus::spec_stored(packet_container@.metadata),
            ) ==> result matches Ok(RadiusPipelineStepAction::DiscardTarget),
            !discards_for_status(
                MessageAuthenticatorStatus::spec_stored(packet_container@.metadata),
            ) ==> result matches Ok(RadiusPipelineStepAction::NextStep),
    {
        match packet_container.get_metadata::<MessageAuthenticatorStatus>() {
            Some(MessageAuthenticatorStatus::Valid) => Ok(RadiusPipelineStepAction::NextStep),
            Some(MessageAuthenticatorStatus::Invalid) => Ok(
                RadiusPipelineStepAction::DiscardTarget,
            ),
            _ => Ok(RadiusPipelineStepAction::NextStep),
        }
    }
}

} // verus!
