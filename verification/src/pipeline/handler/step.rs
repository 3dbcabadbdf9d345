use crate::pipeline::{RadiusPipelinePhaseCode, RadiusPipelineStep, RadiusPipelineStepAction};
use crate::pipeline::handler::RadiusHandlerError;
use crate::pipeline::handler::message_authenticator::{
    MessageAuthenticatorRadiusHandlerPipelineStep, discards_for_status,
};
use crate::pipeline::handler::phase::RadiusHandlerPhaseCode;
use crate::pipeline::input::message_authenticator::MessageAuthenticatorStatus;
use crate::radius::container::{
    RadiusPacketContainerView, RadiusPacketInputContainer, RadiusPacketOutputContainer,
};
use crate::radius::metadata::RadiusPacketMetadata;
use vstd::prelude::*;

verus! {

/// A step of the pipeline that decides what to answer to a received packet.
pub enum RadiusHandlerStep {
    MessageAuthenticator(MessageAuthenticatorRadiusHandlerPipelineStep),
}

/// A step of the handler pipeline as a mathematical value: its kind.
pub enum RadiusHandlerStepView {
    MessageAuthenticator,
}

impl View for RadiusHandlerStep {
    type V = RadiusHandlerStepView;

    open spec fn view(&self) -> RadiusHandlerStepView {
        match self {
            RadiusHandlerStep::MessageAuthenticator(_) => RadiusHandlerStepView::MessageAuthenticator,
        }
    }
}

impl RadiusHandlerStep {
    pub fn phase_code(&self) -> (phase_code: RadiusHandlerPhaseCode)
        ensures
            phase_code == RadiusHandlerPhaseCode::Validation,
    {
        match self {
            RadiusHandlerStep::MessageAuthenticator(step) => step.phase_code(),
        }
    }
}

impl RadiusPipelineStep for RadiusHandlerStep {
    type Target = RadiusPacketInputContainer;
    type Context = ();
    type Accept = RadiusPacketOutputContainer;
    type Error = RadiusHandlerError;

    open spec fn spec_phase_key(state: RadiusHandlerStepView) -> int {
        RadiusHandlerPhaseCode::Validation.spec_order_key()
    }

    open spec fn spec_kind(state: RadiusHandlerStepView) -> int {
        0
    }

    open spec fn spec_ready(
        state: RadiusHandlerStepView,
        target: RadiusPacketContainerView,
        context: (),
    ) -> bool {
        true
    }

    open spec fn spec_process(
        state: RadiusHandlerStepView,
        target: RadiusPacketContainerView,
        context: (),
    ) -> (RadiusHandlerStepView, RadiusPacketContainerView, Result<
        RadiusPipelineStepAction<RadiusPacketContainerView>,
        RadiusHandlerError,
    >) {
        (
            state,
            target,
            if discards_for_status(MessageAuthenticatorStatus::spec_stored(target.metadata)) {
                Ok(RadiusPipelineStepAction::DiscardTarget)
            } else {
                Ok(RadiusPipelineStepAction::NextStep)
            },
        )
    }

    proof fn lemma_process_keeps_key(
        state: RadiusHandlerStepView,
        target: RadiusPacketContainerView,
        context: (),
    ) {
    }

    fn name(&self) -> (name: String)
        ensures
            name@ == "Message-Authenticator"@,
    {
        match self {
            RadiusHandlerStep::MessageAuthenticator(step) => step.name(),
        }
    }

    fn phase_key(&self) -> (key: u128) {
        self.phase_code().order_key()
    }

    fn kind(&self) -> (kind: u64) {
        0
    }

    fn process(&mut self, target: &mut RadiusPacketInputContainer, context: &()) -> (outcome:
        Result<RadiusPipelineStepAction<RadiusPacketOutputContainer>, RadiusHandlerError>) {
        match self {
            RadiusHandlerStep::MessageAuthenticator(step) => step.process(target),
        }
    }
}

} // verus!
