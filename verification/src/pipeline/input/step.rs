use crate::eap::eap_packet_parse_panics;
use crate::pipeline::{
    RadiusPipelinePhaseCode, RadiusPipelineStep, RadiusPipelineStepAction, has_step,
};
use crate::pipeline::input::RadiusInputError;
use crate::pipeline::input::eap_packet::{
    EapPacketRadiusInputPipelineStep, eap_message, with_eap_packet,
};
use crate::pipeline::input::eap_type_identity::{
    EapTypeIdentityRadiusInputPipelineStep, with_eap_identity,
};
use crate::pipeline::input::eap_type_md5_challenge::{
    EapTypeMD5ChallengeRadiusInputPipelineStep, with_md5_challenge,
};
use crate::pipeline::input::message_authenticator::{
    MessageAuthenticatorRadiusInputPipelineStep, with_message_authenticator_status,
};
use crate::pipeline::input::phase::RadiusInputPhaseCode;
use crate::radius::container::{RadiusPacketContainerView, RadiusPacketInputContainer};
use vstd::prelude::*;

verus! {

/// A step of the pipeline that reads received packets.
pub enum RadiusInputStep {
    MessageAuthenticator(MessageAuthenticatorRadiusInputPipelineStep),
    EapPacket(EapPacketRadiusInputPipelineStep),
    EapTypeIdentity(EapTypeIdentityRadiusInputPipelineStep),
    EapTypeMD5Challenge(EapTypeMD5ChallengeRadiusInputPipelineStep),
}

/// A step of the input pipeline as a mathematical value: its kind, with the shared secret
/// where it has one.
pub enum RadiusInputStepView {
    MessageAuthenticator(Seq<u8>),
    EapPacket,
    EapTypeIdentity,
    EapTypeMD5Challenge,
}

impl View for RadiusInputStep {
    type V = RadiusInputStepView;

    open spec fn view(&self) -> RadiusInputStepView {
        match self {
            RadiusInputStep::MessageAuthenticator(step) => RadiusInputStepView::MessageAuthenticator(
                step@,
            ),
            RadiusInputStep::EapPacket(_) => RadiusInputStepView::EapPacket,
            RadiusInputStep::EapTypeIdentity(_) => RadiusInputStepView::EapTypeIdentity,
            RadiusInputStep::EapTypeMD5Challenge(_) => RadiusInputStepView::EapTypeMD5Challenge,
        }
    }
}

/// The phase of each kind of input step.
pub open spec fn input_step_phase(state: RadiusInputStepView) -> RadiusInputPhaseCode {
    match state {
        RadiusInputStepView::MessageAuthenticator(_) => RadiusInputPhaseCode::RadiusLayer,
        RadiusInputStepView::EapPacket => RadiusInputPhaseCode::RadiusLayer,
        RadiusInputStepView::EapTypeIdentity => RadiusInputPhaseCode::EapLayer,
        RadiusInputStepView::EapTypeMD5Challenge => RadiusInputPhaseCode::EapLayer,
    }
}

impl RadiusInputStep {
    pub fn phase_code(&self) -> (phase_code: RadiusInputPhaseCode)
        ensures
            phase_code == input_step_phase(self@),
    {
        match self {
            RadiusInputStep::MessageAuthenticator(step) => step.phase_code(),
            RadiusInputStep::EapPacket(step) => step.phase_code(),
            RadiusInputStep::EapTypeIdentity(step) => step.phase_code(),
            RadiusInputStep::EapTypeMD5Challenge(step) => step.phase_code(),
        }
    }
}

impl RadiusPipelineStep for RadiusInputStep {
    type Target = RadiusPacketInputContainer;
    type Context = ();
    type Accept = ();
    type Error = RadiusInputError;

    open spec fn spec_phase_key(state: RadiusInputStepView) -> int {
        input_step_phase(state).spec_order_key()
    }

    open spec fn spec_kind(state: RadiusInputStepView) -> int {
        match state {
            RadiusInputStepView::MessageAuthenticator(_) => 0,
            RadiusInputStepView::EapPacket => 1,
            RadiusInputStepView::EapTypeIdentity => 2,
            RadiusInputStepView::EapTypeMD5Challenge => 3,
        }
    }

    open spec fn spec_ready(
        state: RadiusInputStepView,
        target: RadiusPacketContainerView,
        context: (),
    ) -> bool {
        state is EapPacket ==> !eap_packet_parse_panics(eap_message(target.packet))
    }

    open spec fn spec_process(
        state: RadiusInputStepView,
        target: RadiusPacketContainerView,
        context: (),
    ) -> (RadiusInputStepView, RadiusPacketContainerView, Result<
        RadiusPipelineStepAction<()>,
        RadiusInputError,
    >) {
        let next_target = match state {
            RadiusInputStepView::MessageAuthenticator(secret) => with_message_authenticator_status(
                secret,
                target,
            ),
            RadiusInputStepView::EapPacket => with_eap_packet(target),
            RadiusInputStepView::EapTypeIdentity => with_eap_identity(target),
            RadiusInputStepView::EapTypeMD5Challenge => with_md5_challenge(target),
        };
        (state, next_target, Ok(RadiusPipelineStepAction::NextStep))
    }

    proof fn lemma_process_keeps_key(
        state: RadiusInputStepView,
        target: RadiusPacketContainerView,
        context: (),
    ) {
    }

    fn name(&self) -> (name: String)
        ensures
            name@ == match self@ {
                RadiusInputStepView::MessageAuthenticator(_) => "Message-Authenticator"@,
                RadiusInputStepView::EapPacket => "EAP-Message"@,
                RadiusInputStepView::EapTypeIdentity => "EAP-Message/Identity"@,
                RadiusInputStepView::EapTypeMD5Challenge => "MD5-Challenge"@,
            },
    {
        match self {
            RadiusInputStep::MessageAuthenticator(step) => step.name(),
            RadiusInputStep::EapPacket(step) => step.name(),
            RadiusInputStep::EapTypeIdentity(step) => step.name(),
            RadiusInputStep::EapTypeMD5Challenge(step) => step.name(),
        }
    }

    fn phase_key(&self) -> (key: u128) {
        self.phase_code().order_key()
    }

    fn kind(&self) -> (kind: u64) {
        match self {
            RadiusInputStep::MessageAuthenticator(_) => 0,
            RadiusInputStep::EapPacket(_) => 1,
            RadiusInputStep::EapTypeIdentity(_) => 2,
            RadiusInputStep::EapTypeMD5Challenge(_) => 3,
        }
    }

    fn process(&mut self, target: &mut RadiusPacketInputContainer, context: &()) -> (outcome:
        Result<RadiusPipelineStepAction<()>, RadiusInputError>) {
        let result = match self {
            RadiusInputStep::MessageAuthenticator(step) => step.process(target),
            RadiusInputStep::EapPacket(step) => step.process(target),
            RadiusInputStep::EapTypeIdentity(step) => step.process(target),
            RadiusInputStep::EapTypeMD5Challenge(step) => step.process(target),
        };
        match result {
            Ok(()) => Ok(RadiusPipelineStepAction::NextStep),
            Err(error) => Err(error),
        }
    }
}


/// Whether two input steps are of the same type.
pub open spec fn same_input_step_type(a: RadiusInputStepView, b: RadiusInputStepView) -> bool {
    (a is MessageAuthenticator && b is MessageAuthenticator) || (a is EapPacket && b is EapPacket) || (a is EapTypeIdentity && b is EapTypeIdentity) || (a is EapTypeMD5Challenge && b is EapTypeMD5Challenge)
}

/// Steps of different types have different kinds, so a phase can hold one step of each type:
/// inserting a step succeeds when no step of its type stands in its phase.
pub proof fn lemma_input_step_kinds_tell_types_apart(
    a: RadiusInputStepView,
    b: RadiusInputStepView,
    steps: Seq<RadiusInputStepView>,
)
    ensures
        <RadiusInputStep as RadiusPipelineStep>::spec_kind(a) == <RadiusInputStep as RadiusPipelineStep>::spec_kind(
            b,
        ) <==> same_input_step_type(a, b),
        (forall|i: int|
            0 <= i < steps.len() && <RadiusInputStep as RadiusPipelineStep>::spec_phase_key(#[trigger] steps[i])
                == <RadiusInputStep as RadiusPipelineStep>::spec_phase_key(a) ==> !same_input_step_type(
                steps[i],
                a,
            )) ==> !has_step::<RadiusInputStep>(
            steps,
            <RadiusInputStep as RadiusPipelineStep>::spec_phase_key(a),
            <RadiusInputStep as RadiusPipelineStep>::spec_kind(a),
        ),
{
}

} // verus!
