use crate::identifier::pool::IdentifierPoolView;
use crate::pipeline::{
    RadiusPipelinePhaseCode, RadiusPipelineStep, RadiusPipelineStepAction, has_step,
};
use crate::pipeline::output::RadiusOutputError;
use crate::pipeline::output::chap_packet::{ChapPacketRadiusOutputPipelineStep, chap_packet_output};
use crate::pipeline::output::eap_message::{EapMessageRadiusOutputPipelineStep, with_eap_message};
use crate::pipeline::output::eap_type_md5_challenge::{
    EapTypeMD5ChallengeRadiusOutputPipelineStep, md5_challenge_output,
};
use crate::pipeline::output::message_authenticator::{
    MessageAuthenticatorRadiusOutputPipelineStep, with_signed_packet,
};
use crate::pipeline::output::phase::RadiusOutputPhaseCode;
use crate::radius::container::{
    RadiusPacketContainerView, RadiusPacketInputContainer, RadiusPacketOutputContainer,
};
use vstd::prelude::*;

verus! {

/// What the steps that build a packet to send read besides it: the received packet it
/// answers, and the time in nanoseconds on the clock that the identifier pools use.
pub struct RadiusOutputContext {
    pub input_packet_container: RadiusPacketInputContainer,
    pub now: u64,
}

impl View for RadiusOutputContext {
    type V = (RadiusPacketContainerView, u64);

    open spec fn view(&self) -> (RadiusPacketContainerView, u64) {
        (self.input_packet_container@, self.now)
    }
}

/// A step of the pipeline that builds packets to send.
pub enum RadiusOutputStep {
    EapTypeMD5Challenge(EapTypeMD5ChallengeRadiusOutputPipelineStep),
    ChapPacket(ChapPacketRadiusOutputPipelineStep),
    EapMessage(EapMessageRadiusOutputPipelineStep),
    MessageAuthenticator(MessageAuthenticatorRadiusOutputPipelineStep),
}

/// A step of the output pipeline as a mathematical value: its kind, with its identifier pool
/// or shared secret where it has one.
pub enum RadiusOutputStepView {
    EapTypeMD5Challenge(IdentifierPoolView),
    ChapPacket(IdentifierPoolView),
    EapMessage,
    MessageAuthenticator(Seq<u8>),
}

impl View for RadiusOutputStep {
    type V = RadiusOutputStepView;

    open spec fn view(&self) -> RadiusOutputStepView {
        match self {
            RadiusOutputStep::EapTypeMD5Challenge(step) => RadiusOutputStepView::EapTypeMD5Challenge(
                step@,
            ),
            RadiusOutputStep::ChapPacket(step) => RadiusOutputStepView::ChapPacket(step@),
            RadiusOutputStep::EapMessage(_) => RadiusOutputStepView::EapMessage,
            RadiusOutputStep::MessageAuthenticator(step) => RadiusOutputStepView::MessageAuthenticator(
                step@,
            ),
        }
    }
}

/// The phase of each kind of output step.
pub open spec fn output_step_phase(state: RadiusOutputStepView) -> RadiusOutputPhaseCode {
    match state {
        RadiusOutputStepView::EapTypeMD5Challenge(_) => RadiusOutputPhaseCode::EapLayer,
        RadiusOutputStepView::ChapPacket(_) => RadiusOutputPhaseCode::EapLayer,
        RadiusOutputStepView::EapMessage => RadiusOutputPhaseCode::RadiusLayer,
        RadiusOutputStepView::MessageAuthenticator(_) => RadiusOutputPhaseCode::MessageAuthenticator,
    }
}

impl RadiusOutputStep {
    pub fn phase_code(&self) -> (phase_code: RadiusOutputPhaseCode)
        ensures
            phase_code == output_step_phase(self@),
    {
        match self {
            RadiusOutputStep::EapTypeMD5Challenge(step) => step.phase_code(),
            RadiusOutputStep::ChapPacket(step) => step.phase_code(),
            RadiusOutputStep::EapMessage(step) => step.phase_code(),
            RadiusOutputStep::MessageAuthenticator(step) => step.phase_code(),
        }
    }
}

impl RadiusPipelineStep for RadiusOutputStep {
    type Target = RadiusPacketOutputContainer;
    type Context = RadiusOutputContext;
    type Accept = ();
    type Error = RadiusOutputError;

    open spec fn spec_phase_key(state: RadiusOutputStepView) -> int {
        output_step_phase(state).spec_order_key()
    }

    open spec fn spec_kind(state: RadiusOutputStepView) -> int {
        match state {
            RadiusOutputStepView::EapTypeMD5Challenge(_) => 0,
            RadiusOutputStepView::ChapPacket(_) => 1,
            RadiusOutputStepView::EapMessage => 2,
            RadiusOutputStepView::MessageAuthenticator(_) => 3,
        }
    }

    open spec fn spec_ready(
        state: RadiusOutputStepView,
        target: RadiusPacketContainerView,
        context: (RadiusPacketContainerView, u64),
    ) -> bool {
        true
    }

    open spec fn spec_process(
        state: RadiusOutputStepView,
        target: RadiusPacketContainerView,
        context: (RadiusPacketContainerView, u64),
    ) -> (RadiusOutputStepView, RadiusPacketContainerView, Result<
        RadiusPipelineStepAction<()>,
        RadiusOutputError,
    >) {
        let (input, now) = context;
        let (next_state, next_target, result) = match state {
            RadiusOutputStepView::EapTypeMD5Challenge(pool) => {
                let (next_pool, next_target, result) = md5_challenge_output(pool, target, now);
                (RadiusOutputStepView::EapTypeMD5Challenge(next_pool), next_target, result)
            },
            RadiusOutputStepView::ChapPacket(pool) => {
                let (next_pool, next_target, result) = chap_packet_output(pool, target, now);
                (RadiusOutputStepView::ChapPacket(next_pool), next_target, result)
            },
            RadiusOutputStepView::EapMessage => (state, with_eap_message(target), Ok(())),
            RadiusOutputStepView::MessageAuthenticator(secret) => (
                state,
                with_signed_packet(secret, target, input.packet.authenticator),
                Ok(()),
            ),
        };
        (
            next_state,
            next_target,
            match result {
                Ok(()) => Ok(RadiusPipelineStepAction::NextStep),
                Err(error) => Err(error),
            },
        )
    }

    proof fn lemma_process_keeps_key(
        state: RadiusOutputStepView,
        target: RadiusPacketContainerView,
        context: (RadiusPacketContainerView, u64),
    ) {
    }

    fn name(&self) -> (name: String)
        ensures
            name@ == match self@ {
                RadiusOutputStepView::EapTypeMD5Challenge(_) => "MD5-Challenge"@,
                RadiusOutputStepView::ChapPacket(_) => "ChapPacket"@,
                RadiusOutputStepView::EapMessage => "EAP-Message"@,
                RadiusOutputStepView::MessageAuthenticator(_) => "Sign"@,
            },
    {
        match self {
            RadiusOutputStep::EapTypeMD5Challenge(step) => step.name(),
            RadiusOutputStep::ChapPacket(step) => step.name(),
            RadiusOutputStep::EapMessage(step) => step.name(),
            RadiusOutputStep::MessageAuthenticator(step) => step.name(),
        }
    }

    fn phase_key(&self) -> (key: u128) {
        self.phase_code().order_key()
    }

    fn kind(&self) -> (kind: u64) {
        match self {
            RadiusOutputStep::EapTypeMD5Challenge(_) => 0,
            RadiusOutputStep::ChapPacket(_) => 1,
            RadiusOutputStep::EapMessage(_) => 2,
            RadiusOutputStep::MessageAuthenticator(_) => 3,
        }
    }

    fn process(&mut self, target: &mut RadiusPacketOutputContainer, context: &RadiusOutputContext) -> (outcome:
        Result<RadiusPipelineStepAction<()>, RadiusOutputError>) {
        let input = &context.input_packet_container;
        let result = match self {
            RadiusOutputStep::EapTypeMD5Challenge(step) => step.process(target, input, context.now),
            RadiusOutputStep::ChapPacket(step) => step.process(target, input, context.now),
            RadiusOutputStep::EapMessage(step) => step.process(target, input),
            RadiusOutputStep::MessageAuthenticator(step) => step.process(target, input),
        };
        match result {
            Ok(()) => Ok(RadiusPipelineStepAction::NextStep),
            Err(error) => Err(error),
        }
    }
}


/// Whether two output steps are of the same type.
pub open spec fn same_output_step_type(a: RadiusOutputStepView, b: RadiusOutputStepView) -> bool {
    (a is EapTypeMD5Challenge && b is EapTypeMD5Challenge) || (a is ChapPacket && b is ChapPacket) || (a is EapMessage && b is EapMessage) || (a is MessageAuthenticator && b is MessageAuthenticator)
}

/// Steps of different types have different kinds, so a phase can hold one step of each type:
/// inserting a step succeeds when no step of its type stands in its phase.
pub proof fn lemma_output_step_kinds_tell_types_apart(
    a: RadiusOutputStepView,
    b: RadiusOutputStepView,
    steps: Seq<RadiusOutputStepView>,
)
    ensures
        <RadiusOutputStep as RadiusPipelineStep>::spec_kind(a) == <RadiusOutputStep as RadiusPipelineStep>::spec_kind(
            b,
        ) <==> same_output_step_type(a, b),
        (forall|i: int|
            0 <= i < steps.len() && <RadiusOutputStep as RadiusPipelineStep>::spec_phase_key(#[trigger] steps[i])
                == <RadiusOutputStep as RadiusPipelineStep>::spec_phase_key(a) ==> !same_output_step_type(
                steps[i],
                a,
            )) ==> !has_step::<RadiusOutputStep>(
            steps,
            <RadiusOutputStep as RadiusPipelineStep>::spec_phase_key(a),
            <RadiusOutputStep as RadiusPipelineStep>::spec_kind(a),
        ),
{
}

} // verus!
