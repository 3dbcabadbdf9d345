use crate::chap::data::{ChapPacketData, ChapPacketDataView};
use crate::identifier::pool::{EapIdentifierPool, IdentifierPoolView};
use crate::pipeline::input::eap_type_md5_challenge::EapTypeDataMD5Challenge;
use crate::pipeline::output::{RadiusOutputError, record_md5_challenge_request, request_md5_challenge};
use crate::pipeline::output::phase::RadiusOutputPhaseCode;
use crate::radius::container::{
    RadiusPacketContainerView, RadiusPacketInputContainer, RadiusPacketOutputContainer,
};
use crate::radius::metadata::RadiusPacketMetadata;
use vstd::prelude::*;

verus! {

/// What the step does to its pool and the output container at time `now`: the MD5-Challenge
/// metadata is taken; where there was one, an EAP request carrying it as a CHAP challenge is
/// asked for.
pub open spec fn md5_challenge_output(
    pool: IdentifierPoolView,
    container: RadiusPacketContainerView,
    now: u64,
) -> (IdentifierPoolView, RadiusPacketContainerView, Result<(), RadiusOutputError>) {
    match container.metadata.eap_type_data_md5_challenge {
        Some(challenge) => request_md5_challenge(
            pool,
            RadiusPacketContainerView {
                metadata: EapTypeDataMD5Challenge::spec_with(container.metadata, None),
                ..container
            },
            ChapPacketDataView::Challenge { value: challenge.value, name: challenge.name },
            now,
        ),
        None => (pool, container, Ok(())),
    }
}

/// Turns the MD5-Challenge metadata of a packet being built into the EAP request to send.
pub struct EapTypeMD5ChallengeRadiusOutputPipelineStep {
    eap_identifier_pool: EapIdentifierPool,
}

impl View for EapTypeMD5ChallengeRadiusOutputPipelineStep {
    type V = IdentifierPoolView;

    /// The state of the step's identifier pool.
    closed spec fn view(&self) -> IdentifierPoolView {
        self.eap_identifier_pool.0@
    }
}

impl EapTypeMD5ChallengeRadiusOutputPipelineStep {
    pub fn new(eap_identifier_pool: EapIdentifierPool) -> (step: Self)
        ensures
            step@ == eap_identifier_pool.0@,
    {
        Self { eap_identifier_pool }
    }

    pub fn name(&self) -> (name: String)
        ensures
            name@ == "MD5-Challenge"@,
    {
        "MD5-Challenge".to_owned()
    }

    pub fn phase_code(&self) -> (phase_code: RadiusOutputPhaseCode)
        ensures
            phase_code == RadiusOutputPhaseCode::EapLayer,
    {
        RadiusOutputPhaseCode::EapLayer
    }

    /// Takes the MD5-Challenge metadata and, where the container holds no EAP packet, records
    /// an EAP request carrying it with an identifier from the pool allocated at `now`.
    pub fn process(
        &mut self,
        output_packet_container: &mut RadiusPacketOutputContainer,
        _input_packet_container: &RadiusPacketInputContainer,
        now: u64,
    ) -> (result: Result<(), RadiusOutputError>)
        ensures
            (final(self)@, final(output_packet_container)@, result) == md5_challenge_output(
                old(self)@,
                old(output_packet_container)@,
                now,
            ),
    {
        match output_packet_container.take_metadata::<EapTypeDataMD5Challenge>() {
            Some(eap_type_data) => {
                let ghost data = ChapPacketDataView::Challenge {
                    value: eap_type_data.value@,
                    name: eap_type_data.name@,
                };
                let data_bytes = Vec::from(
                    ChapPacketData::Challenge { value: eap_type_data.value, name: eap_type_data.name },
                );
                record_md5_challenge_request(
                    &mut self.eap_identifier_pool,
                    output_packet_container,
                    Ghost(data),
                    data_bytes,
                    now,
                )
            },
            None => Ok(()),
        }
    }
}

} // verus!
