use crate::chap::data::ChapPacketData;
use crate::identifier::pool::{EapIdentifierPool, IdentifierPoolView};
use crate::pipeline::output::{RadiusOutputError, record_md5_challenge_request, request_md5_challenge};
use crate::pipeline::output::phase::RadiusOutputPhaseCode;
use crate::radius::container::{
    RadiusPacketContainerView, RadiusPacketInputContainer, RadiusPacketOutputContainer,
};
use crate::radius::metadata::RadiusPacketMetadata;
use vstd::prelude::*;

verus! {

/// What the step does to its pool and the output container at time `now`: the CHAP data
/// metadata is taken; where there was one, an EAP request carrying it is asked for.
pub open spec fn chap_packet_output(
    pool: IdentifierPoolView,
    container: RadiusPacketContainerView,
    now: u64,
) -> (IdentifierPoolView, RadiusPacketContainerView, Result<(), RadiusOutputError>) {
    match container.metadata.chap_packet_data {
        Some(data) => request_md5_challenge(
            pool,
            RadiusPacketContainerView {
                metadata: ChapPacketData::spec_with(container.metadata, None),
                ..container
            },
            data,
            now,
        ),
        None => (pool, container, Ok(())),
    }
}

/// Turns the CHAP data metadata of a packet being built into the EAP request to send.
pub struct ChapPacketRadiusOutputPipelineStep {
    eap_identifier_pool: EapIdentifierPool,
}

impl View for ChapPacketRadiusOutputPipelineStep {
    type V = IdentifierPoolView;

    /// The state of the step's identifier pool.
    closed spec fn view(&self) -> IdentifierPoolView {
        self.eap_identifier_pool.0@
    }
}

impl ChapPacketRadiusOutputPipelineStep {
    pub fn new(eap_identifier_pool: EapIdentifierPool) -> (step: Self)
        ensures
            step@ == eap_identifier_pool.0@,
    {
        Self { eap_identifier_pool }
    }

    pub fn name(&self) -> (name: String)
        ensures
            name@ == "ChapPacket"@,
    {
        "ChapPacket".to_owned()
    }

    pub fn phase_code(&self) -> (phase_code: RadiusOutputPhaseCode)
        ensures
            phase_code == RadiusOutputPhaseCode::EapLayer,
    {
        RadiusOutputPhaseCode::EapLayer
    }

    /// Takes the CHAP data metadata and, where the container holds no EAP packet, records an
    /// EAP request carrying it with an identifier from the pool allocated at `now`.
    pub fn process(
        &mut self,
        output_packet_container: &mut RadiusPacketOutputContainer,
        _input_packet_container: &RadiusPacketInputContainer,
        now: u64,
    ) -> (result: Result<(), RadiusOutputError>)
        ensures
            (final(self)@, final(output_packet_container)@, result) == chap_packet_output(
                old(self)@,
                old(output_packet_container)@,
                now,
            ),
    {
        match output_packet_container.take_metadata::<ChapPacketData>() {
            Some(chap_packet_data) => {
                let ghost data = chap_packet_data@;
                let data_bytes = Vec::from(chap_packet_data);
                record_md5_challenge_request(
                    &mut self.eap_identifier_pool,
                    output_packet_container,
                    Ghost(data),
                    data_bytes,
                    now,
                )
            },
            None => Ok(()),
        }
    }
}

} // verus!
