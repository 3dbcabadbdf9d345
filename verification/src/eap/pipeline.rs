use crate::eap::{EapPacket, eap_packet_decode, eap_packet_parse_panics};
use crate::pipeline::RadiusPipelineError;
use crate::pipeline::input::eap_packet::{collect_eap_message, eap_message};
use crate::radius::attribute::{
    RadiusPacketAttributeType, count_of_type, lemma_attributes_of_type_membership,
};
use crate::radius::container::{RadiusPacketContainer, RadiusPacketContainerView};
use crate::radius::metadata::RadiusPacketMetadata;
use vstd::prelude::*;

verus! {

/// What reading the EAP message of a container gives: the container with the EAP packet
/// recorded and success; the container unchanged and success where the packet has no
/// EAP-Message attribute; the container unchanged and the reading error otherwise.
pub open spec fn eap_pipeline_outcome(container: RadiusPacketContainerView) -> (
    RadiusPacketContainerView,
    Result<(), RadiusPipelineError>,
) {
    if count_of_type(container.packet.attributes, RadiusPacketAttributeType::EAPMessage) == 0 {
        (container, Ok(()))
    } else {
        match eap_packet_decode(eap_message(container.packet)) {
            Ok(eap_packet) => (
                RadiusPacketContainerView {
                    metadata: EapPacket::spec_with(container.metadata, Some(eap_packet)),
                    ..container
                },
                Ok(()),
            ),
            Err(error) => (container, Err(RadiusPipelineError::EapPacket(error))),
        }
    }
}

/// Reads the EAP packet that the EAP-Message attributes of a received packet carry.
pub struct EapRadiusPipeline {}

impl EapRadiusPipeline {
    pub fn new() -> (pipeline: Self) {
        Self {  }
    }

    /// Records the EAP packet that the EAP-Message values form, and fails where they form none.
    pub fn process(&mut self, packet_container: &mut RadiusPacketContainer) -> (result: Result<
        (),
        RadiusPipelineError,
    >)
        requires
            !eap_packet_parse_panics(eap_message(old(packet_container)@.packet)),
        ensures
            (final(packet_container)@, result) == eap_pipeline_outcome(old(packet_container)@),
    {
        proof {
            lemma_attributes_of_type_membership(
                packet_container@.packet.attributes,
                RadiusPacketAttributeType::EAPMessage,
            );
        }
        if !packet_container.packet().attributes().has(RadiusPacketAttributeType::EAPMessage) {
            return Ok(());
        }
        let message = collect_eap_message(packet_container.packet());
        match EapPacket::parse(message.as_slice()) {
            Ok(eap_packet) => {
                packet_container.set_metadata(eap_packet);
                Ok(())
            },
            Err(error) => Err(RadiusPipelineError::from(error)),
        }
    }
}

} // verus!
