use crate::eap::{
    EapPacket, EapPacketView, eap_packet_encode, eap_packet_is_encodable, eap_packet_parse_panics,
    lemma_eap_data_encode_length, lemma_eap_packet_decode_encode,
};
use crate::pipeline::input::eap_packet::{concatenated_values, eap_message, with_eap_packet};
use crate::pipeline::output::RadiusOutputError;
use crate::pipeline::output::phase::RadiusOutputPhaseCode;
use crate::radius::RadiusPacketView;
use crate::radius::attribute::{
    RadiusPacketAttribute, RadiusPacketAttributeType, RadiusPacketAttributeView,
    attributes_of_type, count_of_type, lemma_attributes_of_type_membership, lemma_filters_push,
};
use crate::radius::container::{
    RadiusPacketContainerView, RadiusPacketInputContainer, RadiusPacketOutputContainer,
};
use crate::radius::metadata::RadiusPacketMetadata;
use vstd::prelude::*;

verus! {

/// What the step does to the output container: the EAP packet metadata is taken, and where
/// there was one and the packet has no EAP-Message attribute yet, one that holds the EAP
/// packet's bytes is appended.
pub open spec fn with_eap_message(container: RadiusPacketContainerView) -> RadiusPacketContainerView {
    match container.metadata.eap_packet {
        Some(eap_packet) => {
            let taken = RadiusPacketContainerView {
                metadata: EapPacket::spec_with(container.metadata, None),
                ..container
            };
            if count_of_type(container.packet.attributes, RadiusPacketAttributeType::EAPMessage)
                > 0 {
                taken
            } else {
                RadiusPacketContainerView {
                    packet: RadiusPacketView {
                        attributes: container.packet.attributes.push(
                            (RadiusPacketAttributeType::EAPMessage, eap_packet_encode(eap_packet)),
                        ),
                        ..container.packet
                    },
                    ..taken
                }
            }
        },
        None => container,
    }
}

/// An EAP packet written into a packet that had no EAP-Message attribute is read back
/// unchanged by the step that reads EAP messages of received packets.
pub proof fn lemma_eap_message_reads_back(
    container: RadiusPacketContainerView,
    eap_packet: EapPacketView,
)
    requires
        container.metadata.eap_packet == Some(eap_packet),
        eap_packet_is_encodable(eap_packet),
        count_of_type(container.packet.attributes, RadiusPacketAttributeType::EAPMessage) == 0,
    ensures
        eap_message(with_eap_message(container).packet) == eap_packet_encode(eap_packet),
        !eap_packet_parse_panics(eap_message(with_eap_message(container).packet)),
        with_eap_packet(with_eap_message(container)).metadata.eap_packet == Some(eap_packet),
{
    let sent = with_eap_message(container);
    let attribute = (RadiusPacketAttributeType::EAPMessage, eap_packet_encode(eap_packet));
    lemma_filters_push(
        container.packet.attributes,
        attribute,
        RadiusPacketAttributeType::EAPMessage,
    );
    let found = attributes_of_type(sent.packet.attributes, RadiusPacketAttributeType::EAPMessage);
    assert(found =~= seq![attribute]);
    assert(found.drop_last() =~= Seq::<RadiusPacketAttributeView>::empty());
    assert(concatenated_values(found.drop_last()) =~= Seq::<u8>::empty());
    assert(found.last() == attribute);
    assert(concatenated_values(found) =~= Seq::<u8>::empty() + attribute.1);
    assert(concatenated_values(found) =~= eap_packet_encode(eap_packet));
    lemma_eap_packet_decode_encode(eap_packet);
    lemma_eap_data_encode_length(eap_packet.data);
}

/// Writes the EAP packet of a packet being built into its EAP-Message attribute.
pub struct EapMessageRadiusOutputPipelineStep {}

impl EapMessageRadiusOutputPipelineStep {
    pub fn new() -> (step: Self) {
        Self {  }
    }

    pub fn name(&self) -> (name: String)
        ensures
            name@ == "EAP-Message"@,
    {
        "EAP-Message".to_owned()
    }

    pub fn phase_code(&self) -> (phase_code: RadiusOutputPhaseCode)
        ensures
            phase_code == RadiusOutputPhaseCode::RadiusLayer,
    {
        RadiusOutputPhaseCode::RadiusLayer
    }

    /// Takes the EAP packet metadata and, where the packet has no EAP-Message attribute yet,
    /// appends one that holds the EAP packet's bytes.
    pub fn process(
        &mut self,
        output_packet_container: &mut RadiusPacketOutputContainer,
        _input_packet_container: &RadiusPacketInputContainer,
    ) -> (result: Result<(), RadiusOutputError>)
        ensures
            result is Ok,
            final(output_packet_container)@ == with_eap_message(old(output_packet_container)@),
    {
        match output_packet_container.take_metadata::<EapPacket>() {
            Some(eap_packet) => {
                let packet = output_packet_container.packet_mut();
                let attributes = packet.attributes_mut();
                proof {
                    lemma_attributes_of_type_membership(
                        attributes@,
                        RadiusPacketAttributeType::EAPMessage,
                    );
                }
                if !attributes.has(RadiusPacketAttributeType::EAPMessage) {
                    attributes.push(
                        RadiusPacketAttribute::from_tag_and_value(
                            RadiusPacketAttributeType::EAPMessage,
                            Vec::from(eap_packet),
                        ),
                    );
                }
                Ok(())
            },
            None => Ok(()),
        }
    }
}

} // verus!
