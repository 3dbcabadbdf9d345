use crate::bytes::extend_bytes;
use crate::eap::{EapPacket, eap_packet_decode, eap_packet_parse_panics};
use crate::pipeline::input::RadiusInputError;
use crate::pipeline::input::phase::RadiusInputPhaseCode;
use crate::radius::{RadiusPacket, RadiusPacketView};
use crate::radius::attribute::{
    RadiusPacketAttribute, RadiusPacketAttributeType, RadiusPacketAttributeView,
    attributes_of_type, lemma_attributes_of_type_membership,
};
use crate::radius::container::{RadiusPacketContainerView, RadiusPacketInputContainer};
use crate::radius::metadata::RadiusPacketMetadata;
use vstd::prelude::*;

verus! {

/// The values of the attributes, one after the other.
pub open spec fn concatenated_values(attributes: Seq<RadiusPacketAttributeView>) -> Seq<u8>
    decreases attributes.len(),
{
    if attributes.len() == 0 {
        Seq::empty()
    } else {
        concatenated_values(attributes.drop_last()) + attributes.last().1
    }
}

/// The EAP message that a packet carries: its EAP-Message values, one after the other.
pub open spec fn eap_message(packet: RadiusPacketView) -> Seq<u8> {
    concatenated_values(
        attributes_of_type(packet.attributes, RadiusPacketAttributeType::EAPMessage),
    )
}

/// The container with the EAP packet its EAP-Message attributes hold, where they hold one;
/// otherwise unchanged.
pub open spec fn with_eap_packet(container: RadiusPacketContainerView) -> RadiusPacketContainerView {
    match eap_packet_decode(eap_message(container.packet)) {
        Ok(eap_packet) => RadiusPacketContainerView {
            metadata: EapPacket::spec_with(container.metadata, Some(eap_packet)),
            ..container
        },
        Err(_) => container,
    }
}

/// Joins the values of the EAP-Message attributes of the packet.
pub fn collect_eap_message(packet: &RadiusPacket) -> (message: Vec<u8>)
    ensures
        message@ == eap_message(packet@),
{
    let found = packet.attributes().get(RadiusPacketAttributeType::EAPMessage);
    let ghost views = found@.map_values(|attribute: &RadiusPacketAttribute| attribute@);
    let mut message: Vec<u8> = Vec::new();
    let mut i: usize = 0;
    while i < found.len()
        invariant
            i <= found@.len(),
            views == found@.map_values(|attribute: &RadiusPacketAttribute| attribute@),
            message@ == concatenated_values(views.take(i as int)),
        decreases found@.len() - i,
    {
        proof {
            assert(views.take(i + 1).drop_last() =~= views.take(i as int));
            assert(views[i as int] == found@[i as int]@);
        }
        extend_bytes(&mut message, found[i].value());
        i = i + 1;
    }
    assert(views.take(i as int) =~= views);
    message
}

/// Reads the EAP packet that the EAP-Message attributes of a received packet carry.
pub struct EapPacketRadiusInputPipelineStep {}

impl EapPacketRadiusInputPipelineStep {
    pub fn new() -> (step: Self) {
        Self {  }
    }

    pub fn name(&self) -> (name: String)
        ensures
            name@ == "EAP-Message"@,
    {
        "EAP-Message".to_owned()
    }

    pub fn phase_code(&self) -> (phase_code: RadiusInputPhaseCode)
        ensures
            phase_code == RadiusInputPhaseCode::RadiusLayer,
    {
        RadiusInputPhaseCode::RadiusLayer
    }

    /// Whether `process` can read the EAP message of the container: not when the message has
    /// a whole header whose length field is below the header size.
    pub fn can_process(&self, packet_container: &RadiusPacketInputContainer) -> (ready: bool)
        ensures
            ready == !eap_packet_parse_panics(eap_message(packet_container@.packet)),
    {
        let message = collect_eap_message(packet_container.packet());
        !EapPacket::parse_would_panic(message.as_slice())
    }

    /// Records the EAP packet that the EAP-Message values form; where they form none (no
    /// such attribute, too few bytes), the container stays as it was.
    pub fn process(&mut self, packet_container: &mut RadiusPacketInputContainer) -> (result:
        Result<(), RadiusInputError>)
        requires
            !eap_packet_parse_panics(eap_message(old(packet_container)@.packet)),
        ensures
            result is Ok,
            final(packet_container)@ == with_eap_packet(old(packet_container)@),
    {
        if !packet_container.packet().attributes().has(RadiusPacketAttributeType::EAPMessage) {
            proof {
                lemma_attributes_of_type_membership(
                    packet_container@.packet.attributes,
                    RadiusPacketAttributeType::EAPMessage,
                );
            }
            assert(attributes_of_type(
                packet_container@.packet.attributes,
                RadiusPacketAttributeType::EAPMessage,
            ).len() == 0);
            return Ok(());
        }
        let message = collect_eap_message(packet_container.packet());
        match EapPacket::parse(message.as_slice()) {
            Ok(eap_packet) => {
                packet_container.set_metadata(eap_packet);
                Ok(())
            },
            Err(_) => Ok(()),
        }
    }
}

} // verus!
