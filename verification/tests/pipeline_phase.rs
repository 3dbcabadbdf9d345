use modrad_radius::eap::data::{EapPacketData, EapPacketTypeData};
use modrad_radius::eap::{EapPacket, EapPacketError};
use modrad_radius::eap::pipeline::EapRadiusPipeline;
use modrad_radius::identifier::EapIdentifier;
use modrad_radius::peer::{RadiusPeer, RemoteAddress};
use modrad_radius::pipeline::input::message_authenticator::MessageAuthenticatorStatus;
use modrad_radius::pipeline::RadiusPipelineError;
use modrad_radius::pipeline_phase::message_authenticator::MessageAuthenticatorRadiusPipelinePhase;
use modrad_radius::pipeline_phase::RadiusPipelinePhase;
use modrad_radius::radius::attribute::{
    RadiusPacketAttribute, RadiusPacketAttributeType, RadiusPacketAttributes,
};
use modrad_radius::radius::code::RadiusPacketCode;
use modrad_radius::radius::container::RadiusPacketContainer;
use modrad_radius::radius::RadiusPacket;

fn container(attributes: RadiusPacketAttributes) -> RadiusPacketContainer {
    RadiusPacketContainer::new(
        RadiusPacket::new(
            RadiusPacketCode::AccessRequest,
            0,
            [1, 2, 3, 4, 5, 6, 7, 8, 9, 10, 11, 12, 13, 14, 15, 16],
            attributes,
        ),
        RadiusPeer::Udp { remote_address: RemoteAddress::V4 { address: 0x7f00_0001, port: 1234 } },
    )
}

fn eap_message(bytes: Vec<u8>) -> RadiusPacketAttributes {
    let mut attributes = RadiusPacketAttributes::new();
    attributes.push(RadiusPacketAttribute::from_tag_and_value(
        RadiusPacketAttributeType::EAPMessage,
        bytes,
    ));
    attributes
}

#[test]
fn eap_pipeline_records_the_eap_packet() {
    let mut target = container(eap_message(vec![2, 220, 0, 13, 1, 106, 111, 104, 110, 95, 100, 111, 101]));
    EapRadiusPipeline::new().process(&mut target).unwrap();
    assert_eq!(
        target.get_metadata::<EapPacket>(),
        Some(&EapPacket::new(
            EapIdentifier(220),
            EapPacketData::Response {
                type_data: EapPacketTypeData::Identity(vec![106, 111, 104, 110, 95, 100, 111, 101]),
            },
        ))
    );
}

#[test]
fn eap_pipeline_fails_on_a_short_eap_message() {
    let mut target = container(eap_message(vec![2, 220, 0, 13, 1]));
    let result = EapRadiusPipeline::new().process(&mut target);
    assert_eq!(result, Err(RadiusPipelineError::EapPacket(EapPacketError::NotEnoughData)));
    assert!(!target.has_metadata::<EapPacket>());
}

#[test]
fn eap_pipeline_without_eap_message_changes_nothing() {
    let mut target = container(RadiusPacketAttributes::new());
    assert_eq!(EapRadiusPipeline::new().process(&mut target), Ok(()));
    assert!(!target.has_metadata::<EapPacket>());
}

#[test]
fn message_authenticator_phase_records_the_status() {
    let mut attributes = RadiusPacketAttributes::new();
    attributes.push(RadiusPacketAttribute::from_tag_and_value(
        RadiusPacketAttributeType::MessageAuthenticator,
        vec![184, 116, 44, 8, 53, 27, 50, 115, 163, 54, 94, 173, 149, 51, 12, 29],
    ));
    let mut target = container(attributes);
    MessageAuthenticatorRadiusPipelinePhase::new("secret").process(&mut target).unwrap();
    assert_eq!(
        target.get_metadata::<MessageAuthenticatorStatus>(),
        Some(&MessageAuthenticatorStatus::Valid)
    );

    let mut empty = container(RadiusPacketAttributes::new());
    MessageAuthenticatorRadiusPipelinePhase::new("secret").process(&mut empty).unwrap();
    assert_eq!(
        empty.get_metadata::<MessageAuthenticatorStatus>(),
        Some(&MessageAuthenticatorStatus::NotFound)
    );
}
