use modrad_radius::eap::code::EapPacketCode;
use modrad_radius::eap::data::{EapPacketData, EapPacketType, EapPacketTypeData};
use modrad_radius::eap::EapPacket;
use modrad_radius::identifier::EapIdentifier;
use modrad_radius::peer::{RadiusPeer, RemoteAddress};
use modrad_radius::pipeline::input::eap_packet::EapPacketRadiusInputPipelineStep;
use modrad_radius::pipeline::input::eap_type_identity::{
    EapTypeDataIdentity, EapTypeIdentityRadiusInputPipelineStep,
};
use modrad_radius::pipeline::input::eap_type_md5_challenge::{
    EapTypeDataMD5Challenge, EapTypeMD5ChallengeRadiusInputPipelineStep,
};
use modrad_radius::pipeline::input::message_authenticator::{
    MessageAuthenticatorRadiusInputPipelineStep, MessageAuthenticatorStatus,
};
use modrad_radius::radius::attribute::{
    RadiusPacketAttribute, RadiusPacketAttributeType, RadiusPacketAttributes,
};
use modrad_radius::pipeline::input::phase::RadiusInputPhaseCode;
use modrad_radius::radius::code::RadiusPacketCode;
use modrad_radius::radius::container::RadiusPacketInputContainer;
use modrad_radius::radius::RadiusPacket;

fn local_peer() -> RadiusPeer {
    RadiusPeer::Udp { remote_address: RemoteAddress::V4 { address: 0x7f00_0001, port: 1234 } }
}

fn request_container(attributes: RadiusPacketAttributes) -> RadiusPacketInputContainer {
    RadiusPacketInputContainer::new(
        RadiusPacket::new(
            RadiusPacketCode::AccessRequest,
            0,
            [1, 2, 3, 4, 5, 6, 7, 8, 9, 10, 11, 12, 13, 14, 15, 16],
            attributes,
        ),
        local_peer(),
    )
}

#[test]
fn should_add_eap_packet_metadata_to_container_from_eap_message_attribute() {
    let mut attributes = RadiusPacketAttributes::new();
    attributes.push(RadiusPacketAttribute::from_tag_and_value(
        RadiusPacketAttributeType::EAPMessage,
        vec![2, 220, 0, 13, 1, 106, 111, 104, 110, 95, 100, 111, 101],
    ));
    let mut container = request_container(attributes);

    let mut target = EapPacketRadiusInputPipelineStep::new();
    target.process(&mut container).unwrap();

    let result = container.get_metadata::<EapPacket>().unwrap();
    assert_eq!(result.code(), EapPacketCode::Response);
    assert_eq!(result.identifier(), EapIdentifier(220));
    assert_eq!(result.length(), 13);
    let EapPacketData::Response { type_data } = result.data() else { unreachable!() };
    assert_eq!(type_data.packet_type(), EapPacketType::Identity);
    assert_eq!(type_data.length(), 8);
    let EapPacketTypeData::Identity(buffer) = type_data else { unreachable!() };
    assert_eq!(buffer, &vec![106, 111, 104, 110, 95, 100, 111, 101]);
}

#[test]
fn should_not_add_eap_packet_metadata_to_container_when_there_is_no_eap_message_attribute() {
    let mut container = request_container(RadiusPacketAttributes::new());
    let mut target = EapPacketRadiusInputPipelineStep::new();
    target.process(&mut container).unwrap();
    assert!(!container.has_metadata::<EapPacket>());
}

#[test]
fn eap_packet_is_read_across_several_eap_message_attributes() {
    let mut attributes = RadiusPacketAttributes::new();
    attributes.push(RadiusPacketAttribute::from_tag_and_value(
        RadiusPacketAttributeType::EAPMessage,
        vec![2, 220, 0, 13, 1, 106],
    ));
    attributes.push(RadiusPacketAttribute::from_tag_and_value(
        RadiusPacketAttributeType::UserName,
        b"x".to_vec(),
    ));
    attributes.push(RadiusPacketAttribute::from_tag_and_value(
        RadiusPacketAttributeType::EAPMessage,
        vec![111, 104, 110, 95, 100, 111, 101],
    ));
    let mut container = request_container(attributes);
    EapPacketRadiusInputPipelineStep::new().process(&mut container).unwrap();
    let result = container.get_metadata::<EapPacket>().unwrap();
    assert_eq!(
        result.data(),
        &EapPacketData::Response {
            type_data: EapPacketTypeData::Identity(vec![106, 111, 104, 110, 95, 100, 111, 101]),
        }
    );
}

#[test]
fn eap_message_shorter_than_its_length_field_is_skipped() {
    let mut attributes = RadiusPacketAttributes::new();
    attributes.push(RadiusPacketAttribute::from_tag_and_value(
        RadiusPacketAttributeType::EAPMessage,
        vec![2, 220, 0, 13, 1, 106],
    ));
    let mut container = request_container(attributes);
    assert!(EapPacketRadiusInputPipelineStep::new().process(&mut container).is_ok());
    assert!(!container.has_metadata::<EapPacket>());
}

#[test]
fn should_add_eap_type_data_identity_metadata_to_container_from_eap_packet_metadata() {
    let mut container = request_container(RadiusPacketAttributes::new());
    container.set_metadata(EapPacket::new(
        EapIdentifier(220),
        EapPacketData::Request {
            type_data: EapPacketTypeData::Identity(vec![106, 111, 104, 110, 95, 100, 111, 101]),
        },
    ));

    let mut target = EapTypeIdentityRadiusInputPipelineStep::new();
    target.process(&mut container).unwrap();

    let result = container.get_metadata::<EapTypeDataIdentity>().unwrap();
    assert_eq!(result, &EapTypeDataIdentity::UserName("john_doe".to_string()));
}

#[test]
fn should_not_add_eap_type_data_identity_metadata_to_container_when_there_is_no_eap_packet_metadata()
 {
    let mut container = request_container(RadiusPacketAttributes::new());
    let mut target = EapTypeIdentityRadiusInputPipelineStep::new();
    target.process(&mut container).unwrap();
    assert!(!container.has_metadata::<EapTypeDataIdentity>());
}

#[test]
fn identity_that_is_not_utf8_is_skipped() {
    let mut container = request_container(RadiusPacketAttributes::new());
    container.set_metadata(EapPacket::new(
        EapIdentifier(1),
        EapPacketData::Response { type_data: EapPacketTypeData::Identity(vec![0xff, 0xfe]) },
    ));
    assert!(EapTypeIdentityRadiusInputPipelineStep::new().process(&mut container).is_ok());
    assert!(!container.has_metadata::<EapTypeDataIdentity>());
}

#[test]
fn should_add_eap_type_data_md5_challenge_to_container_from_eap_packet_metadata() {
    let mut container = request_container(RadiusPacketAttributes::new());
    container.set_metadata(EapPacket::new(
        220.into(),
        EapPacketData::Response {
            type_data: EapPacketTypeData::MD5Challenge(vec![3, 1, 2, 3, 4, 5, 6]),
        },
    ));

    let mut target = EapTypeMD5ChallengeRadiusInputPipelineStep::new();
    target.process(&mut container).unwrap();

    let result = container.get_metadata::<EapTypeDataMD5Challenge>().unwrap();
    assert_eq!(result.value, vec![1, 2, 3]);
    assert_eq!(result.name, vec![4, 5, 6]);
}

#[test]
fn should_not_add_eap_type_data_md5_challenge_to_container_when_the_eap_packet_metadata_is_not_of_type_md5_challenge()
 {
    let mut container = request_container(RadiusPacketAttributes::new());
    container.set_metadata(EapPacket::new(
        220.into(),
        EapPacketData::Response { type_data: EapPacketTypeData::GenericTokenCard(vec![1, 2, 3]) },
    ));
    let mut target = EapTypeMD5ChallengeRadiusInputPipelineStep::new();
    target.process(&mut container).unwrap();
    assert!(!container.has_metadata::<EapTypeDataMD5Challenge>());
}

#[test]
fn should_not_add_eap_type_data_md5_challenge_to_container_when_there_is_no_eap_packet_metadata() {
    let mut container = request_container(RadiusPacketAttributes::new());
    let mut target = EapTypeMD5ChallengeRadiusInputPipelineStep::new();
    target.process(&mut container).unwrap();
    assert!(!container.has_metadata::<EapTypeDataMD5Challenge>());
}

#[test]
fn md5_challenge_shorter_than_its_value_length_is_skipped() {
    let mut container = request_container(RadiusPacketAttributes::new());
    container.set_metadata(EapPacket::new(
        220.into(),
        EapPacketData::Response { type_data: EapPacketTypeData::MD5Challenge(vec![9, 1, 2]) },
    ));
    assert!(EapTypeMD5ChallengeRadiusInputPipelineStep::new().process(&mut container).is_ok());
    assert!(!container.has_metadata::<EapTypeDataMD5Challenge>());
}

#[test]
fn should_add_message_authenticator_status_not_found_metadata_to_container_when_there_is_no_message_authenticator_attribute()
 {
    let mut container = request_container(RadiusPacketAttributes::new());
    let mut target = MessageAuthenticatorRadiusInputPipelineStep::new("secret");
    target.process(&mut container).unwrap();
    let result = container.get_metadata::<MessageAuthenticatorStatus>().unwrap();
    assert_eq!(result, &MessageAuthenticatorStatus::NotFound);
}

#[test]
fn should_add_message_authenticator_status_valid_metadata_to_container_when_there_is_a_valid_message_authenticator_attribute()
 {
    let mut attributes = RadiusPacketAttributes::new();
    attributes.push(RadiusPacketAttribute::from_tag_and_value(
        RadiusPacketAttributeType::MessageAuthenticator,
        vec![184, 116, 44, 8, 53, 27, 50, 115, 163, 54, 94, 173, 149, 51, 12, 29],
    ));
    let mut container = request_container(attributes);
    let mut target = MessageAuthenticatorRadiusInputPipelineStep::new("secret");
    target.process(&mut container).unwrap();
    let result = container.get_metadata::<MessageAuthenticatorStatus>().unwrap();
    assert_eq!(result, &MessageAuthenticatorStatus::Valid);
}

#[test]
fn should_add_message_authenticator_status_valid_metadata_to_container_when_there_is_an_invalid_message_authenticator_attribute()
 {
    let mut attributes = RadiusPacketAttributes::new();
    attributes.push(RadiusPacketAttribute::from_tag_and_value(
        RadiusPacketAttributeType::MessageAuthenticator,
        vec![1, 2, 3, 4, 5, 6, 7, 8, 9, 10, 11, 12, 13, 14, 15, 16],
    ));
    let mut container = request_container(attributes);
    let mut target = MessageAuthenticatorRadiusInputPipelineStep::new("secret");
    target.process(&mut container).unwrap();
    let result = container.get_metadata::<MessageAuthenticatorStatus>().unwrap();
    assert_eq!(result, &MessageAuthenticatorStatus::Invalid);
}

#[test]
fn message_authenticator_under_another_secret_is_invalid() {
    let mut attributes = RadiusPacketAttributes::new();
    attributes.push(RadiusPacketAttribute::from_tag_and_value(
        RadiusPacketAttributeType::MessageAuthenticator,
        vec![184, 116, 44, 8, 53, 27, 50, 115, 163, 54, 94, 173, 149, 51, 12, 29],
    ));
    let mut container = request_container(attributes);
    MessageAuthenticatorRadiusInputPipelineStep::new("other").process(&mut container).unwrap();
    assert_eq!(
        container.get_metadata::<MessageAuthenticatorStatus>(),
        Some(&MessageAuthenticatorStatus::Invalid)
    );
    assert_eq!(container.packet().attributes().len(), 1);
}

#[test]
fn input_step_names_and_phases() {
    let step = MessageAuthenticatorRadiusInputPipelineStep::new("secret");
    assert_eq!(step.name(), "Message-Authenticator");
    assert_eq!(step.phase_code(), RadiusInputPhaseCode::RadiusLayer);
    assert_eq!(EapTypeIdentityRadiusInputPipelineStep::new().name(), "EAP-Message/Identity");
    assert_eq!(
        EapTypeMD5ChallengeRadiusInputPipelineStep::new().phase_code(),
        RadiusInputPhaseCode::EapLayer
    );
}

#[test]
fn eap_message_with_a_length_field_below_the_header_cannot_be_processed() {
    let mut attributes = RadiusPacketAttributes::new();
    attributes.push(RadiusPacketAttribute::from_tag_and_value(
        RadiusPacketAttributeType::EAPMessage,
        vec![2, 220, 0, 3, 1],
    ));
    let container = request_container(attributes);
    assert!(!EapPacketRadiusInputPipelineStep::new().can_process(&container));
    let fine = request_container(RadiusPacketAttributes::new());
    assert!(EapPacketRadiusInputPipelineStep::new().can_process(&fine));
    assert!(EapPacket::parse_would_panic(&[1, 0, 0, 2]));
    assert!(!EapPacket::parse_would_panic(&[1, 0, 0]));
    assert!(!EapPacket::parse_would_panic(&[1, 0, 0, 4]));
}
