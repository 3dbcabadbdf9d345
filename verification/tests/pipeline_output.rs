use modrad_radius::chap::data::ChapPacketData;
use modrad_radius::eap::code::EapPacketCode;
use modrad_radius::eap::data::{EapPacketData, EapPacketTypeData};
use modrad_radius::eap::EapPacket;
use modrad_radius::identifier::pool::EapIdentifierPool;
use modrad_radius::identifier::EapIdentifier;
use modrad_radius::peer::{RadiusPeer, RemoteAddress};
use modrad_radius::pipeline::input::eap_packet::EapPacketRadiusInputPipelineStep;
use modrad_radius::pipeline::input::eap_type_md5_challenge::EapTypeDataMD5Challenge;
use modrad_radius::pipeline::input::message_authenticator::{
    MessageAuthenticatorRadiusInputPipelineStep, MessageAuthenticatorStatus,
};
use modrad_radius::pipeline::output::chap_packet::ChapPacketRadiusOutputPipelineStep;
use modrad_radius::pipeline::output::eap_message::EapMessageRadiusOutputPipelineStep;
use modrad_radius::pipeline::output::eap_type_md5_challenge::EapTypeMD5ChallengeRadiusOutputPipelineStep;
use modrad_radius::pipeline::output::message_authenticator::MessageAuthenticatorRadiusOutputPipelineStep;
use modrad_radius::pipeline::output::RadiusOutputError;
use modrad_radius::radius::attribute::{
    RadiusPacketAttribute, RadiusPacketAttributeType, RadiusPacketAttributes,
};
use modrad_radius::radius::code::RadiusPacketCode;
use modrad_radius::radius::container::{RadiusPacketInputContainer, RadiusPacketOutputContainer};
use modrad_radius::radius::RadiusPacket;

const ONE_MINUTE: u64 = 60_000_000_000;

fn local_peer() -> RadiusPeer {
    RadiusPeer::Udp { remote_address: RemoteAddress::V4 { address: 0x7f00_0001, port: 1234 } }
}

fn input_container() -> RadiusPacketInputContainer {
    RadiusPacketInputContainer::new(
        RadiusPacket::new(
            RadiusPacketCode::AccessRequest,
            0,
            [1, 2, 3, 4, 5, 6, 7, 8, 9, 10, 11, 12, 13, 14, 15, 16],
            RadiusPacketAttributes::new(),
        ),
        local_peer(),
    )
}

fn output_container(
    code: RadiusPacketCode,
    identifier: u8,
    attributes: RadiusPacketAttributes,
) -> RadiusPacketOutputContainer {
    RadiusPacketOutputContainer::new(
        RadiusPacket::new(
            code,
            identifier,
            [16, 15, 14, 13, 12, 11, 10, 9, 8, 7, 6, 5, 4, 3, 2, 1],
            attributes,
        ),
        local_peer(),
    )
}

fn user_attributes() -> RadiusPacketAttributes {
    let mut attributes = RadiusPacketAttributes::new();
    attributes.push(RadiusPacketAttribute::from_tag_and_value(
        RadiusPacketAttributeType::UserName,
        b"user_name".to_vec(),
    ));
    attributes.push(RadiusPacketAttribute::from_tag_and_value(
        RadiusPacketAttributeType::UserPassword,
        b"user_password".to_vec(),
    ));
    attributes
}

fn identity_packet() -> EapPacket {
    EapPacket::new(
        EapIdentifier(220),
        EapPacketData::Response {
            type_data: EapPacketTypeData::Identity(vec![106, 111, 104, 110, 95, 100, 111, 101]),
        },
    )
}

#[test]
fn should_add_eap_packet_metadata_to_container_from_eap_type_data_md5_challenge() {
    let input = input_container();
    let mut output = output_container(RadiusPacketCode::AccessChallenge, 1, RadiusPacketAttributes::new());
    output.set_metadata(EapTypeDataMD5Challenge { value: vec![1, 2, 3], name: vec![4, 5, 6] });

    let mut target =
        EapTypeMD5ChallengeRadiusOutputPipelineStep::new(EapIdentifierPool::new(ONE_MINUTE));
    target.process(&mut output, &input, 0).unwrap();

    let result = output.get_metadata::<EapPacket>().unwrap();
    assert_eq!(result.code(), EapPacketCode::Request);
    assert_eq!(result.identifier(), EapIdentifier(0));
    assert_eq!(
        result.data(),
        &EapPacketData::Request { type_data: EapPacketTypeData::MD5Challenge(vec![3, 1, 2, 3, 4, 5, 6]) }
    );
    assert!(!output.has_metadata::<EapTypeDataMD5Challenge>());
}

#[test]
fn eap_type_md5_challenge_should_not_add_eap_packet_metadata_to_container_when_there_already_is_eap_packet_metadata()
 {
    let input = input_container();
    let mut output = output_container(RadiusPacketCode::AccessChallenge, 1, RadiusPacketAttributes::new());
    output.set_metadata(EapTypeDataMD5Challenge { value: vec![1, 2, 3], name: vec![4, 5, 6] });
    output.set_metadata(identity_packet());

    let mut target =
        EapTypeMD5ChallengeRadiusOutputPipelineStep::new(EapIdentifierPool::new(ONE_MINUTE));
    target.process(&mut output, &input, 0).unwrap();

    let result = output.get_metadata::<EapPacket>().unwrap();
    assert_eq!(result.code(), EapPacketCode::Response);
    assert_eq!(result.identifier(), EapIdentifier(220));
    assert_eq!(
        result.data(),
        &EapPacketData::Response {
            type_data: EapPacketTypeData::Identity(vec![106, 111, 104, 110, 95, 100, 111, 101]),
        }
    );
}

#[test]
fn should_not_add_eap_packet_metadata_to_container_when_there_is_no_eap_type_data_md5_challenge() {
    let input = input_container();
    let mut output = output_container(RadiusPacketCode::AccessChallenge, 1, RadiusPacketAttributes::new());
    let mut target =
        EapTypeMD5ChallengeRadiusOutputPipelineStep::new(EapIdentifierPool::new(ONE_MINUTE));
    target.process(&mut output, &input, 0).unwrap();
    assert!(output.get_metadata::<EapPacket>().is_none());
}

#[test]
fn md5_challenge_request_fails_when_no_identifier_is_left() {
    let input = input_container();
    let mut pool = EapIdentifierPool::new(ONE_MINUTE);
    for _ in 0..255 {
        assert!(pool.allocate(0).is_some());
    }
    let mut target = EapTypeMD5ChallengeRadiusOutputPipelineStep::new(pool);
    let mut output = output_container(RadiusPacketCode::AccessChallenge, 1, RadiusPacketAttributes::new());
    output.set_metadata(EapTypeDataMD5Challenge { value: vec![1], name: vec![] });
    let result = target.process(&mut output, &input, 1);
    assert_eq!(result, Err(RadiusOutputError::NoIdentifierAvailable));
    assert!(!output.has_metadata::<EapPacket>());
    assert!(!output.has_metadata::<EapTypeDataMD5Challenge>());
}

#[test]
fn md5_challenge_requests_take_successive_identifiers() {
    let input = input_container();
    let mut target =
        EapTypeMD5ChallengeRadiusOutputPipelineStep::new(EapIdentifierPool::new(ONE_MINUTE));
    for expected in 0..3u8 {
        let mut output = output_container(RadiusPacketCode::AccessChallenge, 1, RadiusPacketAttributes::new());
        output.set_metadata(EapTypeDataMD5Challenge { value: vec![7], name: vec![] });
        target.process(&mut output, &input, 0).unwrap();
        assert_eq!(output.get_metadata::<EapPacket>().unwrap().identifier(), EapIdentifier(expected));
    }
}

#[test]
fn should_add_eap_packet_metadata_to_container_from_chap_packet_data_metadata() {
    let input = input_container();
    let mut output = output_container(RadiusPacketCode::AccessChallenge, 1, RadiusPacketAttributes::new());
    output.set_metadata(ChapPacketData::Challenge { value: vec![1, 2, 3], name: vec![4, 5, 6] });

    let mut target = ChapPacketRadiusOutputPipelineStep::new(EapIdentifierPool::new(ONE_MINUTE));
    target.process(&mut output, &input, 0).unwrap();

    let result = output.get_metadata::<EapPacket>().unwrap();
    assert_eq!(result.code(), EapPacketCode::Request);
    assert_eq!(result.identifier(), EapIdentifier(0));
    assert_eq!(
        result.data(),
        &EapPacketData::Request { type_data: EapPacketTypeData::MD5Challenge(vec![3, 1, 2, 3, 4, 5, 6]) }
    );
}

#[test]
fn output_should_not_add_eap_packet_metadata_to_container_when_there_already_is_eap_packet_metadata() {
    let input = input_container();
    let mut output = output_container(RadiusPacketCode::AccessChallenge, 1, RadiusPacketAttributes::new());
    output.set_metadata(ChapPacketData::Challenge { value: vec![1, 2, 3], name: vec![4, 5, 6] });
    output.set_metadata(identity_packet());

    let mut target = ChapPacketRadiusOutputPipelineStep::new(EapIdentifierPool::new(ONE_MINUTE));
    target.process(&mut output, &input, 0).unwrap();

    let result = output.get_metadata::<EapPacket>().unwrap();
    assert_eq!(result.code(), EapPacketCode::Response);
    assert_eq!(result.identifier(), EapIdentifier(220));
}

#[test]
fn should_not_add_eap_packet_metadata_to_container_when_there_is_no_chap_packet_data_metadata() {
    let input = input_container();
    let mut output = output_container(RadiusPacketCode::AccessChallenge, 1, RadiusPacketAttributes::new());
    let mut target = ChapPacketRadiusOutputPipelineStep::new(EapIdentifierPool::new(ONE_MINUTE));
    target.process(&mut output, &input, 0).unwrap();
    assert!(output.get_metadata::<EapPacket>().is_none());
}

#[test]
fn should_add_eap_message_attribute_to_packet_from_eap_message_metadata() {
    let input = input_container();
    let mut output = output_container(RadiusPacketCode::AccessChallenge, 1, RadiusPacketAttributes::new());
    output.set_metadata(identity_packet());

    let mut target = EapMessageRadiusOutputPipelineStep::new();
    target.process(&mut output, &input).unwrap();

    let result = output.packet().attributes().get(RadiusPacketAttributeType::EAPMessage);
    assert_eq!(result.len(), 1);
    assert_eq!(result[0].value(), &[2, 220, 0, 13, 1, 106, 111, 104, 110, 95, 100, 111, 101]);
    assert!(!output.has_metadata::<EapPacket>());
}

#[test]
fn should_not_add_eap_message_attribute_to_packet_when_there_already_is_an_eap_message_attribute() {
    let input = input_container();
    let mut attributes = RadiusPacketAttributes::new();
    attributes.push(RadiusPacketAttribute::from_tag_and_value(
        RadiusPacketAttributeType::EAPMessage,
        vec![1, 2, 3, 4, 5, 6, 7, 8, 9, 10, 11, 12, 13, 14, 15, 16],
    ));
    let mut output = output_container(RadiusPacketCode::AccessChallenge, 1, attributes);
    output.set_metadata(identity_packet());

    let mut target = EapMessageRadiusOutputPipelineStep::new();
    target.process(&mut output, &input).unwrap();

    let result = output.packet().attributes().get(RadiusPacketAttributeType::EAPMessage);
    assert_eq!(result.len(), 1);
    assert_eq!(result[0].value(), &[1, 2, 3, 4, 5, 6, 7, 8, 9, 10, 11, 12, 13, 14, 15, 16]);
}

#[test]
fn should_not_add_eap_message_attribute_to_packet_when_there_is_no_eap_message_metadata() {
    let input = input_container();
    let mut output = output_container(RadiusPacketCode::AccessChallenge, 1, RadiusPacketAttributes::new());
    let mut target = EapMessageRadiusOutputPipelineStep::new();
    target.process(&mut output, &input).unwrap();
    let result = output.packet().attributes().get(RadiusPacketAttributeType::EAPMessage);
    assert!(result.is_empty());
}

fn signed_message_authenticator(code: RadiusPacketCode) -> (RadiusPacketOutputContainer, Vec<u8>) {
    let input = input_container();
    let mut output = output_container(code, 0, user_attributes());
    let mut target = MessageAuthenticatorRadiusOutputPipelineStep::new("secret");
    target.process(&mut output, &input).unwrap();
    let found = output.packet().attributes().get(RadiusPacketAttributeType::MessageAuthenticator);
    assert_eq!(found.len(), 1);
    let value = found[0].value().to_vec();
    (output, value)
}

#[test]
fn should_add_message_authenticator_attribute_when_code_is_access_request() {
    let (output, value) = signed_message_authenticator(RadiusPacketCode::AccessRequest);
    assert_eq!(output.packet().authenticator(), &[16, 15, 14, 13, 12, 11, 10, 9, 8, 7, 6, 5, 4, 3, 2, 1]);
    assert_eq!(value, vec![202, 139, 184, 235, 215, 39, 175, 248, 214, 241, 218, 110, 130, 72, 22, 134]);
}

#[test]
fn should_add_message_authenticator_attribute_when_code_is_access_challenge() {
    let (output, value) = signed_message_authenticator(RadiusPacketCode::AccessChallenge);
    assert_eq!(output.packet().authenticator(), &[16, 15, 14, 13, 12, 11, 10, 9, 8, 7, 6, 5, 4, 3, 2, 1]);
    assert_eq!(value, vec![188, 64, 97, 171, 155, 146, 235, 41, 208, 173, 79, 155, 240, 11, 20, 38]);
}

#[test]
fn should_add_message_authenticator_attribute_when_code_is_access_accept() {
    let (output, value) = signed_message_authenticator(RadiusPacketCode::AccessAccept);
    assert_eq!(output.packet().authenticator(), &[16, 15, 14, 13, 12, 11, 10, 9, 8, 7, 6, 5, 4, 3, 2, 1]);
    assert_eq!(value, vec![3, 42, 18, 219, 123, 65, 87, 87, 41, 219, 31, 145, 41, 141, 226, 36]);
}

#[test]
fn should_add_message_authenticator_attribute_when_code_is_access_reject() {
    let (output, value) = signed_message_authenticator(RadiusPacketCode::AccessReject);
    assert_eq!(output.packet().authenticator(), &[16, 15, 14, 13, 12, 11, 10, 9, 8, 7, 6, 5, 4, 3, 2, 1]);
    assert_eq!(value, vec![169, 153, 165, 203, 211, 157, 211, 150, 136, 255, 134, 193, 41, 193, 237, 152]);
}

#[test]
fn signing_replaces_every_earlier_message_authenticator_by_one_at_the_end() {
    let input = input_container();
    let mut attributes = user_attributes();
    attributes.push(RadiusPacketAttribute::from_tag_and_value(
        RadiusPacketAttributeType::MessageAuthenticator,
        vec![9; 16],
    ));
    attributes.push(RadiusPacketAttribute::from_tag_and_value(
        RadiusPacketAttributeType::MessageAuthenticator,
        vec![8; 16],
    ));
    let mut output = output_container(RadiusPacketCode::AccessRequest, 0, attributes);
    MessageAuthenticatorRadiusOutputPipelineStep::new("secret").process(&mut output, &input).unwrap();
    let attributes = output.packet().attributes();
    assert_eq!(attributes.len(), 3);
    assert_eq!(attributes.at(2).tag(), RadiusPacketAttributeType::MessageAuthenticator);
    assert_eq!(
        attributes.at(2).value(),
        &[202, 139, 184, 235, 215, 39, 175, 248, 214, 241, 218, 110, 130, 72, 22, 134]
    );
}

#[test]
fn a_signed_request_checks_as_valid() {
    let (output, _) = signed_message_authenticator(RadiusPacketCode::AccessRequest);
    let mut received = RadiusPacketInputContainer::new(output.into_packet(), local_peer());
    MessageAuthenticatorRadiusInputPipelineStep::new("secret").process(&mut received).unwrap();
    assert_eq!(
        received.get_metadata::<MessageAuthenticatorStatus>(),
        Some(&MessageAuthenticatorStatus::Valid)
    );
}

#[test]
fn an_eap_message_written_is_read_back() {
    let input = input_container();
    let mut output = output_container(RadiusPacketCode::AccessChallenge, 1, RadiusPacketAttributes::new());
    output.set_metadata(identity_packet());
    EapMessageRadiusOutputPipelineStep::new().process(&mut output, &input).unwrap();
    let mut received = RadiusPacketInputContainer::new(output.into_packet(), local_peer());
    EapPacketRadiusInputPipelineStep::new().process(&mut received).unwrap();
    assert_eq!(received.get_metadata::<EapPacket>(), Some(&identity_packet()));
}
