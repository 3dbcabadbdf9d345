use modrad_radius::eap::code::EapPacketCode;
use modrad_radius::eap::data::{EapPacketData, EapPacketType, EapPacketTypeData};
use modrad_radius::eap::{EapPacket, EapPacketError};
use modrad_radius::identifier::EapIdentifier;

#[test]
fn should_convert_from_eap_packet_request_to_byte_buffer() {
    let packet = EapPacket::new(
        0.into(),
        EapPacketData::Request { type_data: EapPacketTypeData::Identity(vec![1, 2, 3]) },
    );
    let result = Vec::from(packet);
    assert_eq!(result, vec![1, 0, 0, 8, 1, 1, 2, 3]);
}

#[test]
fn should_convert_from_eap_packet_response_to_byte_buffer() {
    let packet = EapPacket::new(
        0.into(),
        EapPacketData::Response { type_data: EapPacketTypeData::Identity(vec![1, 2, 3]) },
    );
    let result = Vec::from(packet);
    assert_eq!(result, vec![2, 0, 0, 8, 1, 1, 2, 3]);
}

#[test]
fn should_convert_from_eap_packet_success_to_byte_buffer() {
    let packet = EapPacket::new(0.into(), EapPacketData::Success);
    let result = Vec::from(packet);
    assert_eq!(result, vec![3, 0, 0, 4]);
}

#[test]
fn should_convert_from_eap_packet_failure_to_byte_buffer() {
    let packet = EapPacket::new(0.into(), EapPacketData::Failure);
    let result = Vec::from(packet);
    assert_eq!(result, vec![4, 0, 0, 4]);
}

#[test]
fn should_convert_from_eap_packet_request_other_to_byte_buffer() {
    let packet = EapPacket::new(
        0.into(),
        EapPacketData::Request { type_data: EapPacketTypeData::Other(0, vec![1, 2, 3]) },
    );
    let result = Vec::from(packet);
    assert_eq!(result, vec![1, 0, 0, 8, 0, 1, 2, 3]);
}

#[test]
fn should_convert_from_byte_buffer_to_eap_packet_request() {
    let buffer = vec![1, 0, 0, 8, 1, 1, 2, 3];
    let result = EapPacket::parse(&buffer[..]).unwrap();
    assert_eq!(result.identifier(), EapIdentifier::from(0));
    assert_eq!(
        result.data(),
        &EapPacketData::Request { type_data: EapPacketTypeData::Identity(vec![1, 2, 3]) }
    );
}

#[test]
fn should_convert_from_byte_buffer_to_eap_packet_response() {
    let buffer = vec![2, 0, 0, 8, 1, 1, 2, 3];
    let result = EapPacket::parse(&buffer[..]).unwrap();
    assert_eq!(result.identifier(), EapIdentifier::from(0));
    assert_eq!(
        result.data(),
        &EapPacketData::Response { type_data: EapPacketTypeData::Identity(vec![1, 2, 3]) }
    );
}

#[test]
fn should_convert_from_byte_buffer_to_eap_packet_success() {
    let buffer = vec![3, 0, 0, 4];
    let result = EapPacket::parse(&buffer[..]).unwrap();
    assert_eq!(result.identifier(), EapIdentifier::from(0));
    assert_eq!(result.data(), &EapPacketData::Success);
}

#[test]
fn should_convert_from_byte_buffer_to_eap_packet_failure() {
    let buffer = vec![4, 0, 0, 4];
    let result = EapPacket::parse(&buffer[..]).unwrap();
    assert_eq!(result.identifier(), EapIdentifier::from(0));
    assert_eq!(result.data(), &EapPacketData::Failure);
}

#[test]
fn should_convert_from_byte_buffer_to_eap_packet_request_other() {
    let buffer = vec![1, 0, 0, 8, 0, 1, 2, 3];
    let result = EapPacket::parse(&buffer[..]).unwrap();
    assert_eq!(result.identifier(), EapIdentifier::from(0));
    assert_eq!(
        result.data(),
        &EapPacketData::Request { type_data: EapPacketTypeData::Other(0, vec![1, 2, 3]) }
    );
}

#[test]
fn should_not_convert_from_byte_buffer_to_eap_packet_request_when_there_is_not_enough_data() {
    let buffer = vec![1, 0, 0, 8, 1, 1, 2];
    let result = EapPacket::parse(&buffer[..]).unwrap_err();
    assert_eq!(result, EapPacketError::NotEnoughData);
}

#[test]
fn should_convert_from_eap_packet_data_request_to_byte_buffer() {
    let data = EapPacketData::Request { type_data: EapPacketTypeData::Identity(vec![1, 2, 3]) };
    assert_eq!(Vec::from(data), vec![1, 1, 2, 3]);
}

#[test]
fn should_convert_from_eap_packet_data_response_to_byte_buffer() {
    let data = EapPacketData::Response { type_data: EapPacketTypeData::Identity(vec![1, 2, 3]) };
    assert_eq!(Vec::from(data), vec![1, 1, 2, 3]);
}

#[test]
fn should_convert_from_eap_packet_data_success_to_byte_buffer() {
    let data = EapPacketData::Success;
    let expected: Vec<u8> = vec![];
    assert_eq!(Vec::from(data), expected);
}

#[test]
fn should_convert_from_eap_packet_data_failure_to_byte_buffer() {
    let data = EapPacketData::Failure;
    let expected: Vec<u8> = vec![];
    assert_eq!(Vec::from(data), expected);
}

#[test]
fn should_convert_from_eap_packet_data_other_to_byte_buffer() {
    let data = EapPacketData::Other(0, vec![1, 2, 3]);
    assert_eq!(Vec::from(data), vec![1, 2, 3]);
}

#[test]
fn should_convert_from_code_and_byte_buffer_to_eap_packet_data_request() {
    let code = EapPacketCode::Request;
    let buffer = vec![1, 1, 2, 3];
    let result = EapPacketData::try_from((code, &buffer[..])).unwrap();
    assert_eq!(
        result,
        EapPacketData::Request { type_data: EapPacketTypeData::Identity(vec![1, 2, 3]) }
    );
}

#[test]
fn should_convert_from_code_and_byte_buffer_to_eap_packet_data_response() {
    let code = EapPacketCode::Response;
    let buffer = vec![1, 1, 2, 3];
    let result = EapPacketData::try_from((code, &buffer[..])).unwrap();
    assert_eq!(
        result,
        EapPacketData::Response { type_data: EapPacketTypeData::Identity(vec![1, 2, 3]) }
    );
}

#[test]
fn should_convert_from_code_and_byte_buffer_to_eap_packet_data_success() {
    let code = EapPacketCode::Success;
    let buffer: Vec<u8> = vec![];
    let result = EapPacketData::try_from((code, &buffer[..])).unwrap();
    assert_eq!(result, EapPacketData::Success);
}

#[test]
fn should_convert_from_code_and_byte_buffer_to_eap_packet_data_failure() {
    let code = EapPacketCode::Failure;
    let buffer: Vec<u8> = vec![];
    let result = EapPacketData::try_from((code, &buffer[..])).unwrap();
    assert_eq!(result, EapPacketData::Failure);
}

#[test]
fn should_convert_from_code_and_byte_buffer_to_eap_packet_data_other() {
    let code = EapPacketCode::Other(0);
    let buffer = vec![1, 2, 3];
    let result = EapPacketData::try_from((code, &buffer[..])).unwrap();
    assert_eq!(result, EapPacketData::Other(0, vec![1, 2, 3]));
}

#[test]
fn should_convert_from_eap_packet_type_data_identity_to_byte_buffer() {
    assert_eq!(Vec::from(EapPacketTypeData::Identity(vec![1, 2, 3])), vec![1, 2, 3]);
}

#[test]
fn should_convert_from_eap_packet_type_data_notification_to_byte_buffer() {
    assert_eq!(Vec::from(EapPacketTypeData::Notification(vec![1, 2, 3])), vec![1, 2, 3]);
}

#[test]
fn should_convert_from_eap_packet_type_data_nak_to_byte_buffer() {
    let type_data = EapPacketTypeData::Nak {
        supported_types: vec![
            EapPacketType::MD5Challenge,
            EapPacketType::OneTimePassword,
            EapPacketType::GenericTokenCard,
        ],
    };
    assert_eq!(Vec::from(type_data), vec![4, 5, 6]);
}

#[test]
fn should_convert_from_eap_packet_type_data_md5_challenge_to_byte_buffer() {
    assert_eq!(Vec::from(EapPacketTypeData::MD5Challenge(vec![1, 2, 3])), vec![1, 2, 3]);
}

#[test]
fn should_convert_from_eap_packet_type_data_one_time_password_to_byte_buffer() {
    assert_eq!(Vec::from(EapPacketTypeData::OneTimePassword(vec![1, 2, 3])), vec![1, 2, 3]);
}

#[test]
fn should_convert_from_eap_packet_type_data_generic_token_card_to_byte_buffer() {
    assert_eq!(Vec::from(EapPacketTypeData::GenericTokenCard(vec![1, 2, 3])), vec![1, 2, 3]);
}

#[test]
fn should_convert_from_eap_packet_type_data_expanded_type_to_byte_buffer() {
    let type_data =
        EapPacketTypeData::ExpandedType { vendor_id: 1, vendor_type: 2, vendor_data: vec![3, 4, 5] };
    assert_eq!(Vec::from(type_data), vec![0, 0, 1, 0, 0, 0, 2, 3, 4, 5]);
}

#[test]
fn should_convert_from_eap_packet_type_data_other_to_byte_buffer() {
    assert_eq!(Vec::from(EapPacketTypeData::Other(0, vec![1, 2, 3])), vec![1, 2, 3]);
}

#[test]
fn should_convert_from_type_and_byte_buffer_to_eap_packet_type_data_identity() {
    let buffer = vec![1, 2, 3];
    let result = EapPacketTypeData::try_from((EapPacketType::Identity, &buffer[..])).unwrap();
    assert_eq!(result, EapPacketTypeData::Identity(vec![1, 2, 3]));
}

#[test]
fn should_convert_from_type_and_byte_buffer_to_eap_packet_type_data_notification() {
    let buffer = vec![1, 2, 3];
    let result = EapPacketTypeData::try_from((EapPacketType::Notification, &buffer[..])).unwrap();
    assert_eq!(result, EapPacketTypeData::Notification(vec![1, 2, 3]));
}

#[test]
fn should_convert_from_type_and_byte_buffer_to_eap_packet_type_data_nak() {
    let buffer = vec![4, 5, 6];
    let result = EapPacketTypeData::try_from((EapPacketType::Nak, &buffer[..])).unwrap();
    assert_eq!(
        result,
        EapPacketTypeData::Nak {
            supported_types: vec![
                EapPacketType::MD5Challenge,
                EapPacketType::OneTimePassword,
                EapPacketType::GenericTokenCard,
            ],
        }
    );
}

#[test]
fn should_convert_from_type_and_byte_buffer_to_eap_packet_type_data_md5_challenge() {
    let buffer = vec![1, 2, 3];
    let result = EapPacketTypeData::try_from((EapPacketType::MD5Challenge, &buffer[..])).unwrap();
    assert_eq!(result, EapPacketTypeData::MD5Challenge(vec![1, 2, 3]));
}

#[test]
fn should_convert_from_type_and_byte_buffer_to_eap_packet_type_data_one_time_password() {
    let buffer = vec![1, 2, 3];
    let result =
        EapPacketTypeData::try_from((EapPacketType::OneTimePassword, &buffer[..])).unwrap();
    assert_eq!(result, EapPacketTypeData::OneTimePassword(vec![1, 2, 3]));
}

#[test]
fn should_convert_from_type_and_byte_buffer_to_eap_packet_type_data_generic_token_card() {
    let buffer = vec![1, 2, 3];
    let result =
        EapPacketTypeData::try_from((EapPacketType::GenericTokenCard, &buffer[..])).unwrap();
    assert_eq!(result, EapPacketTypeData::GenericTokenCard(vec![1, 2, 3]));
}

#[test]
fn should_convert_from_type_and_byte_buffer_to_eap_packet_type_data_expanded_type() {
    let buffer = vec![0, 0, 1, 0, 0, 0, 2, 3, 4, 5];
    let result = EapPacketTypeData::try_from((EapPacketType::ExpandedType, &buffer[..])).unwrap();
    assert_eq!(
        result,
        EapPacketTypeData::ExpandedType { vendor_id: 1, vendor_type: 2, vendor_data: vec![3, 4, 5] }
    );
}

#[test]
fn should_convert_from_type_and_byte_buffer_to_eap_packet_type_data_other() {
    let buffer = vec![1, 2, 3];
    let result = EapPacketTypeData::try_from((EapPacketType::Other(0), &buffer[..])).unwrap();
    assert_eq!(result, EapPacketTypeData::Other(0, vec![1, 2, 3]));
}

#[test]
fn expanded_type_with_too_few_bytes_is_refused() {
    let buffer = vec![0, 0, 1, 0, 0];
    let result = EapPacketTypeData::try_from((EapPacketType::ExpandedType, &buffer[..]));
    assert_eq!(result.unwrap_err(), EapPacketError::NotEnoughData);
}

#[test]
fn eap_request_without_type_byte_is_refused() {
    let buffer: Vec<u8> = vec![];
    let result = EapPacketData::try_from((EapPacketCode::Request, &buffer[..]));
    assert_eq!(result.unwrap_err(), EapPacketError::NotEnoughData);
}

#[test]
fn eap_packet_ignores_bytes_after_its_length() {
    let buffer = vec![3, 9, 0, 4, 7, 7];
    let result = EapPacket::parse(&buffer[..]).unwrap();
    assert_eq!(result.identifier(), EapIdentifier(9));
    assert_eq!(result.data(), &EapPacketData::Success);
    assert_eq!(result.code(), EapPacketCode::Success);
}

#[test]
fn eap_packet_reads_back_what_it_wrote() {
    let packet = EapPacket::new(
        EapIdentifier(42),
        EapPacketData::Response { type_data: EapPacketTypeData::MD5Challenge(vec![3, 1, 2, 3]) },
    );
    let bytes = Vec::from(packet);
    let read = EapPacket::parse(&bytes[..]).unwrap();
    assert_eq!(read.identifier(), EapIdentifier(42));
    assert_eq!(
        read.data(),
        &EapPacketData::Response { type_data: EapPacketTypeData::MD5Challenge(vec![3, 1, 2, 3]) }
    );
}
