use modrad_radius::chap::code::ChapPacketCode;
use modrad_radius::chap::data::ChapPacketData;
use modrad_radius::chap::{ChapPacket, ChapPacketError};

#[test]
fn should_convert_from_chap_packet_data_challenge_to_byte_buffer() {
    let data = ChapPacketData::Challenge { value: vec![1, 2, 3], name: vec![4, 5, 6] };
    let result = Vec::from(data);
    let expected_result = vec![3, 1, 2, 3, 4, 5, 6];
    assert_eq!(result, expected_result);
}

#[test]
fn should_convert_from_chap_packet_data_response_to_byte_buffer() {
    let data = ChapPacketData::Response { value: vec![1, 2, 3], name: vec![4, 5, 6] };
    let result = Vec::from(data);
    let expected_result = vec![3, 1, 2, 3, 4, 5, 6];
    assert_eq!(result, expected_result);
}

#[test]
fn should_convert_from_chap_packet_data_success_to_byte_buffer() {
    let data = ChapPacketData::Success { message: vec![1, 2, 3] };
    let result = Vec::from(data);
    assert_eq!(result, vec![1, 2, 3]);
}

#[test]
fn should_convert_from_chap_packet_data_failure_to_byte_buffer() {
    let data = ChapPacketData::Failure { message: vec![1, 2, 3] };
    let result = Vec::from(data);
    assert_eq!(result, vec![1, 2, 3]);
}

#[test]
fn should_convert_from_code_and_byte_buffer_to_chap_packet_data_challenge() {
    let code = ChapPacketCode::Challenge;
    let buffer = vec![3, 1, 2, 3, 4, 5, 6];
    let result = ChapPacketData::try_from((code, &buffer[..])).unwrap();
    assert_eq!(result, ChapPacketData::Challenge { value: vec![1, 2, 3], name: vec![4, 5, 6] });
}

#[test]
fn should_convert_from_code_and_byte_buffer_to_chap_packet_data_response() {
    let code = ChapPacketCode::Response;
    let buffer = vec![3, 1, 2, 3, 4, 5, 6];
    let result = ChapPacketData::try_from((code, &buffer[..])).unwrap();
    assert_eq!(result, ChapPacketData::Response { value: vec![1, 2, 3], name: vec![4, 5, 6] });
}

#[test]
fn should_convert_from_code_and_byte_buffer_to_chap_packet_data_success() {
    let code = ChapPacketCode::Success;
    let buffer = vec![1, 2, 3];
    let result = ChapPacketData::try_from((code, &buffer[..])).unwrap();
    assert_eq!(result, ChapPacketData::Success { message: vec![1, 2, 3] });
}

#[test]
fn should_convert_from_code_and_byte_buffer_to_chap_packet_data_failure() {
    let code = ChapPacketCode::Failure;
    let buffer = vec![1, 2, 3];
    let result = ChapPacketData::try_from((code, &buffer[..])).unwrap();
    assert_eq!(result, ChapPacketData::Failure { message: vec![1, 2, 3] });
}

#[test]
fn should_not_convert_from_code_and_byte_buffer_to_chap_packet_data_challenge_when_there_is_not_enough_data()
 {
    let code = ChapPacketCode::Challenge;
    let buffer = vec![3, 1, 2];
    let result = ChapPacketData::try_from((code, &buffer[..])).unwrap_err();
    assert_eq!(result, ChapPacketError::NotEnoughData);
}

#[test]
fn should_convert_from_chap_packet_challenge_to_byte_buffer() {
    let packet =
        ChapPacket::new(0, ChapPacketData::Challenge { value: vec![1, 2, 3], name: vec![4, 5, 6] });
    let result = Vec::from(packet);
    assert_eq!(result, vec![1, 0, 0, 11, 3, 1, 2, 3, 4, 5, 6]);
}

#[test]
fn should_convert_from_chap_packet_response_to_byte_buffer() {
    let packet =
        ChapPacket::new(0, ChapPacketData::Response { value: vec![1, 2, 3], name: vec![4, 5, 6] });
    let result = Vec::from(packet);
    assert_eq!(result, vec![2, 0, 0, 11, 3, 1, 2, 3, 4, 5, 6]);
}

#[test]
fn should_convert_from_chap_packet_success_to_byte_buffer() {
    let packet = ChapPacket::new(0, ChapPacketData::Success { message: vec![1, 2, 3] });
    let result = Vec::from(packet);
    assert_eq!(result, vec![3, 0, 0, 7, 1, 2, 3]);
}

#[test]
fn should_convert_from_chap_packet_failure_to_byte_buffer() {
    let packet = ChapPacket::new(0, ChapPacketData::Failure { message: vec![1, 2, 3] });
    let result = Vec::from(packet);
    assert_eq!(result, vec![4, 0, 0, 7, 1, 2, 3]);
}

#[test]
fn should_convert_byte_buffer_to_chap_packet_challenge() {
    let buffer = vec![1, 0, 0, 11, 3, 1, 2, 3, 4, 5, 6];
    let result = ChapPacket::parse(&buffer[..]).unwrap();
    assert_eq!(result.identifier(), 0);
    assert_eq!(
        result.data(),
        &ChapPacketData::Challenge { value: vec![1, 2, 3], name: vec![4, 5, 6] }
    );
}

#[test]
fn should_convert_byte_buffer_to_chap_packet_response() {
    let buffer = vec![2, 0, 0, 11, 3, 1, 2, 3, 4, 5, 6];
    let result = ChapPacket::parse(&buffer[..]).unwrap();
    assert_eq!(result.identifier(), 0);
    assert_eq!(
        result.data(),
        &ChapPacketData::Response { value: vec![1, 2, 3], name: vec![4, 5, 6] }
    );
}

#[test]
fn should_convert_byte_buffer_to_chap_packet_success() {
    let buffer = vec![3, 0, 0, 7, 1, 2, 3];
    let result = ChapPacket::parse(&buffer[..]).unwrap();
    assert_eq!(result.identifier(), 0);
    assert_eq!(result.data(), &ChapPacketData::Success { message: vec![1, 2, 3] });
}

#[test]
fn should_convert_byte_buffer_to_chap_packet_failure() {
    let buffer = vec![4, 0, 0, 7, 1, 2, 3];
    let result = ChapPacket::parse(&buffer[..]).unwrap();
    assert_eq!(result.identifier(), 0);
    assert_eq!(result.data(), &ChapPacketData::Failure { message: vec![1, 2, 3] });
}

#[test]
fn should_not_convert_from_byte_buffer_to_chap_packet_challenge_when_there_is_not_enough_data() {
    let buffer = vec![1, 0, 0, 11, 3, 1, 2, 3, 4, 5];
    let result = ChapPacket::parse(&buffer[..]).unwrap_err();
    assert_eq!(result, ChapPacketError::NotEnoughData);
}

#[test]
fn chap_packet_with_unknown_code_is_refused() {
    let buffer = vec![9, 0, 0, 4];
    assert_eq!(ChapPacket::parse(&buffer[..]).unwrap_err(), ChapPacketError::InvalidCode);
}

#[test]
fn chap_packet_reads_back_what_it_wrote() {
    let packet = ChapPacket::new(
        7,
        ChapPacketData::Response { value: vec![9, 8, 7, 6], name: b"bob".to_vec() },
    );
    let bytes = Vec::from(packet);
    let read = ChapPacket::parse(&bytes[..]).unwrap();
    assert_eq!(read.identifier(), 7);
    assert_eq!(read.code(), ChapPacketCode::Response);
    assert_eq!(
        read.data(),
        &ChapPacketData::Response { value: vec![9, 8, 7, 6], name: b"bob".to_vec() }
    );
}

#[test]
fn chap_data_length_counts_value_length_byte() {
    let data = ChapPacketData::Challenge { value: vec![1, 2], name: vec![3] };
    assert_eq!(data.length(), 4);
    assert_eq!(data.code(), ChapPacketCode::Challenge);
}

#[test]
fn chap_packet_with_a_length_field_below_the_header_would_not_parse() {
    assert!(ChapPacket::parse_would_panic(&[1, 0, 0, 3]));
    assert!(!ChapPacket::parse_would_panic(&[9, 0, 0, 3]));
    assert!(!ChapPacket::parse_would_panic(&[1, 0, 0, 4]));
}
