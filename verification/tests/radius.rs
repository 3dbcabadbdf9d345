use modrad_radius::radius::attribute::{
    RadiusPacketAttribute, RadiusPacketAttributeType, RadiusPacketAttributes,
};
use modrad_radius::radius::code::RadiusPacketCode;
use modrad_radius::radius::{RadiusPacket, RadiusPacketError};
use modrad_radius::tag_length_value::{TagLengthValue, TagLengthValueError};

fn sample_packet() -> RadiusPacket {
    let mut attributes = RadiusPacketAttributes::new();
    attributes.push(RadiusPacketAttribute::from_tag_and_value(
        RadiusPacketAttributeType::UserName,
        b"bob".to_vec(),
    ));
    attributes.push(RadiusPacketAttribute::from_tag_and_value(
        RadiusPacketAttributeType::NASPort,
        vec![0, 0, 0, 7],
    ));
    RadiusPacket::new(RadiusPacketCode::AccessRequest, 5, [9; 16], attributes)
}

#[test]
fn radius_packet_is_written_with_its_length() {
    let bytes = Vec::from(sample_packet());
    let mut expected = vec![1, 5, 0, 31];
    expected.extend_from_slice(&[9; 16]);
    expected.extend_from_slice(&[1, 5, b'b', b'o', b'b', 5, 6, 0, 0, 0, 7]);
    assert_eq!(bytes, expected);
    assert_eq!(sample_packet().length(), 31);
}

#[test]
fn radius_packet_reads_back_what_it_wrote() {
    let bytes = Vec::from(sample_packet());
    let packet = RadiusPacket::try_from(&bytes[..]).unwrap();
    assert_eq!(packet.code(), RadiusPacketCode::AccessRequest);
    assert_eq!(packet.identifier(), 5);
    assert_eq!(packet.authenticator(), &[9; 16]);
    assert_eq!(packet.attributes().len(), 2);
    assert_eq!(packet.attributes().at(0).tag(), RadiusPacketAttributeType::UserName);
    assert_eq!(packet.attributes().at(0).value(), b"bob");
    assert_eq!(packet.attributes().at(1).value(), &[0, 0, 0, 7]);
    let again = RadiusPacket::try_from(bytes.clone()).unwrap();
    assert_eq!(Vec::from(again), bytes);
}

#[test]
fn radius_packet_shorter_than_its_header_is_refused() {
    let bytes = vec![1, 0, 0, 20];
    assert_eq!(RadiusPacket::parse(&bytes).unwrap_err(), RadiusPacketError::NotEnoughData);
}

#[test]
fn radius_packet_shorter_than_its_length_field_is_refused() {
    let mut bytes = Vec::from(sample_packet());
    bytes.pop();
    assert_eq!(RadiusPacket::parse(&bytes).unwrap_err(), RadiusPacketError::NotEnoughData);
}

#[test]
fn radius_packet_longer_than_its_length_field_is_refused() {
    let mut bytes = Vec::from(sample_packet());
    bytes.push(0);
    assert_eq!(RadiusPacket::parse(&bytes).unwrap_err(), RadiusPacketError::TooMuchData);
}

#[test]
fn radius_packet_with_a_broken_attribute_is_refused() {
    let mut bytes = vec![1, 0, 0, 22];
    bytes.extend_from_slice(&[0; 16]);
    bytes.extend_from_slice(&[1, 1]);
    assert_eq!(
        RadiusPacket::parse(&bytes).unwrap_err(),
        RadiusPacketError::TagLengthValue(TagLengthValueError::InvalidLength(1))
    );
}

#[test]
fn tag_length_value_reads_its_value() {
    let bytes = vec![26, 5, 1, 2, 3, 99];
    let item: TagLengthValue<RadiusPacketAttributeType> = TagLengthValue::try_from(&bytes[..]).unwrap();
    assert_eq!(item.tag(), RadiusPacketAttributeType::VendorSpecific);
    assert_eq!(item.value(), &[1, 2, 3]);
    assert_eq!(item.length(), 5);
    assert_eq!(Vec::from(item), vec![26, 5, 1, 2, 3]);
}

#[test]
fn tag_length_value_errors() {
    let short: Result<TagLengthValue<RadiusPacketAttributeType>, _> = TagLengthValue::parse(&[1]);
    assert_eq!(short.unwrap_err(), TagLengthValueError::NotEnoughData);
    let cut: Result<TagLengthValue<RadiusPacketAttributeType>, _> = TagLengthValue::parse(&[1, 4, 0]);
    assert_eq!(cut.unwrap_err(), TagLengthValueError::NotEnoughData);
    let bad: Result<TagLengthValue<RadiusPacketAttributeType>, _> = TagLengthValue::parse(&[1, 0]);
    assert_eq!(bad.unwrap_err(), TagLengthValueError::InvalidLength(0));
}

#[test]
fn attributes_are_counted_got_and_removed_by_type() {
    let mut attributes = RadiusPacketAttributes::new();
    for (tag, value) in [
        (RadiusPacketAttributeType::EAPMessage, vec![1]),
        (RadiusPacketAttributeType::UserName, vec![2]),
        (RadiusPacketAttributeType::EAPMessage, vec![3]),
    ] {
        attributes.push(RadiusPacketAttribute::from_tag_and_value(tag, value));
    }
    assert!(attributes.has(RadiusPacketAttributeType::UserName));
    assert!(!attributes.has(RadiusPacketAttributeType::State));
    assert_eq!(attributes.count(RadiusPacketAttributeType::EAPMessage), 2);
    let found = attributes.get(RadiusPacketAttributeType::EAPMessage);
    assert_eq!(found.len(), 2);
    assert_eq!(found[1].value(), &[3]);

    let second = attributes.remove(RadiusPacketAttributeType::EAPMessage, 1).unwrap();
    assert_eq!(second.value(), &[3]);
    assert!(attributes.remove(RadiusPacketAttributeType::EAPMessage, 1).is_none());

    let removed = attributes.remove_all(RadiusPacketAttributeType::EAPMessage);
    assert_eq!(removed.len(), 1);
    assert_eq!(removed[0].value(), &[1]);
    assert_eq!(attributes.len(), 1);
    assert_eq!(attributes.at(0).tag(), RadiusPacketAttributeType::UserName);
    assert_eq!(attributes.clone().into_iter().count(), 1);
}

#[test]
fn packet_codes_and_attribute_types_keep_their_bytes() {
    for byte in 0..=255u8 {
        assert_eq!(u8::from(RadiusPacketCode::from(byte)), byte);
        assert_eq!(u8::from(RadiusPacketAttributeType::from(byte)), byte);
    }
    assert!(RadiusPacketCode::AccessRequest.is_request());
    assert!(RadiusPacketCode::AccessChallenge.is_response());
    assert!(!RadiusPacketCode::AccessChallenge.is_request());
}
