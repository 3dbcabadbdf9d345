use md5::{Digest, Md5};
use modrad_radius::peer::{RadiusPeer, RemoteAddress};
use modrad_radius::radius::attribute::{
    RadiusPacketAttribute, RadiusPacketAttributeType, RadiusPacketAttributes,
};
use modrad_radius::radius::code::RadiusPacketCode;
use modrad_radius::radius::container::RadiusPacketContainer;
use modrad_radius::radius::RadiusPacket;
use modrad_radius::transformer::response_authenticator::ResponseAuthenticatorRadiusPacketTransformer;
use modrad_radius::transformer::RadiusPacketTransformer;

fn original_container() -> RadiusPacketContainer {
    RadiusPacketContainer::new(
        RadiusPacket::new(
            RadiusPacketCode::AccessRequest,
            0,
            [1, 2, 3, 4, 5, 6, 7, 8, 9, 10, 11, 12, 13, 14, 15, 16],
            RadiusPacketAttributes::new(),
        ),
        RadiusPeer::Udp { remote_address: RemoteAddress::V4 { address: 0x7f00_0001, port: 1234 } },
    )
}

fn transformed(code: RadiusPacketCode) -> RadiusPacket {
    let mut attributes = RadiusPacketAttributes::new();
    attributes.push(RadiusPacketAttribute::from_tag_and_value(
        RadiusPacketAttributeType::UserName,
        b"user_name".to_vec(),
    ));
    attributes.push(RadiusPacketAttribute::from_tag_and_value(
        RadiusPacketAttributeType::UserPassword,
        b"user_password".to_vec(),
    ));
    let mut packet =
        RadiusPacket::new(code, 0, [16, 15, 14, 13, 12, 11, 10, 9, 8, 7, 6, 5, 4, 3, 2, 1], attributes);
    let mut target = ResponseAuthenticatorRadiusPacketTransformer::new("secret");
    target.transform(&mut packet, &original_container()).unwrap();
    packet
}

#[test]
fn should_not_add_response_authenticator_when_code_is_access_request() {
    let packet = transformed(RadiusPacketCode::AccessRequest);
    assert_eq!(packet.authenticator(), &[16, 15, 14, 13, 12, 11, 10, 9, 8, 7, 6, 5, 4, 3, 2, 1]);
    assert_eq!(packet.attributes().iter().count(), 2);
}

#[test]
fn should_add_response_authenticator_when_code_is_access_accept() {
    let packet = transformed(RadiusPacketCode::AccessAccept);
    assert_eq!(
        packet.authenticator(),
        &[54, 119, 89, 99, 24, 52, 189, 59, 224, 10, 103, 150, 239, 46, 11, 127]
    );
    assert_eq!(packet.attributes().iter().count(), 2);
}

#[test]
fn should_add_response_authenticator_when_code_is_access_reject() {
    let packet = transformed(RadiusPacketCode::AccessReject);
    assert_eq!(
        packet.authenticator(),
        &[42, 87, 175, 80, 152, 230, 42, 162, 222, 0, 202, 107, 168, 201, 221, 32]
    );
    assert_eq!(packet.attributes().iter().count(), 2);
}

#[test]
fn should_add_response_authenticator_when_code_is_access_challenge() {
    let packet = transformed(RadiusPacketCode::AccessChallenge);
    assert_eq!(
        packet.authenticator(),
        &[241, 195, 87, 186, 222, 148, 195, 227, 8, 130, 32, 78, 225, 145, 167, 143]
    );
    assert_eq!(packet.attributes().iter().count(), 2);
}

#[test]
fn accounting_response_keeps_its_authenticator() {
    let packet = transformed(RadiusPacketCode::AccountingResponse);
    assert_eq!(packet.authenticator(), &[16, 15, 14, 13, 12, 11, 10, 9, 8, 7, 6, 5, 4, 3, 2, 1]);
}

#[test]
fn a_peer_recomputes_the_response_authenticator() {
    let packet = transformed(RadiusPacketCode::AccessChallenge);
    let sent_authenticator = *packet.authenticator();
    let mut check = RadiusPacket::try_from(&Vec::from(packet)[..]).unwrap();
    check.set_authenticator(&[1, 2, 3, 4, 5, 6, 7, 8, 9, 10, 11, 12, 13, 14, 15, 16]);
    let mut bytes = Vec::from(check);
    bytes.extend_from_slice(b"secret");
    let expected: [u8; 16] = Md5::digest(&bytes).into();
    assert_eq!(sent_authenticator, expected);
}
