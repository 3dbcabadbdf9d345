use modrad_radius::handler::message_authenticator::MessageAuthenticatorRadiusHandler;
use modrad_radius::handler::{RadiusHandler, RadiusHandlerAction};
use modrad_radius::peer::{RadiusPeer, RemoteAddress};
use modrad_radius::pipeline::handler::message_authenticator::MessageAuthenticatorRadiusHandlerPipelineStep;
use modrad_radius::pipeline::input::message_authenticator::MessageAuthenticatorStatus;
use modrad_radius::pipeline::RadiusPipelineStepAction;
use modrad_radius::radius::attribute::RadiusPacketAttributes;
use modrad_radius::radius::code::RadiusPacketCode;
use modrad_radius::radius::container::{RadiusPacketContainer, RadiusPacketInputContainer};
use modrad_radius::radius::RadiusPacket;

fn packet() -> RadiusPacket {
    RadiusPacket::new(
        RadiusPacketCode::AccessRequest,
        0,
        [1, 2, 3, 4, 5, 6, 7, 8, 9, 10, 11, 12, 13, 14, 15, 16],
        RadiusPacketAttributes::new(),
    )
}

fn peer() -> RadiusPeer {
    RadiusPeer::Udp { remote_address: RemoteAddress::V4 { address: 0x7f00_0001, port: 1234 } }
}

fn handle(status: Option<MessageAuthenticatorStatus>) -> &'static str {
    let mut container = RadiusPacketContainer::new(packet(), peer());
    if let Some(status) = status {
        container.set_metadata(status);
    }
    let mut target = MessageAuthenticatorRadiusHandler::new();
    match target.handle(&container).unwrap() {
        RadiusHandlerAction::NextHandler => "next",
        RadiusHandlerAction::DiscardPacket => "discard",
        RadiusHandlerAction::SendPacket { .. } => "send",
    }
}

fn step(status: Option<MessageAuthenticatorStatus>) -> &'static str {
    let mut container = RadiusPacketInputContainer::new(packet(), peer());
    if let Some(status) = status {
        container.set_metadata(status);
    }
    let mut target = MessageAuthenticatorRadiusHandlerPipelineStep::new();
    match target.process(&container).unwrap() {
        RadiusPipelineStepAction::NextStep => "next",
        RadiusPipelineStepAction::DiscardTarget => "discard",
        RadiusPipelineStepAction::AcceptStep(_) => "accept",
    }
}

#[test]
fn should_return_next_handler_when_message_authenticator_valid_metadata_exists() {
    assert_eq!(handle(Some(MessageAuthenticatorStatus::Valid)), "next");
}

#[test]
fn handler_should_return_discard_packet_when_message_authenticator_invalid_metadata_exists() {
    assert_eq!(handle(Some(MessageAuthenticatorStatus::Invalid)), "discard");
}

#[test]
fn should_return_next_handler_when_message_authenticator_not_found_metadata_exists() {
    assert_eq!(handle(Some(MessageAuthenticatorStatus::NotFound)), "next");
}

#[test]
fn should_return_next_handler_when_message_authenticator_metadata_does_not_exist() {
    assert_eq!(handle(None), "next");
}

#[test]
fn message_authenticator_should_return_next_step_when_message_authenticator_valid_metadata_exists() {
    assert_eq!(step(Some(MessageAuthenticatorStatus::Valid)), "next");
}

#[test]
fn message_authenticator_should_return_discard_packet_when_message_authenticator_invalid_metadata_exists()
 {
    assert_eq!(step(Some(MessageAuthenticatorStatus::Invalid)), "discard");
}

#[test]
fn message_authenticator_should_return_next_step_when_message_authenticator_not_found_metadata_exists()
 {
    assert_eq!(step(Some(MessageAuthenticatorStatus::NotFound)), "next");
}

#[test]
fn message_authenticator_should_return_next_step_when_message_authenticator_metadata_does_not_exist() {
    assert_eq!(step(None), "next");
}
