use modrad_radius::connector::udp::config::UdpRadiusConnectorConfig;
use modrad_radius::eap::data::{EapPacketData, EapPacketTypeData};
use modrad_radius::eap::EapPacket;
use modrad_radius::identifier::pool::EapIdentifierPool;
use modrad_radius::identifier::EapIdentifier;
use modrad_radius::peer::{RadiusPeer, RemoteAddress};
use modrad_radius::pipeline::handler::message_authenticator::MessageAuthenticatorRadiusHandlerPipelineStep;
use modrad_radius::pipeline::handler::phase::RadiusHandlerPhaseCode;
use modrad_radius::pipeline::handler::step::RadiusHandlerStep;
use modrad_radius::pipeline::input::eap_packet::EapPacketRadiusInputPipelineStep;
use modrad_radius::pipeline::input::eap_type_identity::{
    EapTypeDataIdentity, EapTypeIdentityRadiusInputPipelineStep,
};
use modrad_radius::pipeline::input::message_authenticator::{
    MessageAuthenticatorRadiusInputPipelineStep, MessageAuthenticatorStatus,
};
use modrad_radius::pipeline::input::phase::RadiusInputPhaseCode;
use modrad_radius::pipeline::input::step::RadiusInputStep;
use modrad_radius::pipeline::output::eap_message::EapMessageRadiusOutputPipelineStep;
use modrad_radius::pipeline::output::eap_type_md5_challenge::EapTypeMD5ChallengeRadiusOutputPipelineStep;
use modrad_radius::pipeline::output::message_authenticator::MessageAuthenticatorRadiusOutputPipelineStep;
use modrad_radius::pipeline::output::phase::RadiusOutputPhaseCode;
use modrad_radius::pipeline::output::step::{RadiusOutputContext, RadiusOutputStep};
use modrad_radius::pipeline::input::eap_type_md5_challenge::EapTypeDataMD5Challenge;
use modrad_radius::pipeline::{RadiusPipeline, RadiusPipelinePhaseCode, RadiusPipelineStep};
use modrad_radius::radius::attribute::{
    RadiusPacketAttribute, RadiusPacketAttributeType, RadiusPacketAttributes,
};
use modrad_radius::radius::code::RadiusPacketCode;
use modrad_radius::radius::container::{RadiusPacketInputContainer, RadiusPacketOutputContainer};
use modrad_radius::radius::RadiusPacket;

fn peer() -> RadiusPeer {
    RadiusPeer::Udp { remote_address: RemoteAddress::V4 { address: 0x7f00_0001, port: 1234 } }
}

fn request(attributes: RadiusPacketAttributes) -> RadiusPacketInputContainer {
    RadiusPacketInputContainer::new(
        RadiusPacket::new(
            RadiusPacketCode::AccessRequest,
            0,
            [1, 2, 3, 4, 5, 6, 7, 8, 9, 10, 11, 12, 13, 14, 15, 16],
            attributes,
        ),
        peer(),
    )
}

#[test]
fn input_pipeline_runs_steps_in_phase_order() {
    let mut pipeline: RadiusPipeline<RadiusInputStep> = RadiusPipeline::new("input");
    assert_eq!(pipeline.name(), "input");
    assert!(pipeline
        .insert_step(RadiusInputStep::EapTypeIdentity(EapTypeIdentityRadiusInputPipelineStep::new()))
        .is_ok());
    assert!(pipeline
        .insert_step(RadiusInputStep::EapPacket(EapPacketRadiusInputPipelineStep::new()))
        .is_ok());
    assert!(pipeline
        .insert_step(RadiusInputStep::MessageAuthenticator(
            MessageAuthenticatorRadiusInputPipelineStep::new("secret")
        ))
        .is_ok());

    let mut attributes = RadiusPacketAttributes::new();
    attributes.push(RadiusPacketAttribute::from_tag_and_value(
        RadiusPacketAttributeType::EAPMessage,
        vec![2, 220, 0, 13, 1, 106, 111, 104, 110, 95, 100, 111, 101],
    ));
    let mut container = request(attributes);
    let result = pipeline.process(&mut container, &()).unwrap();
    assert!(result.is_none());
    assert_eq!(
        container.get_metadata::<EapTypeDataIdentity>(),
        Some(&EapTypeDataIdentity::UserName("john_doe".to_string()))
    );
    assert_eq!(
        container.get_metadata::<MessageAuthenticatorStatus>(),
        Some(&MessageAuthenticatorStatus::NotFound)
    );
}

#[test]
fn a_second_step_of_one_kind_in_one_phase_is_handed_back() {
    let mut pipeline: RadiusPipeline<RadiusInputStep> = RadiusPipeline::new("input");
    assert!(pipeline
        .insert_step(RadiusInputStep::EapPacket(EapPacketRadiusInputPipelineStep::new()))
        .is_ok());
    let refused = pipeline.insert_step(RadiusInputStep::EapPacket(EapPacketRadiusInputPipelineStep::new()));
    assert!(matches!(refused, Err(RadiusInputStep::EapPacket(_))));
}

#[test]
fn handler_pipeline_stops_at_a_discarded_packet() {
    let mut pipeline: RadiusPipeline<RadiusHandlerStep> = RadiusPipeline::new("handler");
    assert!(pipeline
        .insert_step(RadiusHandlerStep::MessageAuthenticator(
            MessageAuthenticatorRadiusHandlerPipelineStep::new()
        ))
        .is_ok());
    let mut container = request(RadiusPacketAttributes::new());
    container.set_metadata(MessageAuthenticatorStatus::Invalid);
    let result: Option<RadiusPacketOutputContainer> = pipeline.process(&mut container, &()).unwrap();
    assert!(result.is_none());
    assert_eq!(
        RadiusHandlerStep::MessageAuthenticator(MessageAuthenticatorRadiusHandlerPipelineStep::new())
            .phase_code(),
        RadiusHandlerPhaseCode::Validation
    );
}

#[test]
fn output_pipeline_builds_a_signed_challenge() {
    let mut pipeline: RadiusPipeline<RadiusOutputStep> = RadiusPipeline::new("output");
    pipeline
        .insert_step(RadiusOutputStep::MessageAuthenticator(
            MessageAuthenticatorRadiusOutputPipelineStep::new("secret"),
        ))
        .ok()
        .unwrap();
    pipeline
        .insert_step(RadiusOutputStep::EapMessage(EapMessageRadiusOutputPipelineStep::new()))
        .ok()
        .unwrap();
    pipeline
        .insert_step(RadiusOutputStep::EapTypeMD5Challenge(
            EapTypeMD5ChallengeRadiusOutputPipelineStep::new(EapIdentifierPool::new(60_000_000_000)),
        ))
        .ok()
        .unwrap();

    let context = RadiusOutputContext { input_packet_container: request(RadiusPacketAttributes::new()), now: 0 };
    let mut output = RadiusPacketOutputContainer::new(
        RadiusPacket::new(RadiusPacketCode::AccessChallenge, 0, [0; 16], RadiusPacketAttributes::new()),
        peer(),
    );
    output.set_metadata(EapTypeDataMD5Challenge { value: vec![1, 2, 3], name: vec![4, 5, 6] });
    assert!(pipeline.process(&mut output, &context).unwrap().is_none());

    let attributes = output.packet().attributes();
    assert_eq!(attributes.len(), 2);
    assert_eq!(attributes.at(0).tag(), RadiusPacketAttributeType::EAPMessage);
    let expected_eap = EapPacket::new(
        EapIdentifier(0),
        EapPacketData::Request { type_data: EapPacketTypeData::MD5Challenge(vec![3, 1, 2, 3, 4, 5, 6]) },
    );
    assert_eq!(attributes.at(0).value(), &Vec::from(expected_eap)[..]);
    assert_eq!(attributes.at(1).tag(), RadiusPacketAttributeType::MessageAuthenticator);
    assert_eq!(attributes.at(1).value().len(), 16);
}

#[test]
fn phase_codes_have_names_and_order() {
    assert_eq!(RadiusInputPhaseCode::RadiusLayer.name(), "RADIUS_LAYER");
    assert_eq!(RadiusInputPhaseCode::Other(7).name(), "OTHER (7)");
    assert!(RadiusInputPhaseCode::RadiusLayer.order_key() < RadiusInputPhaseCode::EapLayer.order_key());
    assert!(RadiusInputPhaseCode::EapLayer.order_key() < RadiusInputPhaseCode::Other(0).order_key());
    assert_eq!(RadiusOutputPhaseCode::MessageAuthenticator.name(), "MESSAGE_AUTHENTICATOR");
    assert!(RadiusOutputPhaseCode::EapLayer.order_key() < RadiusOutputPhaseCode::RadiusLayer.order_key());
    assert_eq!(RadiusHandlerPhaseCode::Validation.name(), "VALIDATION");
    assert_eq!(RadiusInputPhaseCode::EapLayer.position(), isize::MIN + 1);
    assert_eq!(RadiusOutputPhaseCode::Other(12).position(), 12);
    let step = RadiusInputStep::EapPacket(EapPacketRadiusInputPipelineStep::new());
    assert_eq!(step.name(), "EAP-Message");
}

#[test]
fn connector_config_defaults_and_builders() {
    let mut config = UdpRadiusConnectorConfig::default();
    assert_eq!(config.buffer_size(), 4096);
    assert_eq!(config.address(), "127.0.0.1");
    assert_eq!(config.port(), 1812);
    config.with_buffer_size(1024).with_port(1645).with_address("0.0.0.0".to_string());
    assert_eq!(config.buffer_size(), 1024);
    assert_eq!(config.address(), "0.0.0.0");
    assert_eq!(config.port(), 1645);
}

#[test]
fn other_phase_names_carry_their_number_in_decimal() {
    assert_eq!(RadiusInputPhaseCode::Other(0).name(), "OTHER (0)");
    assert_eq!(RadiusOutputPhaseCode::Other(1234).name(), "OTHER (1234)");
    assert_eq!(RadiusHandlerPhaseCode::Other(usize::MAX).name(), format!("OTHER ({})", usize::MAX));
}
