use crate::eap::data::{EapPacketDataView, EapPacketTypeData, EapPacketTypeDataView};
use crate::eap::EapPacket;
use crate::pipeline::input::{RadiusInputError, string_from_utf8};
use crate::pipeline::input::phase::RadiusInputPhaseCode;
use crate::radius::container::{RadiusPacketContainerView, RadiusPacketInputContainer};
use crate::radius::metadata::RadiusPacketMetadata;
use vstd::prelude::*;
use vstd::utf8::{decode_utf8, valid_utf8};

verus! {

/// The identity that an EAP Identity response carried.
#[derive(Debug, Clone, PartialEq, Eq)]
pub enum EapTypeDataIdentity {
    UserName(String),
}

/// The identity as a mathematical value.
pub enum EapTypeDataIdentityView {
    UserName(Seq<char>),
}

impl View for EapTypeDataIdentity {
    type V = EapTypeDataIdentityView;

    open spec fn view(&self) -> EapTypeDataIdentityView {
        match self {
            EapTypeDataIdentity::UserName(user_name) => EapTypeDataIdentityView::UserName(
                user_name@,
            ),
        }
    }
}

/// The identity that an EAP Identity request or response with the given bytes names: the
/// user name they encode, where they are valid UTF-8.
pub open spec fn identity_of(buffer: Seq<u8>) -> Option<EapTypeDataIdentityView> {
    if valid_utf8(buffer) {
        Some(EapTypeDataIdentityView::UserName(decode_utf8(buffer)))
    } else {
        None
    }
}

/// The container with the identity that its EAP packet carries recorded; unchanged where it
/// holds no EAP packet, no Identity type data, or bytes that are not UTF-8.
pub open spec fn with_eap_identity(container: RadiusPacketContainerView) -> RadiusPacketContainerView {
    match container.metadata.eap_packet {
        Some(eap_packet) => match eap_packet.data {
            EapPacketDataView::Request { type_data: EapPacketTypeDataView::Identity(buffer) }
            | EapPacketDataView::Response {
                type_data: EapPacketTypeDataView::Identity(buffer),
            } => match identity_of(buffer) {
                Some(identity) => RadiusPacketContainerView {
                    metadata: EapTypeDataIdentity::spec_with(container.metadata, Some(identity)),
                    ..container
                },
                None => container,
            },
            _ => container,
        },
        None => container,
    }
}

/// Reads the user name of an EAP Identity request or response.
pub struct EapTypeIdentityRadiusInputPipelineStep {}

impl EapTypeIdentityRadiusInputPipelineStep {
    pub fn new() -> (step: Self) {
        Self {  }
    }

    pub fn name(&self) -> (name: String)
        ensures
            name@ == "EAP-Message/Identity"@,
    {
        "EAP-Message/Identity".to_owned()
    }

    pub fn phase_code(&self) -> (phase_code: RadiusInputPhaseCode)
        ensures
            phase_code == RadiusInputPhaseCode::EapLayer,
    {
        RadiusInputPhaseCode::EapLayer
    }

    /// Records the user name that the EAP packet's Identity data encodes.
    pub fn process(&mut self, packet_container: &mut RadiusPacketInputContainer) -> (result:
        Result<(), RadiusInputError>)
        ensures
            result is Ok,
            final(packet_container)@ == with_eap_identity(old(packet_container)@),
    {
        let buffer = match packet_container.get_metadata::<EapPacket>() {
            Some(eap_packet) => match eap_packet.data().type_data() {
                Some(EapPacketTypeData::Identity(buffer)) => vstd::slice::slice_to_vec(
                    buffer.as_slice(),
                ),
                _ => {
                    return Ok(());
                },
            },
            None => {
                return Ok(());
            },
        };
        match string_from_utf8(buffer) {
            Ok(user_name) => {
                packet_container.set_metadata(EapTypeDataIdentity::UserName(user_name));
                Ok(())
            },
            Err(_) => Ok(()),
        }
    }
}

} // verus!
