use crate::chap::code::ChapPacketCode;
use crate::chap::data::{ChapPacketData, ChapPacketDataView, chap_data_decode};
use crate::eap::EapPacket;
use crate::eap::data::{EapPacketData, EapPacketDataView, EapPacketTypeData, EapPacketTypeDataView};
use crate::pipeline::input::RadiusInputError;
use crate::pipeline::input::phase::RadiusInputPhaseCode;
use crate::radius::container::{RadiusPacketContainerView, RadiusPacketInputContainer};
use crate::radius::metadata::RadiusPacketMetadata;
use vstd::prelude::*;

verus! {

/// The value and name of an EAP MD5-Challenge response.
#[derive(Debug, PartialEq, Eq)]
pub struct EapTypeDataMD5Challenge {
    pub value: Vec<u8>,
    pub name: Vec<u8>,
}

/// The value and name of an MD5-Challenge response as mathematical values.
pub struct EapTypeDataMD5ChallengeView {
    pub value: Seq<u8>,
    pub name: Seq<u8>,
}

impl View for EapTypeDataMD5Challenge {
    type V = EapTypeDataMD5ChallengeView;

    open spec fn view(&self) -> EapTypeDataMD5ChallengeView {
        EapTypeDataMD5ChallengeView { value: self.value@, name: self.name@ }
    }
}

/// The container with the value and name of the CHAP response that its EAP MD5-Challenge
/// response carries; unchanged where it holds no EAP packet, no MD5-Challenge response, or
/// data that does not read as a CHAP response.
pub open spec fn with_md5_challenge(container: RadiusPacketContainerView) -> RadiusPacketContainerView {
    match container.metadata.eap_packet {
        Some(eap_packet) => match eap_packet.data {
            EapPacketDataView::Response {
                type_data: EapPacketTypeDataView::MD5Challenge(buffer),
            } => match chap_data_decode(ChapPacketCode::Response, buffer) {
                Ok(ChapPacketDataView::Response { value, name }) => RadiusPacketContainerView {
                    metadata: EapTypeDataMD5Challenge::spec_with(
                        container.metadata,
                        Some(EapTypeDataMD5ChallengeView { value, name }),
                    ),
                    ..container
                },
                _ => container,
            },
            _ => container,
        },
        None => container,
    }
}

/// Reads the CHAP response that an EAP MD5-Challenge response carries.
pub struct EapTypeMD5ChallengeRadiusInputPipelineStep {}

impl EapTypeMD5ChallengeRadiusInputPipelineStep {
    pub fn new() -> (step: Self) {
        Self {  }
    }

    pub fn name(&self) -> (name: String)
        ensures
            name@ == "MD5-Challenge"@,
    {
        "MD5-Challenge".to_owned()
    }

    pub fn phase_code(&self) -> (phase_code: RadiusInputPhaseCode)
        ensures
            phase_code == RadiusInputPhaseCode::EapLayer,
    {
        RadiusInputPhaseCode::EapLayer
    }

    /// Records the value and name of the CHAP response in the EAP packet's MD5-Challenge data.
    pub fn process(&mut self, input_packet_container: &mut RadiusPacketInputContainer) -> (result:
        Result<(), RadiusInputError>)
        ensures
            result is Ok,
            final(input_packet_container)@ == with_md5_challenge(old(input_packet_container)@),
    {
        let parsed = match input_packet_container.get_metadata::<EapPacket>() {
            Some(eap_packet) => match eap_packet.data() {
                EapPacketData::Response { type_data: EapPacketTypeData::MD5Challenge(buffer) } => {
                    ChapPacketData::parse(ChapPacketCode::Response, buffer.as_slice())
                },
                _ => {
                    return Ok(());
                },
            },
            None => {
                return Ok(());
            },
        };
        match parsed {
            Ok(ChapPacketData::Response { value, name }) => {
                input_packet_container.set_metadata(EapTypeDataMD5Challenge { value, name });
                Ok(())
            },
            _ => Ok(()),
        }
    }
}

} // verus!
