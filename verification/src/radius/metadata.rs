use crate::chap::{ChapPacket, ChapPacketView};
use crate::chap::data::{ChapPacketData, ChapPacketDataView};
use crate::eap::{EapPacket, EapPacketView};
use crate::pipeline::input::eap_type_identity::{EapTypeDataIdentity, EapTypeDataIdentityView};
use crate::pipeline::input::eap_type_md5_challenge::{
    EapTypeDataMD5Challenge, EapTypeDataMD5ChallengeView,
};
use crate::pipeline::input::message_authenticator::MessageAuthenticatorStatus;
use vstd::prelude::*;

verus! {

/// An optional value taken by its view.
pub open spec fn option_view<T: View>(value: Option<T>) -> Option<T::V> {
    match value {
        Some(v) => Some(v@),
        None => None,
    }
}

/// What the pipeline steps have learned about a packet, at most one value of each kind.
#[derive(Debug)]
pub struct RadiusPacketMetadataMap {
    eap_packet: Option<EapPacket>,
    chap_packet: Option<ChapPacket>,
    chap_packet_data: Option<ChapPacketData>,
    message_authenticator_status: Option<MessageAuthenticatorStatus>,
    eap_type_data_identity: Option<EapTypeDataIdentity>,
    eap_type_data_md5_challenge: Option<EapTypeDataMD5Challenge>,
}

/// The metadata as a mathematical value.
pub struct RadiusPacketMetadataView {
    pub eap_packet: Option<EapPacketView>,
    pub chap_packet: Option<ChapPacketView>,
    pub chap_packet_data: Option<ChapPacketDataView>,
    pub message_authenticator_status: Option<MessageAuthenticatorStatus>,
    pub eap_type_data_identity: Option<EapTypeDataIdentityView>,
    pub eap_type_data_md5_challenge: Option<EapTypeDataMD5ChallengeView>,
}

impl View for RadiusPacketMetadataMap {
    type V = RadiusPacketMetadataView;

    closed spec fn view(&self) -> RadiusPacketMetadataView {
        RadiusPacketMetadataView {
            eap_packet: option_view(self.eap_packet),
            chap_packet: option_view(self.chap_packet),
            chap_packet_data: option_view(self.chap_packet_data),
            message_authenticator_status: option_view(self.message_authenticator_status),
            eap_type_data_identity: option_view(self.eap_type_data_identity),
            eap_type_data_md5_challenge: option_view(self.eap_type_data_md5_challenge),
        }
    }
}

impl RadiusPacketMetadataView {
    /// No metadata at all.
    pub open spec fn empty() -> Self {
        RadiusPacketMetadataView {
            eap_packet: None,
            chap_packet: None,
            chap_packet_data: None,
            message_authenticator_status: None,
            eap_type_data_identity: None,
            eap_type_data_md5_challenge: None,
        }
    }
}

impl RadiusPacketMetadataMap {
    pub fn empty() -> (metadata: Self)
        ensures
            metadata@ == RadiusPacketMetadataView::empty(),
    {
        RadiusPacketMetadataMap {
            eap_packet: None,
            chap_packet: None,
            chap_packet_data: None,
            message_authenticator_status: None,
            eap_type_data_identity: None,
            eap_type_data_md5_challenge: None,
        }
    }
}

/// A kind of value that can be attached to a packet container, one value per kind.
pub trait RadiusPacketMetadata: View + Sized {
    /// The value of this kind held in `metadata`.
    spec fn spec_stored(metadata: RadiusPacketMetadataView) -> Option<Self::V>;

    /// `metadata` with the value of this kind replaced by `value`, every other kind unchanged.
    spec fn spec_with(
        metadata: RadiusPacketMetadataView,
        value: Option<Self::V>,
    ) -> RadiusPacketMetadataView;

    fn stored(metadata: &RadiusPacketMetadataMap) -> (value: Option<&Self>)
        ensures
            match value {
                Some(v) => Self::spec_stored(metadata@) == Some(v@),
                None => Self::spec_stored(metadata@) is None,
            },
    ;

    fn replace(metadata: &mut RadiusPacketMetadataMap, value: Option<Self>) -> (previous: Option<
        Self,
    >)
        ensures
            option_view(previous) == Self::spec_stored(old(metadata)@),
            final(metadata)@ == Self::spec_with(old(metadata)@, option_view(value)),
    ;

    /// Reading back a replaced value gives the new value.
    proof fn lemma_stored_with(metadata: RadiusPacketMetadataView, value: Option<Self::V>)
        ensures
            Self::spec_stored(Self::spec_with(metadata, value)) == value,
    ;
}

impl RadiusPacketMetadata for EapPacket {
    open spec fn spec_stored(metadata: RadiusPacketMetadataView) -> Option<EapPacketView> {
        metadata.eap_packet
    }

    open spec fn spec_with(
        metadata: RadiusPacketMetadataView,
        value: Option<EapPacketView>,
    ) -> RadiusPacketMetadataView {
        RadiusPacketMetadataView { eap_packet: value, ..metadata }
    }

    fn stored(metadata: &RadiusPacketMetadataMap) -> (value: Option<&Self>) {
        metadata.eap_packet.as_ref()
    }

    fn replace(metadata: &mut RadiusPacketMetadataMap, value: Option<Self>) -> (previous: Option<
        Self,
    >) {
        let mut slot = value;
        std::mem::swap(&mut slot, &mut metadata.eap_packet);
        slot
    }

    proof fn lemma_stored_with(metadata: RadiusPacketMetadataView, value: Option<EapPacketView>) {
    }
}

impl RadiusPacketMetadata for ChapPacket {
    open spec fn spec_stored(metadata: RadiusPacketMetadataView) -> Option<ChapPacketView> {
        metadata.chap_packet
    }

    open spec fn spec_with(
        metadata: RadiusPacketMetadataView,
        value: Option<ChapPacketView>,
    ) -> RadiusPacketMetadataView {
        RadiusPacketMetadataView { chap_packet: value, ..metadata }
    }

    fn stored(metadata: &RadiusPacketMetadataMap) -> (value: Option<&Self>) {
        metadata.chap_packet.as_ref()
    }

    fn replace(metadata: &mut RadiusPacketMetadataMap, value: Option<Self>) -> (previous: Option<
        Self,
    >) {
        let mut slot = value;
        std::mem::swap(&mut slot, &mut metadata.chap_packet);
        slot
    }

    proof fn lemma_stored_with(metadata: RadiusPacketMetadataView, value: Option<ChapPacketView>) {
    }
}

impl RadiusPacketMetadata for ChapPacketData {
    open spec fn spec_stored(metadata: RadiusPacketMetadataView) -> Option<ChapPacketDataView> {
        metadata.chap_packet_data
    }

    open spec fn spec_with(
        metadata: RadiusPacketMetadataView,
        value: Option<ChapPacketDataView>,
    ) -> RadiusPacketMetadataView {
        RadiusPacketMetadataView { chap_packet_data: value, ..metadata }
    }

    fn stored(metadata: &RadiusPacketMetadataMap) -> (value: Option<&Self>) {
        metadata.chap_packet_data.as_ref()
    }

    fn replace(metadata: &mut RadiusPacketMetadataMap, value: Option<Self>) -> (previous: Option<
        Self,
    >) {
        let mut slot = value;
        std::mem::swap(&mut slot, &mut metadata.chap_packet_data);
        slot
    }

    proof fn lemma_stored_with(metadata: RadiusPacketMetadataView, value: Option<ChapPacketDataView>) {
    }
}

impl RadiusPacketMetadata for MessageAuthenticatorStatus {
    open spec fn spec_stored(metadata: RadiusPacketMetadataView) -> Option<MessageAuthenticatorStatus> {
        metadata.message_authenticator_status
    }

    open spec fn spec_with(
        metadata: RadiusPacketMetadataView,
        value: Option<MessageAuthenticatorStatus>,
    ) -> RadiusPacketMetadataView {
        RadiusPacketMetadataView { message_authenticator_status: value, ..metadata }
    }

    fn stored(metadata: &RadiusPacketMetadataMap) -> (value: Option<&Self>) {
        metadata.message_authenticator_status.as_ref()
    }

    fn replace(metadata: &mut RadiusPacketMetadataMap, value: Option<Self>) -> (previous: Option<
        Self,
    >) {
        let mut slot = value;
        std::mem::swap(&mut slot, &mut metadata.message_authenticator_status);
        slot
    }

    proof fn lemma_stored_with(metadata: RadiusPacketMetadataView, value: Option<MessageAuthenticatorStatus>) {
    }
}

impl RadiusPacketMetadata for EapTypeDataIdentity {
    open spec fn spec_stored(metadata: RadiusPacketMetadataView) -> Option<EapTypeDataIdentityView> {
        metadata.eap_type_data_identity
    }

    open spec fn spec_with(
        metadata: RadiusPacketMetadataView,
        value: Option<EapTypeDataIdentityView>,
    ) -> RadiusPacketMetadataView {
        RadiusPacketMetadataView { eap_type_data_identity: value, ..metadata }
    }

    fn stored(metadata: &RadiusPacketMetadataMap) -> (value: Option<&Self>) {
        metadata.eap_type_data_identity.as_ref()
    }

    fn replace(metadata: &mut RadiusPacketMetadataMap, value: Option<Self>) -> (previous: Option<
        Self,
    >) {
        let mut slot = value;
        std::mem::swap(&mut slot, &mut metadata.eap_type_data_identity);
        slot
    }

    proof fn lemma_stored_with(metadata: RadiusPacketMetadataView, value: Option<EapTypeDataIdentityView>) {
    }
}

impl RadiusPacketMetadata for EapTypeDataMD5Challenge {
    open spec fn spec_stored(metadata: RadiusPacketMetadataView) -> Option<EapTypeDataMD5ChallengeView> {
        metadata.eap_type_data_md5_challenge
    }

    open spec fn spec_with(
        metadata: RadiusPacketMetadataView,
        value: Option<EapTypeDataMD5ChallengeView>,
    ) -> RadiusPacketMetadataView {
        RadiusPacketMetadataView { eap_type_data_md5_challenge: value, ..metadata }
    }

    fn stored(metadata: &RadiusPacketMetadataMap) -> (value: Option<&Self>) {
        metadata.eap_type_data_md5_challenge.as_ref()
    }

    fn replace(metadata: &mut RadiusPacketMetadataMap, value: Option<Self>) -> (previous: Option<
        Self,
    >) {
        let mut slot = value;
        std::mem::swap(&mut slot, &mut metadata.eap_type_data_md5_challenge);
        slot
    }

    proof fn lemma_stored_with(metadata: RadiusPacketMetadataView, value: Option<EapTypeDataMD5ChallengeView>) {
    }
}

} // verus!
