use crate::digest::{compute_hmac_md5, hmac_md5};
use crate::bytes::bytes_equal;
use crate::pipeline::input::RadiusInputError;
use crate::pipeline::input::phase::RadiusInputPhaseCode;
use crate::radius::attribute::{
    RadiusPacketAttributeType, attributes_of_type, attributes_with_value,
};
use crate::radius::container::{RadiusPacketContainerView, RadiusPacketInputContainer};
use crate::radius::metadata::RadiusPacketMetadata;
use crate::radius::{RadiusPacket, RadiusPacketView, radius_encode};
use vstd::prelude::*;
use vstd::string::StringSliceAdditionalSpecFns;

verus! {

/// What checking the Message-Authenticator attribute of a packet found.
#[derive(Debug, Copy, Clone, PartialEq, Eq, Structural)]
pub enum MessageAuthenticatorStatus {
    NotFound,
    Valid,
    Invalid,
}

impl View for MessageAuthenticatorStatus {
    type V = MessageAuthenticatorStatus;

    open spec fn view(&self) -> MessageAuthenticatorStatus {
        *self
    }
}

/// Sixteen zero bytes: what stands in a Message-Authenticator while the code is computed.
pub open spec fn zero_authenticator() -> Seq<u8> {
    Seq::new(16, |i: int| 0u8)
}

/// The packet with the value of every Message-Authenticator attribute set to zeros.
pub open spec fn zeroed_message_authenticators(packet: RadiusPacketView) -> RadiusPacketView {
    RadiusPacketView {
        attributes: attributes_with_value(
            packet.attributes,
            RadiusPacketAttributeType::MessageAuthenticator,
            zero_authenticator(),
        ),
        ..packet
    }
}

/// The Message-Authenticator that a packet must carry under `secret`: the HMAC-MD5 code of the
/// packet's bytes with its Message-Authenticator values zeroed.
pub open spec fn expected_message_authenticator(
    secret: Seq<u8>,
    packet: RadiusPacketView,
) -> Seq<u8> {
    hmac_md5(secret, radius_encode(zeroed_message_authenticators(packet)))
}

/// The status of a packet's first Message-Authenticator attribute under `secret`.
pub open spec fn message_authenticator_status(
    secret: Seq<u8>,
    packet: RadiusPacketView,
) -> MessageAuthenticatorStatus {
    let found = attributes_of_type(
        packet.attributes,
        RadiusPacketAttributeType::MessageAuthenticator,
    );
    if found.len() == 0 {
        MessageAuthenticatorStatus::NotFound
    } else if found[0].1 == expected_message_authenticator(secret, packet) {
        MessageAuthenticatorStatus::Valid
    } else {
        MessageAuthenticatorStatus::Invalid
    }
}

/// The status depends only on the value of the first Message-Authenticator attribute,
/// wherever it stands, and on the HMAC-MD5 code under `secret` of the packet's bytes with
/// every Message-Authenticator value set to sixteen zero bytes: `Valid` when they are equal,
/// `Invalid` when they differ, and `NotFound` when the packet has no such attribute.
pub proof fn lemma_message_authenticator_status_compares_first_value(
    secret: Seq<u8>,
    packet: RadiusPacketView,
)
    ensures
        ({
            let attributes = packet.attributes;
            let found = attributes_of_type(attributes, RadiusPacketAttributeType::MessageAuthenticator);
            let zeroed = RadiusPacketView {
                attributes: Seq::new(
                    attributes.len(),
                    |i: int|
                        if attributes[i].0 == RadiusPacketAttributeType::MessageAuthenticator {
                            (RadiusPacketAttributeType::MessageAuthenticator, Seq::new(16, |j: int| 0u8))
                        } else {
                            attributes[i]
                        },
                ),
                ..packet
            };
            let code = hmac_md5(secret, radius_encode(zeroed));
            &&& found.len() == 0 ==> message_authenticator_status(secret, packet)
                == MessageAuthenticatorStatus::NotFound
            &&& (found.len() > 0 && found[0].1 == code) ==> message_authenticator_status(
                secret,
                packet,
            ) == MessageAuthenticatorStatus::Valid
            &&& (found.len() > 0 && found[0].1 != code) ==> message_authenticator_status(
                secret,
                packet,
            ) == MessageAuthenticatorStatus::Invalid
        }),
{
    let attributes = packet.attributes;
    let zeroed = RadiusPacketView {
        attributes: Seq::new(
            attributes.len(),
            |i: int|
                if attributes[i].0 == RadiusPacketAttributeType::MessageAuthenticator {
                    (RadiusPacketAttributeType::MessageAuthenticator, Seq::new(16, |j: int| 0u8))
                } else {
                    attributes[i]
                },
        ),
        ..packet
    };
    assert(zeroed_message_authenticators(packet).attributes =~= zeroed.attributes);
    assert(zeroed_message_authenticators(packet) == zeroed);
}

/// The container with its Message-Authenticator status recorded.
pub open spec fn with_message_authenticator_status(
    secret: Seq<u8>,
    container: RadiusPacketContainerView,
) -> RadiusPacketContainerView {
    RadiusPacketContainerView {
        metadata: MessageAuthenticatorStatus::spec_with(
            container.metadata,
            Some(message_authenticator_status(secret, container.packet)),
        ),
        ..container
    }
}

/// The status of the packet's first Message-Authenticator under `secret`.
pub(crate) fn compute_message_authenticator_status(
    packet: &RadiusPacket,
    secret: &[u8],
) -> (status: MessageAuthenticatorStatus)
    ensures
        status == message_authenticator_status(secret@, packet@),
{
    let attributes = packet.attributes();
    let found = attributes.get(RadiusPacketAttributeType::MessageAuthenticator);
    proof {
        assert(found@.len() == attributes_of_type(
            attributes@,
            RadiusPacketAttributeType::MessageAuthenticator,
        ).len()) by {
            assert(found@.map_values(|attribute: &crate::radius::attribute::RadiusPacketAttribute|
                attribute@).len() == found@.len());
        }
    }
    if found.len() == 0 {
        return MessageAuthenticatorStatus::NotFound;
    }
    let first: &[u8] = found[0].value();
    proof {
        assert(found@.map_values(|attribute: &crate::radius::attribute::RadiusPacketAttribute|
            attribute@)[0] == found@[0]@);
    }
    let mut packet_for_hashing = packet.clone();
    let zeros: Vec<u8> = vec![0u8; 16];
    assert(zeros@ =~= zero_authenticator());
    packet_for_hashing.attributes_mut().replace_values(
        RadiusPacketAttributeType::MessageAuthenticator,
        zeros.as_slice(),
    );
    assert(packet_for_hashing@ == zeroed_message_authenticators(packet@));
    let packet_bytes = packet_for_hashing.to_bytes();
    let expected = compute_hmac_md5(secret, packet_bytes.as_slice());
    if bytes_equal(first, expected.as_slice()) {
        MessageAuthenticatorStatus::Valid
    } else {
        MessageAuthenticatorStatus::Invalid
    }
}

/// Checks the Message-Authenticator attribute of a received packet against the shared secret
/// and records what it found.
pub struct MessageAuthenticatorRadiusInputPipelineStep {
    secret: Vec<u8>,
}

impl View for MessageAuthenticatorRadiusInputPipelineStep {
    type V = Seq<u8>;

    /// The shared secret's bytes.
    closed spec fn view(&self) -> Seq<u8> {
        self.secret@
    }
}

impl MessageAuthenticatorRadiusInputPipelineStep {
    pub fn new(secret: &str) -> (step: Self)
        ensures
            step@ == secret.spec_bytes(),
    {
        Self { secret: vstd::slice::slice_to_vec(secret.as_bytes()) }
    }

    pub fn name(&self) -> (name: String)
        ensures
            name@ == "Message-Authenticator"@,
    {
        "Message-Authenticator".to_owned()
    }

    pub fn phase_code(&self) -> (phase_code: RadiusInputPhaseCode)
        ensures
            phase_code == RadiusInputPhaseCode::RadiusLayer,
    {
        RadiusInputPhaseCode::RadiusLayer
    }

    /// Records whether the packet's first Message-Authenticator is `Valid` or `Invalid`
    /// under the secret, or `NotFound`; nothing else changes.
    pub fn process(&mut self, packet_container: &mut RadiusPacketInputContainer) -> (result:
        Result<(), RadiusInputError>)
        ensures
            result is Ok,
            *final(self) == *old(self),
            final(packet_container)@ == with_message_authenticator_status(
                old(self)@,
                old(packet_container)@,
            ),
    {
        let status = compute_message_authenticator_status(
            packet_container.packet(),
            self.secret.as_slice(),
        );
        packet_container.set_metadata(status);
        Ok(())
    }
}

} // verus!
