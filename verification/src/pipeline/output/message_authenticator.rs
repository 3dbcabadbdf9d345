use crate::digest::{compute_hmac_md5, hmac_md5};
use crate::pipeline::input::message_authenticator::{
    MessageAuthenticatorStatus, message_authenticator_status, zero_authenticator,
    zeroed_message_authenticators,
};
use crate::pipeline::output::RadiusOutputError;
use crate::pipeline::output::phase::RadiusOutputPhaseCode;
use crate::radius::{RadiusPacketView, radius_encode};
use crate::radius::attribute::{
    RadiusPacketAttribute, RadiusPacketAttributeType, attributes_not_of_type,
    attributes_of_type, is_position_of_nth, lemma_attributes_not_of_type_excludes,
    lemma_attributes_of_type_membership, lemma_filters_push,
};
use crate::radius::code::RadiusPacketCode;
use crate::radius::container::{
    RadiusPacketContainerView, RadiusPacketInputContainer, RadiusPacketOutputContainer,
};
use vstd::prelude::*;
use vstd::string::StringSliceAdditionalSpecFns;

verus! {

/// Whether a packet of this code is a reply whose codes are computed over the request's
/// authenticator: Access-Accept, Access-Reject and Access-Challenge.
pub open spec fn is_reply_to_access_request(code: RadiusPacketCode) -> bool {
    code == RadiusPacketCode::AccessAccept || code == RadiusPacketCode::AccessReject || code
        == RadiusPacketCode::AccessChallenge
}

/// The packet with its Message-Authenticator attributes replaced by one zeroed attribute at
/// the end.
pub open spec fn with_zeroed_message_authenticator(packet: RadiusPacketView) -> RadiusPacketView {
    RadiusPacketView {
        attributes: attributes_not_of_type(
            packet.attributes,
            RadiusPacketAttributeType::MessageAuthenticator,
        ).push((RadiusPacketAttributeType::MessageAuthenticator, zero_authenticator())),
        ..packet
    }
}

/// The Message-Authenticator of a packet to send under `secret`: the HMAC-MD5 code of the
/// packet with a zeroed Message-Authenticator, taken with the request's authenticator in
/// place of its own where the packet replies to an Access-Request.
pub open spec fn outgoing_message_authenticator(
    secret: Seq<u8>,
    packet: RadiusPacketView,
    request_authenticator: Seq<u8>,
) -> Seq<u8> {
    let zeroed = with_zeroed_message_authenticator(packet);
    let hashed = if is_reply_to_access_request(packet.code) {
        RadiusPacketView { authenticator: request_authenticator, ..zeroed }
    } else {
        zeroed
    };
    hmac_md5(secret, radius_encode(hashed))
}

/// The packet signed: its Message-Authenticator attributes replaced by one at the end that
/// holds the code computed under `secret`.
pub open spec fn signed_packet(
    secret: Seq<u8>,
    packet: RadiusPacketView,
    request_authenticator: Seq<u8>,
) -> RadiusPacketView {
    RadiusPacketView {
        attributes: attributes_not_of_type(
            packet.attributes,
            RadiusPacketAttributeType::MessageAuthenticator,
        ).push(
            (
                RadiusPacketAttributeType::MessageAuthenticator,
                outgoing_message_authenticator(secret, packet, request_authenticator),
            ),
        ),
        ..packet
    }
}

/// The output container with its packet signed.
pub open spec fn with_signed_packet(
    secret: Seq<u8>,
    container: RadiusPacketContainerView,
    request_authenticator: Seq<u8>,
) -> RadiusPacketContainerView {
    RadiusPacketContainerView {
        packet: signed_packet(secret, container.packet, request_authenticator),
        ..container
    }
}

/// A signed packet checks as `Valid` under the same secret: as sent where it is no reply
/// to an Access-Request, and with the request's authenticator in place of its own where it
/// is one.
pub proof fn lemma_signed_packet_is_valid(
    secret: Seq<u8>,
    packet: RadiusPacketView,
    request_authenticator: Seq<u8>,
)
    ensures
        ({
            let signed = signed_packet(secret, packet, request_authenticator);
            let checked = if is_reply_to_access_request(packet.code) {
                RadiusPacketView { authenticator: request_authenticator, ..signed }
            } else {
                signed
            };
            message_authenticator_status(secret, checked) == MessageAuthenticatorStatus::Valid
        }),
{
    let kept = attributes_not_of_type(
        packet.attributes,
        RadiusPacketAttributeType::MessageAuthenticator,
    );
    let code = outgoing_message_authenticator(secret, packet, request_authenticator);
    let signed = signed_packet(secret, packet, request_authenticator);
    let checked = if is_reply_to_access_request(packet.code) {
        RadiusPacketView { authenticator: request_authenticator, ..signed }
    } else {
        signed
    };
    lemma_attributes_not_of_type_excludes(
        packet.attributes,
        RadiusPacketAttributeType::MessageAuthenticator,
    );
    lemma_attributes_of_type_membership(kept, RadiusPacketAttributeType::MessageAuthenticator);
    lemma_filters_push(
        kept,
        (RadiusPacketAttributeType::MessageAuthenticator, code),
        RadiusPacketAttributeType::MessageAuthenticator,
    );
    assert(attributes_of_type(kept, RadiusPacketAttributeType::MessageAuthenticator).len() == 0);
    assert(attributes_of_type(checked.attributes, RadiusPacketAttributeType::MessageAuthenticator)[0]
        == (RadiusPacketAttributeType::MessageAuthenticator, code));
    let zeroed = with_zeroed_message_authenticator(packet);
    let hashed = if is_reply_to_access_request(packet.code) {
        RadiusPacketView { authenticator: request_authenticator, ..zeroed }
    } else {
        zeroed
    };
    assert(zeroed_message_authenticators(checked).attributes =~= hashed.attributes);
    assert(zeroed_message_authenticators(checked) == hashed);
}

/// Signs a packet to send with a Message-Authenticator attribute under the shared secret.
pub struct MessageAuthenticatorRadiusOutputPipelineStep {
    secret: Vec<u8>,
}

impl View for MessageAuthenticatorRadiusOutputPipelineStep {
    type V = Seq<u8>;

    /// The shared secret's bytes.
    closed spec fn view(&self) -> Seq<u8> {
        self.secret@
    }
}

impl MessageAuthenticatorRadiusOutputPipelineStep {
    pub fn new(secret: &str) -> (step: Self)
        ensures
            step@ == secret.spec_bytes(),
    {
        Self { secret: vstd::slice::slice_to_vec(secret.as_bytes()) }
    }

    pub fn name(&self) -> (name: String)
        ensures
            name@ == "Sign"@,
    {
        "Sign".to_owned()
    }

    pub fn phase_code(&self) -> (phase_code: RadiusOutputPhaseCode)
        ensures
            phase_code == RadiusOutputPhaseCode::MessageAuthenticator,
    {
        RadiusOutputPhaseCode::MessageAuthenticator
    }

    /// Replaces the Message-Authenticator attributes of the packet to send by one, at the end,
    /// that holds the code computed under the secret.
    pub fn process(
        &mut self,
        output_packet_container: &mut RadiusPacketOutputContainer,
        input_packet_container: &RadiusPacketInputContainer,
    ) -> (result: Result<(), RadiusOutputError>)
        ensures
            result is Ok,
            *final(self) == *old(self),
            final(output_packet_container)@ == with_signed_packet(
                old(self)@,
                old(output_packet_container)@,
                input_packet_container@.packet.authenticator,
            ),
    {
        let ghost initial = output_packet_container@.packet;
        let packet = output_packet_container.packet_mut();
        let attributes = packet.attributes_mut();
        attributes.remove_all(RadiusPacketAttributeType::MessageAuthenticator);
        let ghost kept = attributes@;
        proof {
            lemma_attributes_not_of_type_excludes(initial.attributes, RadiusPacketAttributeType::MessageAuthenticator);
        }
        let zeros: Vec<u8> = vec![0u8; 16];
        assert(zeros@ =~= zero_authenticator());
        attributes.push(
            RadiusPacketAttribute::from_tag_and_value(
                RadiusPacketAttributeType::MessageAuthenticator,
                zeros,
            ),
        );
        assert(attributes@ =~= with_zeroed_message_authenticator(initial).attributes);
        let mut packet_clone = packet.clone();
        let code = packet.code();
        if code == RadiusPacketCode::AccessChallenge || code == RadiusPacketCode::AccessAccept
            || code == RadiusPacketCode::AccessReject {
            packet_clone.set_authenticator(input_packet_container.packet().authenticator());
        }
        assert(packet_clone@ == (if is_reply_to_access_request(initial.code) {
            RadiusPacketView {
                authenticator: input_packet_container@.packet.authenticator,
                ..with_zeroed_message_authenticator(initial)
            }
        } else {
            with_zeroed_message_authenticator(initial)
        }));
        let packet_bytes = packet_clone.to_bytes();
        let message_authenticator = compute_hmac_md5(self.secret.as_slice(), packet_bytes.as_slice());
        let ghost zeroed = packet@.attributes;
        let replaced = packet.attributes_mut().replace_first_value(
            RadiusPacketAttributeType::MessageAuthenticator,
            vstd::slice::slice_to_vec(message_authenticator.as_slice()),
        );
        proof {
            let position = choose|position: int|
                is_position_of_nth(zeroed, RadiusPacketAttributeType::MessageAuthenticator, 0, position)
                && packet@.attributes == zeroed.update(position, (RadiusPacketAttributeType::MessageAuthenticator, message_authenticator@));
            if position < zeroed.len() - 1 {
                assert(zeroed[position] == kept[position]);
            }
            assert(position == zeroed.len() - 1);
        }
        assert(message_authenticator@ == outgoing_message_authenticator(self.secret@, initial, input_packet_container@.packet.authenticator));
        assert(packet@.attributes =~= signed_packet(self.secret@, initial, input_packet_container@.packet.authenticator).attributes);
        assert(packet@ == signed_packet(self.secret@, initial, input_packet_container@.packet.authenticator));
        Ok(())
    }
}

} // verus!
