use crate::digest::{compute_md5, md5_digest};
use crate::bytes::extend_bytes;
use crate::pipeline::output::message_authenticator::is_reply_to_access_request;
use crate::radius::{RadiusPacket, RadiusPacketView, radius_encode};
use crate::radius::code::RadiusPacketCode;
use crate::radius::container::RadiusPacketContainer;
use crate::transformer::{RadiusPacketTransformer, RadiusPacketTransformerError};
use vstd::prelude::*;
use vstd::string::StringSliceAdditionalSpecFns;

verus! {

/// The Response Authenticator of a reply under `secret`: the MD5 digest of the reply's bytes
/// with the request's authenticator in place of its own, followed by the secret.
pub open spec fn response_authenticator(
    secret: Seq<u8>,
    packet: RadiusPacketView,
    request_authenticator: Seq<u8>,
) -> Seq<u8> {
    md5_digest(
        radius_encode(RadiusPacketView { authenticator: request_authenticator, ..packet })
            + secret,
    )
}

/// The packet with its Response Authenticator where it replies to an Access-Request;
/// any other packet unchanged.
pub open spec fn with_response_authenticator(
    secret: Seq<u8>,
    packet: RadiusPacketView,
    request_authenticator: Seq<u8>,
) -> RadiusPacketView {
    if is_reply_to_access_request(packet.code) {
        RadiusPacketView {
            authenticator: response_authenticator(secret, packet, request_authenticator),
            ..packet
        }
    } else {
        packet
    }
}

/// A peer that holds the request's authenticator and the secret finds the Response
/// Authenticator of a transformed reply by computing it over the reply as received.
pub proof fn lemma_response_authenticator_checks(
    secret: Seq<u8>,
    packet: RadiusPacketView,
    request_authenticator: Seq<u8>,
)
    requires
        is_reply_to_access_request(packet.code),
    ensures
        ({
            let sent = with_response_authenticator(secret, packet, request_authenticator);
            sent.authenticator == response_authenticator(secret, sent, request_authenticator)
        }),
{
    let sent = with_response_authenticator(secret, packet, request_authenticator);
    assert(RadiusPacketView { authenticator: request_authenticator, ..sent } == RadiusPacketView {
        authenticator: request_authenticator,
        ..packet
    });
}

/// Sets the Response Authenticator of Access-Accept, Access-Reject and Access-Challenge
/// packets under the shared secret.
pub struct ResponseAuthenticatorRadiusPacketTransformer {
    secret: Vec<u8>,
}

impl View for ResponseAuthenticatorRadiusPacketTransformer {
    type V = Seq<u8>;

    /// The shared secret's bytes.
    closed spec fn view(&self) -> Seq<u8> {
        self.secret@
    }
}

impl ResponseAuthenticatorRadiusPacketTransformer {
    pub fn new(secret: &str) -> (transformer: Self)
        ensures
            transformer@ == secret.spec_bytes(),
    {
        Self { secret: vstd::slice::slice_to_vec(secret.as_bytes()) }
    }
}

impl RadiusPacketTransformer for ResponseAuthenticatorRadiusPacketTransformer {
    /// Sets the Response Authenticator of a reply to an Access-Request; leaves other packets
    /// as they are.
    fn transform(
        &mut self,
        packet: &mut RadiusPacket,
        original_packet_container: &RadiusPacketContainer,
    ) -> (result: Result<(), RadiusPacketTransformerError>)
        ensures
            result is Ok,
            *final(self) == *old(self),
            final(packet)@ == with_response_authenticator(
                old(self)@,
                old(packet)@,
                original_packet_container@.packet.authenticator,
            ),
    {
        let code = packet.code();
        if code == RadiusPacketCode::AccessAccept || code == RadiusPacketCode::AccessReject
            || code == RadiusPacketCode::AccessChallenge {
            let mut packet_clone = packet.clone();
            packet_clone.set_authenticator(original_packet_container.packet().authenticator());
            let mut packet_bytes = packet_clone.to_bytes();
            extend_bytes(&mut packet_bytes, self.secret.as_slice());
            let digest = compute_md5(packet_bytes.as_slice());
            packet.set_authenticator(&digest);
        }
        Ok(())
    }
}

} // verus!
