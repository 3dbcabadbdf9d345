pub mod chap_packet;
pub mod eap_message;
pub mod eap_type_md5_challenge;
pub mod message_authenticator;
pub mod phase;
pub mod step;

use crate::chap::data::{ChapPacketDataView, chap_data_encode};
use crate::eap::{EapPacket, EapPacketView};
use crate::eap::data::{EapPacketDataView, EapPacketTypeData, EapPacketData, EapPacketTypeDataView};
use crate::identifier::EapIdentifier;
use crate::identifier::pool::{EapIdentifierPool, IdentifierPoolView, pool_allocate};
use crate::radius::container::{RadiusPacketContainerView, RadiusPacketOutputContainer};
use crate::radius::metadata::RadiusPacketMetadata;
use vstd::prelude::*;

verus! {

/// Why a step that builds a packet to send failed.
#[derive(Debug, Copy, Clone, PartialEq, Eq, Structural)]
pub enum RadiusOutputError {
    NoIdentifierAvailable,
}

/// Marks the pipeline that builds packets to send.
pub struct RadiusOutputPipelineTarget;

/// The EAP request that carries CHAP data as MD5-Challenge type data.
pub open spec fn md5_challenge_request(identifier: u8, data: ChapPacketDataView) -> EapPacketView {
    EapPacketView {
        identifier: EapIdentifier(identifier),
        data: EapPacketDataView::Request {
            type_data: EapPacketTypeDataView::MD5Challenge(chap_data_encode(data)),
        },
    }
}

/// What asking for an EAP request with the CHAP data `data` at time `now` does to the pool
/// and the container: where the container holds an EAP packet already nothing happens;
/// otherwise an identifier is allocated and the request recorded with it, or the call fails
/// when the pool has none.
pub open spec fn request_md5_challenge(
    pool: IdentifierPoolView,
    container: RadiusPacketContainerView,
    data: ChapPacketDataView,
    now: u64,
) -> (IdentifierPoolView, RadiusPacketContainerView, Result<(), RadiusOutputError>) {
    if container.metadata.eap_packet is Some {
        (pool, container, Ok(()))
    } else {
        let (allocated_pool, identifier) = pool_allocate(pool, now);
        match identifier {
            Some(identifier) => (
                allocated_pool,
                RadiusPacketContainerView {
                    metadata: EapPacket::spec_with(
                        container.metadata,
                        Some(md5_challenge_request(identifier, data)),
                    ),
                    ..container
                },
                Ok(()),
            ),
            None => (allocated_pool, container, Err(RadiusOutputError::NoIdentifierAvailable)),
        }
    }
}

/// Records an EAP request with the CHAP data `data_bytes` where the container holds no EAP
/// packet yet, taking its identifier from the pool.
pub(crate) fn record_md5_challenge_request(
    pool: &mut EapIdentifierPool,
    output_packet_container: &mut RadiusPacketOutputContainer,
    data: Ghost<ChapPacketDataView>,
    data_bytes: Vec<u8>,
    now: u64,
) -> (result: Result<(), RadiusOutputError>)
    requires
        data_bytes@ == chap_data_encode(data@),
    ensures
        (final(pool).0@, final(output_packet_container)@, result) == request_md5_challenge(
            old(pool).0@,
            old(output_packet_container)@,
            data@,
            now,
        ),
{
    if output_packet_container.has_metadata::<EapPacket>() {
        return Ok(());
    }
    let eap_identifier = match pool.allocate(now) {
        Some(eap_identifier) => eap_identifier,
        None => {
            return Err(RadiusOutputError::NoIdentifierAvailable);
        },
    };
    let eap_packet = EapPacket::new(
        eap_identifier,
        EapPacketData::Request { type_data: EapPacketTypeData::MD5Challenge(data_bytes) },
    );
    output_packet_container.set_metadata(eap_packet);
    Ok(())
}

} // verus!
