pub mod eap_packet;
pub mod eap_type_identity;
pub mod eap_type_md5_challenge;
pub mod message_authenticator;
pub mod phase;
pub mod step;

use crate::chap::ChapPacketError;
use crate::eap::EapPacketError;
use std::string::FromUtf8Error;
use vstd::prelude::*;

verus! {

/// Lets `FromUtf8Error` of std stand in signatures; its contents stay hidden.
#[verifier::external_type_specification]
#[verifier::external_body]
pub struct ExFromUtf8Error(FromUtf8Error);

/// Why a step that reads a received packet failed.
#[derive(Debug)]
pub enum RadiusInputError {
    EapPacket(EapPacketError),
    ChapPacket(ChapPacketError),
    FromUtf8(FromUtf8Error),
}

impl From<EapPacketError> for RadiusInputError {
    fn from(error: EapPacketError) -> (input_error: Self)
        ensures
            input_error == RadiusInputError::EapPacket(error),
    {
        RadiusInputError::EapPacket(error)
    }
}

impl vstd::std_specs::convert::FromSpecImpl<EapPacketError> for RadiusInputError {
    open spec fn obeys_from_spec() -> bool {
        true
    }

    open spec fn from_spec(error: EapPacketError) -> RadiusInputError {
        RadiusInputError::EapPacket(error)
    }
}

impl From<ChapPacketError> for RadiusInputError {
    fn from(error: ChapPacketError) -> (input_error: Self)
        ensures
            input_error == RadiusInputError::ChapPacket(error),
    {
        RadiusInputError::ChapPacket(error)
    }
}

impl vstd::std_specs::convert::FromSpecImpl<ChapPacketError> for RadiusInputError {
    open spec fn obeys_from_spec() -> bool {
        true
    }

    open spec fn from_spec(error: ChapPacketError) -> RadiusInputError {
        RadiusInputError::ChapPacket(error)
    }
}

impl From<FromUtf8Error> for RadiusInputError {
    fn from(error: FromUtf8Error) -> (input_error: Self)
        ensures
            input_error == RadiusInputError::FromUtf8(error),
    {
        RadiusInputError::FromUtf8(error)
    }
}

impl vstd::std_specs::convert::FromSpecImpl<FromUtf8Error> for RadiusInputError {
    open spec fn obeys_from_spec() -> bool {
        true
    }

    open spec fn from_spec(error: FromUtf8Error) -> RadiusInputError {
        RadiusInputError::FromUtf8(error)
    }
}

/// Marks the pipeline that reads received packets.
pub struct RadiusInputPipelineTarget;

/// Calls `String::from_utf8` of std. Claims what its documentation says: the bytes become the
/// string exactly when they are valid UTF-8, and the string's characters are the ones they
/// encode. Of the error nothing is claimed but that it comes on the other bytes.
#[verifier::external_body]
pub(crate) fn string_from_utf8(bytes: Vec<u8>) -> (result: Result<String, FromUtf8Error>)
    ensures
        result is Ok <==> vstd::utf8::valid_utf8(bytes@),
        result matches Ok(text) ==> text@ == vstd::utf8::decode_utf8(bytes@),
{
    String::from_utf8(bytes)
}

} // verus!
