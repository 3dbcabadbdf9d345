use vstd::prelude::*;

verus! {

/// The code byte of a RADIUS packet.
#[derive(Debug, Copy, Clone, PartialEq, Eq, Structural)]
pub enum RadiusPacketCode {
    AccessRequest,
    AccessAccept,
    AccessReject,
    AccountingRequest,
    AccountingResponse,
    AccessChallenge,
    Other(u8),
}

impl RadiusPacketCode {
    pub open spec fn spec_from_byte(byte: u8) -> RadiusPacketCode {
        match byte {
            1 => RadiusPacketCode::AccessRequest,
            2 => RadiusPacketCode::AccessAccept,
            3 => RadiusPacketCode::AccessReject,
            4 => RadiusPacketCode::AccountingRequest,
            5 => RadiusPacketCode::AccountingResponse,
            11 => RadiusPacketCode::AccessChallenge,
            other => RadiusPacketCode::Other(other),
        }
    }

    pub open spec fn spec_to_byte(self) -> u8 {
        match self {
            RadiusPacketCode::AccessRequest => 1,
            RadiusPacketCode::AccessAccept => 2,
            RadiusPacketCode::AccessReject => 3,
            RadiusPacketCode::AccountingRequest => 4,
            RadiusPacketCode::AccountingResponse => 5,
            RadiusPacketCode::AccessChallenge => 11,
            RadiusPacketCode::Other(other) => other,
        }
    }

    /// A code is canonical unless it is `Other` holding the byte of a named code.
    pub open spec fn is_canonical(self) -> bool {
        Self::spec_from_byte(self.spec_to_byte()) == self
    }

    pub fn from_byte(byte: u8) -> (code: Self)
        ensures
            code == Self::spec_from_byte(byte),
    {
        match byte {
            1 => RadiusPacketCode::AccessRequest,
            2 => RadiusPacketCode::AccessAccept,
            3 => RadiusPacketCode::AccessReject,
            4 => RadiusPacketCode::AccountingRequest,
            5 => RadiusPacketCode::AccountingResponse,
            11 => RadiusPacketCode::AccessChallenge,
            other => RadiusPacketCode::Other(other),
        }
    }

    pub fn to_byte(self) -> (byte: u8)
        ensures
            byte == self.spec_to_byte(),
    {
        match self {
            RadiusPacketCode::AccessRequest => 1,
            RadiusPacketCode::AccessAccept => 2,
            RadiusPacketCode::AccessReject => 3,
            RadiusPacketCode::AccountingRequest => 4,
            RadiusPacketCode::AccountingResponse => 5,
            RadiusPacketCode::AccessChallenge => 11,
            RadiusPacketCode::Other(other) => other,
        }
    }

    pub open spec fn spec_is_request(self) -> bool {
        self is AccessRequest || self is AccountingRequest
    }

    pub open spec fn spec_is_response(self) -> bool {
        self is AccessAccept || self is AccessReject || self is AccessChallenge
            || self is AccountingResponse
    }

    pub fn is_request(&self) -> (result: bool)
        ensures
            result == self.spec_is_request(),
    {
        matches!(self, RadiusPacketCode::AccessRequest | RadiusPacketCode::AccountingRequest)
    }

    pub fn is_response(&self) -> (result: bool)
        ensures
            result == self.spec_is_response(),
    {
        matches!(
            self,
            RadiusPacketCode::AccessAccept | RadiusPacketCode::AccessReject
                | RadiusPacketCode::AccessChallenge | RadiusPacketCode::AccountingResponse
        )
    }
}

/// Every byte decodes to a code that encodes back to it.
pub proof fn lemma_radius_packet_code_byte_roundtrip(byte: u8)
    ensures
        RadiusPacketCode::spec_from_byte(byte).spec_to_byte() == byte,
        RadiusPacketCode::spec_from_byte(byte).is_canonical(),
{
}

/// No code is both a request and a response.
pub proof fn lemma_request_and_response_are_disjoint(code: RadiusPacketCode)
    ensures
        !(code.spec_is_request() && code.spec_is_response()),
{
}

impl From<u8> for RadiusPacketCode {
    fn from(byte: u8) -> (code: Self) {
        Self::from_byte(byte)
    }
}

impl vstd::std_specs::convert::FromSpecImpl<u8> for RadiusPacketCode {
    open spec fn obeys_from_spec() -> bool {
        true
    }

    open spec fn from_spec(byte: u8) -> Self {
        Self::spec_from_byte(byte)
    }
}

impl From<RadiusPacketCode> for u8 {
    fn from(code: RadiusPacketCode) -> (byte: u8) {
        code.to_byte()
    }
}

impl vstd::std_specs::convert::FromSpecImpl<RadiusPacketCode> for u8 {
    open spec fn obeys_from_spec() -> bool {
        true
    }

    open spec fn from_spec(code: RadiusPacketCode) -> u8 {
        code.spec_to_byte()
    }
}


/// The wire number of every RADIUS packet code, as RFC 2865 and RFC 2866 assign them; every other byte reads as
/// an unknown value that keeps the byte.
pub proof fn lemma_radius_packet_code_wire_values()
    ensures
        RadiusPacketCode::spec_from_byte(1) == RadiusPacketCode::AccessRequest,
        RadiusPacketCode::AccessRequest.spec_to_byte() == 1,
        RadiusPacketCode::spec_from_byte(2) == RadiusPacketCode::AccessAccept,
        RadiusPacketCode::AccessAccept.spec_to_byte() == 2,
        RadiusPacketCode::spec_from_byte(3) == RadiusPacketCode::AccessReject,
        RadiusPacketCode::AccessReject.spec_to_byte() == 3,
        RadiusPacketCode::spec_from_byte(4) == RadiusPacketCode::AccountingRequest,
        RadiusPacketCode::AccountingRequest.spec_to_byte() == 4,
        RadiusPacketCode::spec_from_byte(5) == RadiusPacketCode::AccountingResponse,
        RadiusPacketCode::AccountingResponse.spec_to_byte() == 5,
        RadiusPacketCode::spec_from_byte(11) == RadiusPacketCode::AccessChallenge,
        RadiusPacketCode::AccessChallenge.spec_to_byte() == 11,
        forall|byte: u8| byte != 1 && byte != 2 && byte != 3 && byte != 4 && byte != 5 && byte != 11 ==> #[trigger] RadiusPacketCode::spec_from_byte(byte) == RadiusPacketCode::Other(byte),
        forall|byte: u8| byte != 1 && byte != 2 && byte != 3 && byte != 4 && byte != 5 && byte != 11 ==> #[trigger] RadiusPacketCode::Other(byte).spec_to_byte() == byte,
{
}

} // verus!
