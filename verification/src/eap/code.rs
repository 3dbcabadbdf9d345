use vstd::prelude::*;

verus! {

/// The code byte of an EAP packet.
#[derive(Debug, Copy, Clone, PartialEq, Eq, Structural)]
pub enum EapPacketCode {
    Request,
    Response,
    Success,
    Failure,
    Other(u8),
}

impl EapPacketCode {
    pub open spec fn spec_from_byte(byte: u8) -> EapPacketCode {
        match byte {
            1 => EapPacketCode::Request,
            2 => EapPacketCode::Response,
            3 => EapPacketCode::Success,
            4 => EapPacketCode::Failure,
            other => EapPacketCode::Other(other),
        }
    }

    pub open spec fn spec_to_byte(self) -> u8 {
        match self {
            EapPacketCode::Request => 1,
            EapPacketCode::Response => 2,
            EapPacketCode::Success => 3,
            EapPacketCode::Failure => 4,
            EapPacketCode::Other(other) => other,
        }
    }

    /// A value is canonical unless it is `Other` holding the byte of a named value.
    pub open spec fn is_canonical(self) -> bool {
        Self::spec_from_byte(self.spec_to_byte()) == self
    }

    pub fn from_byte(byte: u8) -> (value: Self)
        ensures
            value == Self::spec_from_byte(byte),
    {
        match byte {
            1 => EapPacketCode::Request,
            2 => EapPacketCode::Response,
            3 => EapPacketCode::Success,
            4 => EapPacketCode::Failure,
            other => EapPacketCode::Other(other),
        }
    }

    pub fn to_byte(self) -> (byte: u8)
        ensures
            byte == self.spec_to_byte(),
    {
        match self {
            EapPacketCode::Request => 1,
            EapPacketCode::Response => 2,
            EapPacketCode::Success => 3,
            EapPacketCode::Failure => 4,
            EapPacketCode::Other(other) => other,
        }
    }
}

/// Every byte decodes to a canonical value that encodes back to it.
pub proof fn lemma_eap_packet_code_byte_roundtrip(byte: u8)
    ensures
        EapPacketCode::spec_from_byte(byte).spec_to_byte() == byte,
        EapPacketCode::spec_from_byte(byte).is_canonical(),
{
}

impl From<u8> for EapPacketCode {
    fn from(byte: u8) -> (value: Self) {
        Self::from_byte(byte)
    }
}

impl vstd::std_specs::convert::FromSpecImpl<u8> for EapPacketCode {
    open spec fn obeys_from_spec() -> bool {
        true
    }

    open spec fn from_spec(byte: u8) -> Self {
        Self::spec_from_byte(byte)
    }
}

impl From<EapPacketCode> for u8 {
    fn from(value: EapPacketCode) -> (byte: u8) {
        value.to_byte()
    }
}

impl vstd::std_specs::convert::FromSpecImpl<EapPacketCode> for u8 {
    open spec fn obeys_from_spec() -> bool {
        true
    }

    open spec fn from_spec(value: EapPacketCode) -> u8 {
        value.spec_to_byte()
    }
}


/// The wire number of every EAP code, as RFC 3748 assign them; every other byte reads as
/// an unknown value that keeps the byte.
pub proof fn lemma_eap_packet_code_wire_values()
    ensures
        EapPacketCode::spec_from_byte(1) == EapPacketCode::Request,
        EapPacketCode::Request.spec_to_byte() == 1,
        EapPacketCode::spec_from_byte(2) == EapPacketCode::Response,
        EapPacketCode::Response.spec_to_byte() == 2,
        EapPacketCode::spec_from_byte(3) == EapPacketCode::Success,
        EapPacketCode::Success.spec_to_byte() == 3,
        EapPacketCode::spec_from_byte(4) == EapPacketCode::Failure,
        EapPacketCode::Failure.spec_to_byte() == 4,
        forall|byte: u8| byte != 1 && byte != 2 && byte != 3 && byte != 4 ==> #[trigger] EapPacketCode::spec_from_byte(byte) == EapPacketCode::Other(byte),
        forall|byte: u8| byte != 1 && byte != 2 && byte != 3 && byte != 4 ==> #[trigger] EapPacketCode::Other(byte).spec_to_byte() == byte,
{
}

} // verus!
