use vstd::prelude::*;

verus! {

/// The code byte of a CHAP packet; only the four codes below exist.
#[derive(Debug, Copy, Clone, PartialEq, Eq, Structural)]
pub enum ChapPacketCode {
    Challenge,
    Response,
    Success,
    Failure,
}

impl ChapPacketCode {
    pub open spec fn spec_from_byte(byte: u8) -> Result<ChapPacketCode, u8> {
        match byte {
            1 => Ok(ChapPacketCode::Challenge),
            2 => Ok(ChapPacketCode::Response),
            3 => Ok(ChapPacketCode::Success),
            4 => Ok(ChapPacketCode::Failure),
            other => Err(other),
        }
    }

    pub open spec fn spec_to_byte(self) -> u8 {
        match self {
            ChapPacketCode::Challenge => 1,
            ChapPacketCode::Response => 2,
            ChapPacketCode::Success => 3,
            ChapPacketCode::Failure => 4,
        }
    }

    pub fn from_byte(byte: u8) -> (code: Result<Self, u8>)
        ensures
            code == Self::spec_from_byte(byte),
    {
        match byte {
            1 => Ok(ChapPacketCode::Challenge),
            2 => Ok(ChapPacketCode::Response),
            3 => Ok(ChapPacketCode::Success),
            4 => Ok(ChapPacketCode::Failure),
            other => Err(other),
        }
    }

    pub fn to_byte(self) -> (byte: u8)
        ensures
            byte == self.spec_to_byte(),
    {
        match self {
            ChapPacketCode::Challenge => 1,
            ChapPacketCode::Response => 2,
            ChapPacketCode::Success => 3,
            ChapPacketCode::Failure => 4,
        }
    }
}

/// Encoding a code and decoding its byte gives the code back; a byte that decodes encodes back.
pub proof fn lemma_chap_packet_code_byte_roundtrip(code: ChapPacketCode, byte: u8)
    ensures
        ChapPacketCode::spec_from_byte(code.spec_to_byte()) == Ok::<ChapPacketCode, u8>(code),
        ChapPacketCode::spec_from_byte(byte) matches Ok(c) ==> c.spec_to_byte() == byte,
{
}

impl TryFrom<u8> for ChapPacketCode {
    type Error = u8;

    fn try_from(byte: u8) -> (code: Result<Self, u8>) {
        Self::from_byte(byte)
    }
}

impl vstd::std_specs::convert::TryFromSpecImpl<u8> for ChapPacketCode {
    open spec fn obeys_try_from_spec() -> bool {
        true
    }

    open spec fn try_from_spec(byte: u8) -> Result<Self, u8> {
        Self::spec_from_byte(byte)
    }
}

impl From<ChapPacketCode> for u8 {
    fn from(code: ChapPacketCode) -> (byte: u8) {
        code.to_byte()
    }
}

impl vstd::std_specs::convert::FromSpecImpl<ChapPacketCode> for u8 {
    open spec fn obeys_from_spec() -> bool {
        true
    }

    open spec fn from_spec(code: ChapPacketCode) -> u8 {
        code.spec_to_byte()
    }
}


/// The wire number of every CHAP code, as RFC 1994 assign them; every other byte reads as
/// an error that carries the byte.
pub proof fn lemma_chap_packet_code_wire_values()
    ensures
        ChapPacketCode::spec_from_byte(1) == Ok::<ChapPacketCode, u8>(ChapPacketCode::Challenge),
        ChapPacketCode::Challenge.spec_to_byte() == 1,
        ChapPacketCode::spec_from_byte(2) == Ok::<ChapPacketCode, u8>(ChapPacketCode::Response),
        ChapPacketCode::Response.spec_to_byte() == 2,
        ChapPacketCode::spec_from_byte(3) == Ok::<ChapPacketCode, u8>(ChapPacketCode::Success),
        ChapPacketCode::Success.spec_to_byte() == 3,
        ChapPacketCode::spec_from_byte(4) == Ok::<ChapPacketCode, u8>(ChapPacketCode::Failure),
        ChapPacketCode::Failure.spec_to_byte() == 4,
        forall|byte: u8| byte != 1 && byte != 2 && byte != 3 && byte != 4 ==> #[trigger] ChapPacketCode::spec_from_byte(byte) == Err::<ChapPacketCode, u8>(byte),
{
}

} // verus!
