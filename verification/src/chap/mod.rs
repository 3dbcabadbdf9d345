pub mod code;
pub mod data;

use crate::bytes::{extend_bytes, header_length_field, u16_be_bytes};
use crate::chap::code::ChapPacketCode;
use crate::chap::data::{
    ChapPacketData, ChapPacketDataView, chap_data_code, chap_data_decode, chap_data_encode,
    chap_data_is_encodable, chap_data_length, lemma_chap_data_decode_encode,
    lemma_chap_data_encode_decode,
};
use vstd::prelude::*;

verus! {

/// Size of code, identifier and length at the start of every CHAP packet.
pub const CHAP_PACKET_HEADER_SIZE: usize = 4;

#[derive(Debug, Clone, Copy, PartialEq, Eq, Structural)]
pub enum ChapPacketError {
    NotEnoughData,
    InvalidCode,
}

/// A CHAP packet as a mathematical value.
pub struct ChapPacketView {
    pub identifier: u8,
    pub data: ChapPacketDataView,
}

#[derive(Debug, PartialEq, Eq)]
pub struct ChapPacket {
    identifier: u8,
    data: ChapPacketData,
}

impl View for ChapPacket {
    type V = ChapPacketView;

    closed spec fn view(&self) -> ChapPacketView {
        ChapPacketView { identifier: self.identifier, data: self.data@ }
    }
}

/// The total length of a CHAP packet on the wire.
pub open spec fn chap_packet_length(packet: ChapPacketView) -> int {
    CHAP_PACKET_HEADER_SIZE + chap_data_length(packet.data)
}

/// The bytes of a CHAP packet; the length field holds the total length truncated to 16 bits.
pub open spec fn chap_packet_encode(packet: ChapPacketView) -> Seq<u8> {
    seq![chap_data_code(packet.data).spec_to_byte(), packet.identifier] + u16_be_bytes(
        chap_packet_length(packet) as u16,
    ) + chap_data_encode(packet.data)
}

/// Reading a CHAP packet from the start of `buffer`; bytes after its length field are ignored.
pub open spec fn chap_packet_decode(buffer: Seq<u8>) -> Result<ChapPacketView, ChapPacketError> {
    if buffer.len() < CHAP_PACKET_HEADER_SIZE {
        Err(ChapPacketError::NotEnoughData)
    } else {
        match ChapPacketCode::spec_from_byte(buffer[0]) {
            Err(_) => Err(ChapPacketError::InvalidCode),
            Ok(code) => {
                let length = header_length_field(buffer);
                if buffer.len() < length {
                    Err(ChapPacketError::NotEnoughData)
                } else {
                    match chap_data_decode(
                        code,
                        buffer.subrange(CHAP_PACKET_HEADER_SIZE as int, length),
                    ) {
                        Ok(data) => Ok(ChapPacketView { identifier: buffer[1], data }),
                        Err(error) => Err(error),
                    }
                }
            },
        }
    }
}

/// The buffers on which reading a CHAP packet stops short: a valid code with a length field
/// below the header size.
pub open spec fn chap_packet_parse_panics(buffer: Seq<u8>) -> bool {
    &&& buffer.len() >= CHAP_PACKET_HEADER_SIZE
    &&& ChapPacketCode::spec_from_byte(buffer[0]) is Ok
    &&& header_length_field(buffer) < CHAP_PACKET_HEADER_SIZE
}

/// The length of the encoded data is the data's length.
pub proof fn lemma_chap_data_encode_length(data: ChapPacketDataView)
    ensures
        chap_data_encode(data).len() == chap_data_length(data),
{
}

impl ChapPacket {
    pub fn new(identifier: u8, data: ChapPacketData) -> (packet: Self)
        ensures
            packet@ == (ChapPacketView { identifier, data: data@ }),
    {
        Self { identifier, data }
    }

    pub fn code(&self) -> (code: ChapPacketCode)
        ensures
            code == chap_data_code(self@.data),
    {
        self.data.code()
    }

    pub fn identifier(&self) -> (identifier: u8)
        ensures
            identifier == self@.identifier,
    {
        self.identifier
    }

    pub fn length(&self) -> (length: usize)
        requires
            chap_packet_length(self@) <= usize::MAX,
        ensures
            length == chap_packet_length(self@),
    {
        CHAP_PACKET_HEADER_SIZE + self.data.length()
    }

    pub fn data(&self) -> (data: &ChapPacketData)
        ensures
            data@ == self@.data,
    {
        &self.data
    }

    pub fn to_bytes(&self) -> (bytes: Vec<u8>)
        ensures
            bytes@ == chap_packet_encode(self@),
    {
        let data_bytes = self.data.to_bytes();
        proof {
            lemma_chap_data_encode_length(self@.data);
        }
        let mut buffer: Vec<u8> = Vec::new();
        buffer.push(self.data.code().to_byte());
        buffer.push(self.identifier);
        buffer.push(0);
        buffer.push(0);
        extend_bytes(&mut buffer, data_bytes.as_slice());
        let length_field: u16 = buffer.len() as u16;
        buffer.set(2, (length_field / 256) as u8);
        buffer.set(3, (length_field % 256) as u8);
        assert(buffer@ =~= chap_packet_encode(self@));
        buffer
    }

    /// Whether `parse` cannot read `buffer`: a whole header with a known code whose length
    /// field is below the header size. Callers test this before they parse bytes from the
    /// network.
    pub fn parse_would_panic(buffer: &[u8]) -> (would_panic: bool)
        ensures
            would_panic == chap_packet_parse_panics(buffer@),
    {
        buffer.len() >= CHAP_PACKET_HEADER_SIZE && ChapPacketCode::from_byte(buffer[0]).is_ok()
            && (buffer[2] as usize) * 256 + (buffer[3] as usize) < CHAP_PACKET_HEADER_SIZE
    }

    /// Reads a CHAP packet from the start of `buffer`.
    pub fn parse(buffer: &[u8]) -> (result: Result<Self, ChapPacketError>)
        requires
            !chap_packet_parse_panics(buffer@),
        ensures
            match chap_packet_decode(buffer@) {
                Ok(packet) => result matches Ok(p) && p@ == packet,
                Err(error) => result matches Err(e) && e == error,
            },
    {
        if buffer.len() < CHAP_PACKET_HEADER_SIZE {
            return Err(ChapPacketError::NotEnoughData);
        }
        let code = match ChapPacketCode::from_byte(buffer[0]) {
            Ok(code) => code,
            Err(_) => {
                return Err(ChapPacketError::InvalidCode);
            },
        };
        let identifier = buffer[1];
        let length: usize = buffer[2] as usize * 256 + buffer[3] as usize;
        if buffer.len() < length {
            return Err(ChapPacketError::NotEnoughData);
        }
        let data = ChapPacketData::parse(code, &buffer[CHAP_PACKET_HEADER_SIZE..length])?;
        Ok(Self { identifier, data })
    }
}

/// A CHAP packet can be written and read back unchanged.
pub open spec fn chap_packet_is_encodable(packet: ChapPacketView) -> bool {
    &&& chap_data_is_encodable(packet.data)
    &&& chap_packet_length(packet) <= u16::MAX
}

/// Reading the bytes of an encodable CHAP packet gives the packet back.
pub proof fn lemma_chap_packet_decode_encode(packet: ChapPacketView)
    requires
        chap_packet_is_encodable(packet),
    ensures
        chap_packet_decode(chap_packet_encode(packet)) == Ok::<ChapPacketView, ChapPacketError>(
            packet,
        ),
{
    let bytes = chap_packet_encode(packet);
    lemma_chap_data_encode_length(packet.data);
    lemma_chap_data_decode_encode(packet.data);
    crate::chap::code::lemma_chap_packet_code_byte_roundtrip(chap_data_code(packet.data), 0);
    assert(header_length_field(bytes) == chap_packet_length(packet));
    assert(bytes.subrange(CHAP_PACKET_HEADER_SIZE as int, chap_packet_length(packet))
        =~= chap_data_encode(packet.data));
}

/// Writing a CHAP packet that was read gives back the bytes up to its length field.
pub proof fn lemma_chap_packet_encode_decode(buffer: Seq<u8>)
    requires
        chap_packet_decode(buffer) is Ok,
        !chap_packet_parse_panics(buffer),
    ensures
        chap_packet_encode(chap_packet_decode(buffer)->Ok_0) == buffer.subrange(
            0,
            header_length_field(buffer),
        ),
{
    let code = ChapPacketCode::spec_from_byte(buffer[0])->Ok_0;
    let length = header_length_field(buffer);
    let data_bytes = buffer.subrange(CHAP_PACKET_HEADER_SIZE as int, length);
    lemma_chap_data_encode_decode(code, data_bytes);
    crate::chap::code::lemma_chap_packet_code_byte_roundtrip(code, buffer[0]);
    let packet = chap_packet_decode(buffer)->Ok_0;
    lemma_chap_data_encode_length(packet.data);
    assert(chap_packet_length(packet) == length);
    assert(u16_be_bytes(length as u16) =~= seq![buffer[2], buffer[3]]);
    assert(chap_packet_encode(packet) =~= buffer.subrange(0, length));
}

impl From<ChapPacket> for Vec<u8> {
    fn from(packet: ChapPacket) -> (bytes: Vec<u8>)
        ensures
            bytes@ == chap_packet_encode(packet@),
    {
        packet.to_bytes()
    }
}

impl vstd::std_specs::convert::FromSpecImpl<ChapPacket> for Vec<u8> {
    open spec fn obeys_from_spec() -> bool {
        false
    }

    open spec fn from_spec(packet: ChapPacket) -> Vec<u8> {
        arbitrary()
    }
}

} // verus!
