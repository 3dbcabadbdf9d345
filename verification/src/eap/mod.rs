pub mod code;
pub mod data;
pub mod pipeline;

use crate::bytes::{extend_bytes, header_length_field, u16_be_bytes};
use crate::eap::code::EapPacketCode;
use crate::eap::data::{
    EapPacketData, EapPacketDataView, eap_data_code, eap_data_decode, eap_data_encode,
    eap_data_is_encodable, eap_data_length, lemma_eap_data_decode_encode,
    lemma_eap_data_encode_decode,
};
use crate::identifier::EapIdentifier;
use vstd::prelude::*;

verus! {

/// Size of code, identifier and length at the start of every EAP packet.
pub const EAP_PACKET_HEADER_SIZE: usize = 4;

#[derive(Debug, Clone, Copy, PartialEq, Eq, Structural)]
pub enum EapPacketError {
    NotEnoughData,
    InvalidCode,
}

/// An EAP packet as a mathematical value.
pub struct EapPacketView {
    pub identifier: EapIdentifier,
    pub data: EapPacketDataView,
}

#[derive(Debug, PartialEq, Eq)]
pub struct EapPacket {
    identifier: EapIdentifier,
    data: EapPacketData,
}

impl View for EapPacket {
    type V = EapPacketView;

    closed spec fn view(&self) -> EapPacketView {
        EapPacketView { identifier: self.identifier, data: self.data@ }
    }
}

/// The total length of an EAP packet on the wire.
pub open spec fn eap_packet_length(packet: EapPacketView) -> int {
    EAP_PACKET_HEADER_SIZE + eap_data_length(packet.data)
}

/// The bytes of an EAP packet; the length field holds the total length truncated to 16 bits.
pub open spec fn eap_packet_encode(packet: EapPacketView) -> Seq<u8> {
    seq![eap_data_code(packet.data).spec_to_byte(), packet.identifier.0] + u16_be_bytes(
        eap_packet_length(packet) as u16,
    ) + eap_data_encode(packet.data)
}

/// Reading an EAP packet from the start of `buffer`; bytes after its length field are ignored.
pub open spec fn eap_packet_decode(buffer: Seq<u8>) -> Result<EapPacketView, EapPacketError> {
    if buffer.len() < EAP_PACKET_HEADER_SIZE {
        Err(EapPacketError::NotEnoughData)
    } else {
        let length = header_length_field(buffer);
        if buffer.len() < length {
            Err(EapPacketError::NotEnoughData)
        } else {
            match eap_data_decode(
                EapPacketCode::spec_from_byte(buffer[0]),
                buffer.subrange(EAP_PACKET_HEADER_SIZE as int, length),
            ) {
                Ok(data) => Ok(EapPacketView { identifier: EapIdentifier(buffer[1]), data }),
                Err(error) => Err(error),
            }
        }
    }
}

/// The buffers on which reading an EAP packet stops short: a length field below the header
/// size.
pub open spec fn eap_packet_parse_panics(buffer: Seq<u8>) -> bool {
    &&& buffer.len() >= EAP_PACKET_HEADER_SIZE
    &&& header_length_field(buffer) < EAP_PACKET_HEADER_SIZE
}

/// An EAP packet can be written and read back unchanged.
pub open spec fn eap_packet_is_encodable(packet: EapPacketView) -> bool {
    &&& eap_data_is_encodable(packet.data)
    &&& eap_packet_length(packet) <= u16::MAX
}

/// The length of the encoded data is the data's length.
pub proof fn lemma_eap_data_encode_length(data: EapPacketDataView)
    ensures
        eap_data_encode(data).len() == eap_data_length(data),
{
    match data {
        EapPacketDataView::Request { type_data } | EapPacketDataView::Response { type_data } => {
            match type_data {
                crate::eap::data::EapPacketTypeDataView::Nak { supported_types } => {},
                _ => {},
            }
        },
        _ => {},
    }
}

/// An EAP packet built from an identifier and data keeps both, takes the data's code, and
/// its bytes are as many as its length: the header and the data.
pub proof fn lemma_eap_packet_encode_length(identifier: EapIdentifier, data: EapPacketDataView)
    ensures
        ({
            let packet = EapPacketView { identifier, data };
            &&& packet.identifier == identifier
            &&& packet.data == data
            &&& eap_packet_length(packet) == EAP_PACKET_HEADER_SIZE + eap_data_length(data)
            &&& eap_packet_encode(packet).len() == eap_packet_length(packet)
            &&& eap_packet_encode(packet)[0] == eap_data_code(data).spec_to_byte()
        }),
{
    lemma_eap_data_encode_length(data);
}

impl EapPacket {
    pub fn new(identifier: EapIdentifier, data: EapPacketData) -> (packet: Self)
        ensures
            packet@ == (EapPacketView { identifier, data: data@ }),
    {
        Self { identifier, data }
    }

    pub fn code(&self) -> (code: EapPacketCode)
        ensures
            code == eap_data_code(self@.data),
    {
        self.data.code()
    }

    pub fn identifier(&self) -> (identifier: EapIdentifier)
        ensures
            identifier == self@.identifier,
    {
        self.identifier
    }

    pub fn length(&self) -> (length: usize)
        requires
            eap_packet_length(self@) <= usize::MAX,
        ensures
            length == eap_packet_length(self@),
    {
        EAP_PACKET_HEADER_SIZE + self.data.length()
    }

    pub fn data(&self) -> (data: &EapPacketData)
        ensures
            data@ == self@.data,
    {
        &self.data
    }

    pub fn to_bytes(&self) -> (bytes: Vec<u8>)
        ensures
            bytes@ == eap_packet_encode(self@),
    {
        let data_bytes = self.data.to_bytes();
        proof {
            lemma_eap_data_encode_length(self@.data);
        }
        let mut buffer: Vec<u8> = Vec::new();
        buffer.push(self.data.code().to_byte());
        buffer.push(self.identifier.0);
        buffer.push(0);
        buffer.push(0);
        extend_bytes(&mut buffer, data_bytes.as_slice());
        let length_field: u16 = buffer.len() as u16;
        buffer.set(2, (length_field / 256) as u8);
        buffer.set(3, (length_field % 256) as u8);
        assert(buffer@ =~= eap_packet_encode(self@));
        buffer
    }

    /// Whether `parse` cannot read `buffer`: a whole header whose length field is below the
    /// header size. Callers test this before they parse bytes from the network.
    pub fn parse_would_panic(buffer: &[u8]) -> (would_panic: bool)
        ensures
            would_panic == eap_packet_parse_panics(buffer@),
    {
        buffer.len() >= EAP_PACKET_HEADER_SIZE && (buffer[2] as usize) * 256 + (buffer[3] as usize)
            < EAP_PACKET_HEADER_SIZE
    }

    /// Reads an EAP packet from the start of `buffer`.
    pub fn parse(buffer: &[u8]) -> (result: Result<Self, EapPacketError>)
        requires
            !eap_packet_parse_panics(buffer@),
        ensures
            match eap_packet_decode(buffer@) {
                Ok(packet) => result matches Ok(p) && p@ == packet,
                Err(error) => result matches Err(e) && e == error,
            },
    {
        if buffer.len() < EAP_PACKET_HEADER_SIZE {
            return Err(EapPacketError::NotEnoughData);
        }
        let code = EapPacketCode::from_byte(buffer[0]);
        let identifier = EapIdentifier(buffer[1]);
        let length: usize = buffer[2] as usize * 256 + buffer[3] as usize;
        if buffer.len() < length {
            return Err(EapPacketError::NotEnoughData);
        }
        let data = EapPacketData::parse(code, &buffer[EAP_PACKET_HEADER_SIZE..length])?;
        Ok(Self { identifier, data })
    }
}

/// Reading the bytes of an encodable EAP packet gives the packet back.
pub proof fn lemma_eap_packet_decode_encode(packet: EapPacketView)
    requires
        eap_packet_is_encodable(packet),
    ensures
        eap_packet_decode(eap_packet_encode(packet)) == Ok::<EapPacketView, EapPacketError>(
            packet,
        ),
{
    let bytes = eap_packet_encode(packet);
    lemma_eap_data_encode_length(packet.data);
    lemma_eap_data_decode_encode(packet.data);
    crate::eap::code::lemma_eap_packet_code_byte_roundtrip(0);
    assert(eap_data_code(packet.data).is_canonical());
    assert(header_length_field(bytes) == eap_packet_length(packet));
    assert(bytes.subrange(EAP_PACKET_HEADER_SIZE as int, eap_packet_length(packet))
        =~= eap_data_encode(packet.data));
}

/// Writing an EAP packet that was read gives back the bytes up to its length field, unless
/// it is a success or failure that carried bytes after its header.
pub proof fn lemma_eap_packet_encode_decode(buffer: Seq<u8>)
    requires
        eap_packet_decode(buffer) is Ok,
        !eap_packet_parse_panics(buffer),
        EapPacketCode::spec_from_byte(buffer[0]) is Success || EapPacketCode::spec_from_byte(
            buffer[0],
        ) is Failure ==> header_length_field(buffer) == EAP_PACKET_HEADER_SIZE,
    ensures
        eap_packet_encode(eap_packet_decode(buffer)->Ok_0) == buffer.subrange(
            0,
            header_length_field(buffer),
        ),
{
    let code = EapPacketCode::spec_from_byte(buffer[0]);
    let length = header_length_field(buffer);
    let data_bytes = buffer.subrange(EAP_PACKET_HEADER_SIZE as int, length);
    lemma_eap_data_encode_decode(code, data_bytes);
    crate::eap::code::lemma_eap_packet_code_byte_roundtrip(buffer[0]);
    let packet = eap_packet_decode(buffer)->Ok_0;
    lemma_eap_data_encode_length(packet.data);
    assert(eap_packet_length(packet) == length);
    assert(u16_be_bytes(length as u16) =~= seq![buffer[2], buffer[3]]);
    assert(eap_packet_encode(packet) =~= buffer.subrange(0, length));
}

impl From<EapPacket> for Vec<u8> {
    fn from(packet: EapPacket) -> (bytes: Vec<u8>)
        ensures
            bytes@ == eap_packet_encode(packet@),
    {
        packet.to_bytes()
    }
}

impl vstd::std_specs::convert::FromSpecImpl<EapPacket> for Vec<u8> {
    open spec fn obeys_from_spec() -> bool {
        false
    }

    open spec fn from_spec(packet: EapPacket) -> Vec<u8> {
        arbitrary()
    }
}

} // verus!
