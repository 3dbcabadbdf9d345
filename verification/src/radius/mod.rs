pub mod attribute;
pub mod attribute_type;
pub mod code;
pub mod container;
pub mod metadata;

use crate::bytes::u16_be_bytes;
use crate::radius::attribute::{
    RadiusPacketAttribute, RadiusPacketAttributeType, RadiusPacketAttributeView,
    RadiusPacketAttributes,
};
use crate::radius::code::RadiusPacketCode;
use crate::tag_length_value::{
    TagLengthValueError, TagLengthValueTag, tag_is_canonical, tlv_encode,
};
use vstd::prelude::*;

verus! {

/// Size of code, identifier, length and authenticator at the start of every packet.
pub const RADIUS_PACKET_HEADER_SIZE: usize = 20;

#[derive(Debug, Clone, Copy, PartialEq, Eq)]
pub enum RadiusPacketError {
    NotEnoughData,
    TooMuchData,
    TagLengthValue(TagLengthValueError),
}

impl From<TagLengthValueError> for RadiusPacketError {
    fn from(error: TagLengthValueError) -> (packet_error: Self) {
        RadiusPacketError::TagLengthValue(error)
    }
}

impl vstd::std_specs::convert::FromSpecImpl<TagLengthValueError> for RadiusPacketError {
    open spec fn obeys_from_spec() -> bool {
        true
    }

    open spec fn from_spec(error: TagLengthValueError) -> Self {
        RadiusPacketError::TagLengthValue(error)
    }
}

/// A RADIUS packet as a mathematical value.
pub struct RadiusPacketView {
    pub code: RadiusPacketCode,
    pub identifier: u8,
    pub authenticator: Seq<u8>,
    pub attributes: Seq<RadiusPacketAttributeView>,
}

/// The wire bytes of a sequence of attributes, one after the other.
pub open spec fn attributes_encode(attributes: Seq<RadiusPacketAttributeView>) -> Seq<u8>
    decreases attributes.len(),
{
    if attributes.len() == 0 {
        Seq::empty()
    } else {
        tlv_encode(attributes[0].0.spec_to_byte(), attributes[0].1) + attributes_encode(
            attributes.drop_first(),
        )
    }
}

/// Reading attributes one after the other until the bytes are used up.
pub open spec fn attributes_decode(bytes: Seq<u8>) -> Result<
    Seq<RadiusPacketAttributeView>,
    TagLengthValueError,
>
    decreases bytes.len(),
{
    if bytes.len() == 0 {
        Ok(Seq::empty())
    } else if bytes.len() < 2 {
        Err(TagLengthValueError::NotEnoughData)
    } else if bytes.len() < bytes[1] {
        Err(TagLengthValueError::NotEnoughData)
    } else if bytes[1] < 2 {
        Err(TagLengthValueError::InvalidLength(bytes[1] as usize))
    } else {
        let attribute = (
            RadiusPacketAttributeType::spec_from_byte(bytes[0]),
            bytes.subrange(2, bytes[1] as int),
        );
        match attributes_decode(bytes.skip(bytes[1] as int)) {
            Ok(rest) => Ok(seq![attribute] + rest),
            Err(error) => Err(error),
        }
    }
}

/// The wire bytes of a packet; the length field holds the total length, truncated to 16 bits.
pub open spec fn radius_encode(packet: RadiusPacketView) -> Seq<u8> {
    let attributes = attributes_encode(packet.attributes);
    seq![packet.code.spec_to_byte(), packet.identifier] + u16_be_bytes(
        (RADIUS_PACKET_HEADER_SIZE + attributes.len()) as u16,
    ) + packet.authenticator + attributes
}

/// The total length of a packet on the wire.
pub open spec fn radius_length(packet: RadiusPacketView) -> int {
    RADIUS_PACKET_HEADER_SIZE + attributes_encode(packet.attributes).len()
}

/// Reading a whole datagram as one packet.
pub open spec fn radius_decode(bytes: Seq<u8>) -> Result<RadiusPacketView, RadiusPacketError> {
    if bytes.len() < RADIUS_PACKET_HEADER_SIZE {
        Err(RadiusPacketError::NotEnoughData)
    } else {
        let length = bytes[2] as int * 256 + bytes[3] as int;
        if bytes.len() < length {
            Err(RadiusPacketError::NotEnoughData)
        } else if bytes.len() > length {
            Err(RadiusPacketError::TooMuchData)
        } else {
            match attributes_decode(bytes.subrange(RADIUS_PACKET_HEADER_SIZE as int, length)) {
                Ok(attributes) => Ok(
                    RadiusPacketView {
                        code: RadiusPacketCode::spec_from_byte(bytes[0]),
                        identifier: bytes[1],
                        authenticator: bytes.subrange(4, RADIUS_PACKET_HEADER_SIZE as int),
                        attributes,
                    },
                ),
                Err(error) => Err(RadiusPacketError::TagLengthValue(error)),
            }
        }
    }
}

/// Puts parsed attributes in front of the result of parsing the rest.
pub open spec fn prepend_attributes(
    prefix: Seq<RadiusPacketAttributeView>,
    result: Result<Seq<RadiusPacketAttributeView>, TagLengthValueError>,
) -> Result<Seq<RadiusPacketAttributeView>, TagLengthValueError> {
    match result {
        Ok(rest) => Ok(prefix + rest),
        Err(error) => Err(error),
    }
}

/// Encoding one more attribute appends its bytes.
pub proof fn lemma_attributes_encode_push(
    attributes: Seq<RadiusPacketAttributeView>,
    attribute: RadiusPacketAttributeView,
)
    ensures
        attributes_encode(attributes.push(attribute)) == attributes_encode(attributes) + tlv_encode(
            attribute.0.spec_to_byte(),
            attribute.1,
        ),
    decreases attributes.len(),
{
    if attributes.len() == 0 {
        assert(attributes.push(attribute).drop_first() =~= Seq::<RadiusPacketAttributeView>::empty());
        assert(attributes_encode(Seq::<RadiusPacketAttributeView>::empty()) == Seq::<u8>::empty());
        assert(attributes_encode(attributes.push(attribute)) =~= tlv_encode(
            attribute.0.spec_to_byte(),
            attribute.1,
        ));
    } else {
        lemma_attributes_encode_push(attributes.drop_first(), attribute);
        assert(attributes.push(attribute).drop_first() =~= attributes.drop_first().push(attribute));
        assert(attributes_encode(attributes.push(attribute)) =~= attributes_encode(attributes)
            + tlv_encode(attribute.0.spec_to_byte(), attribute.1));
    }
}

impl View for RadiusPacket {
    type V = RadiusPacketView;

    closed spec fn view(&self) -> RadiusPacketView {
        RadiusPacketView {
            code: self.code,
            identifier: self.identifier,
            authenticator: self.authenticator@,
            attributes: self.attributes@,
        }
    }
}

#[derive(Debug)]
pub struct RadiusPacket {
    code: RadiusPacketCode,
    identifier: u8,
    authenticator: [u8; 16],
    attributes: RadiusPacketAttributes,
}

impl Clone for RadiusPacket {
    fn clone(&self) -> (copy: Self)
        ensures
            copy@ == self@,
    {
        Self {
            code: self.code,
            identifier: self.identifier,
            authenticator: self.authenticator,
            attributes: self.attributes.clone(),
        }
    }
}

impl RadiusPacket {
    pub fn new(
        code: RadiusPacketCode,
        identifier: u8,
        authenticator: [u8; 16],
        attributes: RadiusPacketAttributes,
    ) -> (packet: Self)
        ensures
            packet@ == (RadiusPacketView {
                code,
                identifier,
                authenticator: authenticator@,
                attributes: attributes@,
            }),
    {
        Self { code, identifier, authenticator, attributes }
    }

    pub fn code(&self) -> (code: RadiusPacketCode)
        ensures
            code == self@.code,
    {
        self.code
    }

    pub fn identifier(&self) -> (identifier: u8)
        ensures
            identifier == self@.identifier,
    {
        self.identifier
    }

    pub fn authenticator(&self) -> (authenticator: &[u8; 16])
        ensures
            authenticator@ == self@.authenticator,
    {
        &self.authenticator
    }

    pub fn set_authenticator(&mut self, authenticator: &[u8; 16])
        ensures
            final(self)@ == (RadiusPacketView { authenticator: authenticator@, ..old(self)@ }),
    {
        self.authenticator = *authenticator;
    }

    pub fn attributes(&self) -> (attributes: &RadiusPacketAttributes)
        ensures
            attributes@ == self@.attributes,
    {
        &self.attributes
    }

    pub fn attributes_mut(&mut self) -> (attributes: &mut RadiusPacketAttributes)
        ensures
            attributes@ == old(self)@.attributes,
            final(self)@ == (RadiusPacketView { attributes: final(attributes)@, ..old(self)@ }),
    {
        &mut self.attributes
    }

    /// The total length on the wire: header plus every attribute with its own header.
    pub fn length(&self) -> (length: usize)
        requires
            radius_length(self@) <= usize::MAX,
        ensures
            length == radius_length(self@),
    {
        let ghost attributes = self@.attributes;
        let mut length: usize = RADIUS_PACKET_HEADER_SIZE;
        let mut i: usize = 0;
        while i < self.attributes.len()
            invariant
                i <= attributes.len(),
                attributes == self.attributes@,
                radius_length(self@) <= usize::MAX,
                attributes == self@.attributes,
                length == RADIUS_PACKET_HEADER_SIZE + attributes_encode(attributes.take(i as int)).len(),
            decreases attributes.len() - i,
        {
            proof {
                assert(attributes.take(i + 1) =~= attributes.take(i as int).push(attributes[i as int]));
                lemma_attributes_encode_push(attributes.take(i as int), attributes[i as int]);
                lemma_attributes_encode_prefix_length(attributes, i as int + 1);
            }
            let attribute = self.attributes.at(i);
            let value_length = attribute.value().len();
            length = length + 2 + value_length;
            i = i + 1;
        }
        assert(attributes.take(i as int) =~= attributes);
        length
    }

    /// The packet on the wire.
    pub fn to_bytes(&self) -> (bytes: Vec<u8>)
        ensures
            bytes@ == radius_encode(self@),
    {
        let ghost attributes = self@.attributes;
        let mut buffer: Vec<u8> = Vec::new();
        buffer.push(self.code.to_byte());
        buffer.push(self.identifier);
        buffer.push(0);
        buffer.push(0);
        let mut k: usize = 0;
        while k < 16
            invariant
                k <= 16,
                buffer@.len() == 4 + k,
                buffer@.subrange(0, 2) == seq![self@.code.spec_to_byte(), self@.identifier],
                buffer@.subrange(4, 4 + k as int) == self@.authenticator.subrange(0, k as int),
                self@.authenticator.len() == 16,
            decreases 16 - k,
        {
            buffer.push(self.authenticator[k]);
            k = k + 1;
            assert(buffer@.subrange(4, 4 + k as int) =~= self@.authenticator.subrange(0, k as int));
            assert(buffer@.subrange(0, 2) =~= buffer@.subrange(0, 3).subrange(0, 2));
        }
        let mut i: usize = 0;
        while i < self.attributes.len()
            invariant
                i <= attributes.len(),
                attributes == self.attributes@,
                attributes == self@.attributes,
                buffer@.len() >= 20,
                buffer@.subrange(0, 2) == seq![self@.code.spec_to_byte(), self@.identifier],
                buffer@.subrange(4, 20) == self@.authenticator,
                buffer@.skip(20) == attributes_encode(attributes.take(i as int)),
            decreases attributes.len() - i,
        {
            proof {
                assert(attributes.take(i + 1) =~= attributes.take(i as int).push(attributes[i as int]));
                lemma_attributes_encode_push(attributes.take(i as int), attributes[i as int]);
            }
            let attribute_bytes = self.attributes.at(i).to_bytes();
            let ghost before = buffer@;
            let mut j: usize = 0;
            while j < attribute_bytes.len()
                invariant
                    j <= attribute_bytes@.len(),
                    buffer@ == before + attribute_bytes@.subrange(0, j as int),
                decreases attribute_bytes@.len() - j,
            {
                buffer.push(attribute_bytes[j]);
                j = j + 1;
                assert(buffer@ =~= before + attribute_bytes@.subrange(0, j as int));
            }
            assert(attribute_bytes@.subrange(0, j as int) =~= attribute_bytes@);
            assert(buffer@.subrange(0, 2) =~= before.subrange(0, 2));
            assert(buffer@.subrange(4, 20) =~= before.subrange(4, 20));
            assert(buffer@.skip(20) =~= before.skip(20) + attribute_bytes@);
            i = i + 1;
        }
        assert(attributes.take(i as int) =~= attributes);
        let total: usize = buffer.len();
        let length_field: u16 = total as u16;
        buffer.set(2, (length_field / 256) as u8);
        buffer.set(3, (length_field % 256) as u8);
        assert(buffer@ =~= radius_encode(self@));
        buffer
    }

    /// Reads a whole datagram as one packet.
    pub fn parse(packet_data: &[u8]) -> (result: Result<Self, RadiusPacketError>)
        ensures
            match radius_decode(packet_data@) {
                Ok(packet) => result matches Ok(p) && p@ == packet,
                Err(error) => result matches Err(e) && e == error,
            },
    {
        if packet_data.len() < RADIUS_PACKET_HEADER_SIZE {
            return Err(RadiusPacketError::NotEnoughData);
        }
        let code = RadiusPacketCode::from_byte(packet_data[0]);
        let identifier = packet_data[1];
        let length: usize = packet_data[2] as usize * 256 + packet_data[3] as usize;
        if packet_data.len() < length {
            return Err(RadiusPacketError::NotEnoughData);
        }
        if packet_data.len() > length {
            return Err(RadiusPacketError::TooMuchData);
        }
        let mut authenticator: [u8; 16] = [0; 16];
        let mut k: usize = 0;
        while k < 16
            invariant
                k <= 16,
                packet_data@.len() >= 20,
                authenticator@.subrange(0, k as int) == packet_data@.subrange(4, 4 + k as int),
            decreases 16 - k,
        {
            authenticator[k] = packet_data[4 + k];
            k = k + 1;
            assert(authenticator@.subrange(0, k as int) =~= packet_data@.subrange(4, 4 + k as int));
        }
        assert(authenticator@ =~= packet_data@.subrange(4, 20));
        let ghost all = packet_data@.subrange(RADIUS_PACKET_HEADER_SIZE as int, length as int);
        let mut attributes = RadiusPacketAttributes::new();
        let mut offset: usize = RADIUS_PACKET_HEADER_SIZE;
        assert(packet_data@.subrange(offset as int, length as int) == all);
        assert(attributes@ + Seq::<RadiusPacketAttributeView>::empty() =~= attributes@);
        while offset < length
            invariant
                RADIUS_PACKET_HEADER_SIZE <= offset <= length,
                length == packet_data@.len(),
                length == packet_data@[2] as int * 256 + packet_data@[3] as int,
                all == packet_data@.subrange(RADIUS_PACKET_HEADER_SIZE as int, length as int),
                attributes_decode(all) == prepend_attributes(
                    attributes@,
                    attributes_decode(packet_data@.subrange(offset as int, length as int)),
                ),
            decreases length - offset,
        {
            let ghost rest = packet_data@.subrange(offset as int, length as int);
            let attribute = match RadiusPacketAttribute::parse(&packet_data[offset..length]) {
                Ok(attribute) => attribute,
                Err(error) => {
                    assert(attributes_decode(rest) == Err::<Seq<RadiusPacketAttributeView>, _>(
                        error,
                    ));
                    return Err(RadiusPacketError::TagLengthValue(error));
                },
            };
            let attribute_length = 2 + attribute.value().len();
            assert(attribute_length == rest[1]);
            assert(rest.skip(rest[1] as int) =~= packet_data@.subrange(
                (offset + attribute_length) as int,
                length as int,
            ));
            let ghost before = attributes@;
            attributes.push(attribute);
            proof {
                match attributes_decode(rest.skip(rest[1] as int)) {
                    Ok(tail) => {
                        assert(before + (seq![attributes@.last()] + tail) =~= attributes@ + tail);
                    },
                    Err(_) => {},
                }
            }
            offset = offset + attribute_length;
        }
        assert(packet_data@.subrange(offset as int, length as int) =~= Seq::<u8>::empty());
        assert(attributes@ + Seq::<RadiusPacketAttributeView>::empty() =~= attributes@);
        Ok(Self { code, identifier, authenticator, attributes })
    }
}

impl From<RadiusPacket> for Vec<u8> {
    fn from(packet: RadiusPacket) -> (bytes: Vec<u8>)
        ensures
            bytes@ == radius_encode(packet@),
    {
        packet.to_bytes()
    }
}

impl vstd::std_specs::convert::FromSpecImpl<RadiusPacket> for Vec<u8> {
    open spec fn obeys_from_spec() -> bool {
        false
    }

    open spec fn from_spec(packet: RadiusPacket) -> Vec<u8> {
        arbitrary()
    }
}

impl<'a> TryFrom<&'a [u8]> for RadiusPacket {
    type Error = RadiusPacketError;

    fn try_from(packet_data: &'a [u8]) -> (result: Result<Self, RadiusPacketError>)
        ensures
            match radius_decode(packet_data@) {
                Ok(packet) => result matches Ok(p) && p@ == packet,
                Err(error) => result matches Err(e) && e == error,
            },
    {
        Self::parse(packet_data)
    }
}

impl<'a> vstd::std_specs::convert::TryFromSpecImpl<&'a [u8]> for RadiusPacket {
    open spec fn obeys_try_from_spec() -> bool {
        false
    }

    open spec fn try_from_spec(packet_data: &'a [u8]) -> Result<Self, RadiusPacketError> {
        arbitrary()
    }
}

impl TryFrom<Vec<u8>> for RadiusPacket {
    type Error = RadiusPacketError;

    fn try_from(packet_data: Vec<u8>) -> (result: Result<Self, RadiusPacketError>)
        ensures
            match radius_decode(packet_data@) {
                Ok(packet) => result matches Ok(p) && p@ == packet,
                Err(error) => result matches Err(e) && e == error,
            },
    {
        Self::parse(packet_data.as_slice())
    }
}

impl vstd::std_specs::convert::TryFromSpecImpl<Vec<u8>> for RadiusPacket {
    open spec fn obeys_try_from_spec() -> bool {
        false
    }

    open spec fn try_from_spec(packet_data: Vec<u8>) -> Result<Self, RadiusPacketError> {
        arbitrary()
    }
}

/// An attribute can be written and read back unchanged: its type is canonical and its value
/// leaves room for the header within the length byte.
pub open spec fn attribute_is_encodable(attribute: RadiusPacketAttributeView) -> bool {
    &&& tag_is_canonical(attribute.0)
    &&& attribute.1.len() + 2 <= 255
}

/// A packet can be written and read back unchanged.
pub open spec fn packet_is_encodable(packet: RadiusPacketView) -> bool {
    &&& packet.code.is_canonical()
    &&& packet.authenticator.len() == 16
    &&& forall|i: int|
        0 <= i < packet.attributes.len() ==> #[trigger] attribute_is_encodable(
            packet.attributes[i],
        )
    &&& radius_length(packet) <= u16::MAX
}

/// Reading the bytes of encodable attributes gives the attributes back.
pub proof fn lemma_attributes_decode_encode(attributes: Seq<RadiusPacketAttributeView>)
    requires
        forall|i: int|
            0 <= i < attributes.len() ==> #[trigger] attribute_is_encodable(attributes[i]),
    ensures
        attributes_decode(attributes_encode(attributes)) == Ok::<
            Seq<RadiusPacketAttributeView>,
            TagLengthValueError,
        >(attributes),
    decreases attributes.len(),
{
    if attributes.len() > 0 {
        let first = attributes[0];
        let rest = attributes.drop_first();
        assert forall|i: int| 0 <= i < rest.len() implies #[trigger] attribute_is_encodable(
            rest[i],
        ) by {
            assert(rest[i] == attributes[i + 1]);
        }
        lemma_attributes_decode_encode(rest);
        assert(attribute_is_encodable(attributes[0]));
        let bytes = attributes_encode(attributes);
        let head = tlv_encode(first.0.spec_to_byte(), first.1);
        assert(bytes == head + attributes_encode(rest));
        assert(head[1] == first.1.len() + 2);
        assert(bytes[0] == first.0.spec_to_byte());
        assert(bytes[1] == first.1.len() + 2);
        assert(bytes.subrange(2, bytes[1] as int) =~= first.1);
        assert(bytes.skip(bytes[1] as int) =~= attributes_encode(rest));
        assert(seq![first] + rest =~= attributes);
    } else {
        assert(attributes =~= Seq::<RadiusPacketAttributeView>::empty());
    }
}

/// Writing attributes that were read gives the bytes back.
pub proof fn lemma_attributes_encode_decode(bytes: Seq<u8>)
    requires
        attributes_decode(bytes) is Ok,
    ensures
        attributes_encode(attributes_decode(bytes)->Ok_0) == bytes,
    decreases bytes.len(),
{
    if bytes.len() > 0 {
        let rest_bytes = bytes.skip(bytes[1] as int);
        lemma_attributes_encode_decode(rest_bytes);
        RadiusPacketAttributeType::lemma_from_byte_to_byte(bytes[0]);
        let attributes = attributes_decode(bytes)->Ok_0;
        let rest = attributes_decode(rest_bytes)->Ok_0;
        assert(attributes.drop_first() =~= rest);
        let value = bytes.subrange(2, bytes[1] as int);
        assert(attributes[0] == (RadiusPacketAttributeType::spec_from_byte(bytes[0]), value));
        assert(tlv_encode(bytes[0], value) =~= bytes.subrange(0, bytes[1] as int));
        assert(bytes =~= bytes.subrange(0, bytes[1] as int) + rest_bytes);
    } else {
        assert(bytes =~= Seq::<u8>::empty());
    }
}

/// Reading the bytes of an encodable packet gives the packet back.
pub proof fn lemma_radius_decode_encode(packet: RadiusPacketView)
    requires
        packet_is_encodable(packet),
    ensures
        radius_decode(radius_encode(packet)) == Ok::<RadiusPacketView, RadiusPacketError>(packet),
{
    let bytes = radius_encode(packet);
    let attributes = attributes_encode(packet.attributes);
    let length = RADIUS_PACKET_HEADER_SIZE + attributes.len();
    lemma_attributes_decode_encode(packet.attributes);
    assert(bytes.len() == length);
    assert(bytes[2] as int * 256 + bytes[3] as int == length);
    assert(bytes.subrange(RADIUS_PACKET_HEADER_SIZE as int, length) =~= attributes);
    assert(bytes.subrange(4, RADIUS_PACKET_HEADER_SIZE as int) =~= packet.authenticator);
}

/// Writing a packet that was read gives the bytes back.
pub proof fn lemma_radius_encode_decode(bytes: Seq<u8>)
    requires
        radius_decode(bytes) is Ok,
    ensures
        radius_encode(radius_decode(bytes)->Ok_0) == bytes,
{
    let packet = radius_decode(bytes)->Ok_0;
    let length = bytes[2] as int * 256 + bytes[3] as int;
    let attribute_bytes = bytes.subrange(RADIUS_PACKET_HEADER_SIZE as int, length);
    lemma_attributes_encode_decode(attribute_bytes);
    crate::radius::code::lemma_radius_packet_code_byte_roundtrip(bytes[0]);
    assert(attributes_encode(packet.attributes) == attribute_bytes);
    assert((RADIUS_PACKET_HEADER_SIZE + attribute_bytes.len()) as u16 == length);
    assert(u16_be_bytes(length as u16) =~= seq![bytes[2], bytes[3]]);
    assert(radius_encode(packet) =~= bytes);
}

/// The encoded length of a prefix of the attributes never exceeds that of all of them.
pub proof fn lemma_attributes_encode_prefix_length(
    attributes: Seq<RadiusPacketAttributeView>,
    i: int,
)
    requires
        0 <= i <= attributes.len(),
    ensures
        attributes_encode(attributes.take(i)).len() <= attributes_encode(attributes).len(),
    decreases attributes.len() - i,
{
    if i < attributes.len() {
        assert(attributes.take(i + 1) =~= attributes.take(i).push(attributes[i]));
        lemma_attributes_encode_push(attributes.take(i), attributes[i]);
        lemma_attributes_encode_prefix_length(attributes, i + 1);
    } else {
        assert(attributes.take(i) =~= attributes);
    }
}

} // verus!
