use crate::bytes::extend_bytes;
use crate::eap::EapPacketError;
use crate::eap::code::EapPacketCode;
use vstd::prelude::*;

verus! {

/// The type byte of an EAP request or response.
#[derive(Debug, Copy, Clone, PartialEq, Eq, Structural)]
pub enum EapPacketType {
    Identity,
    Notification,
    Nak,
    MD5Challenge,
    OneTimePassword,
    GenericTokenCard,
    ExpandedType,
    Other(u8),
}

impl EapPacketType {
    pub open spec fn spec_from_byte(byte: u8) -> EapPacketType {
        match byte {
            1 => EapPacketType::Identity,
            2 => EapPacketType::Notification,
            3 => EapPacketType::Nak,
            4 => EapPacketType::MD5Challenge,
            5 => EapPacketType::OneTimePassword,
            6 => EapPacketType::GenericTokenCard,
            254 => EapPacketType::ExpandedType,
            other => EapPacketType::Other(other),
        }
    }

    pub open spec fn spec_to_byte(self) -> u8 {
        match self {
            EapPacketType::Identity => 1,
            EapPacketType::Notification => 2,
            EapPacketType::Nak => 3,
            EapPacketType::MD5Challenge => 4,
            EapPacketType::OneTimePassword => 5,
            EapPacketType::GenericTokenCard => 6,
            EapPacketType::ExpandedType => 254,
            EapPacketType::Other(other) => other,
        }
    }

    /// A value is canonical unless it is `Other` holding the byte of a named value.
    pub open spec fn is_canonical(self) -> bool {
        Self::spec_from_byte(self.spec_to_byte()) == self
    }

    pub fn from_byte(byte: u8) -> (value: Self)
        ensures
            value == Self::spec_from_byte(byte),
    {
        match byte {
            1 => EapPacketType::Identity,
            2 => EapPacketType::Notification,
            3 => EapPacketType::Nak,
            4 => EapPacketType::MD5Challenge,
            5 => EapPacketType::OneTimePassword,
            6 => EapPacketType::GenericTokenCard,
            254 => EapPacketType::ExpandedType,
            other => EapPacketType::Other(other),
        }
    }

    pub fn to_byte(self) -> (byte: u8)
        ensures
            byte == self.spec_to_byte(),
    {
        match self {
            EapPacketType::Identity => 1,
            EapPacketType::Notification => 2,
            EapPacketType::Nak => 3,
            EapPacketType::MD5Challenge => 4,
            EapPacketType::OneTimePassword => 5,
            EapPacketType::GenericTokenCard => 6,
            EapPacketType::ExpandedType => 254,
            EapPacketType::Other(other) => other,
        }
    }
}

/// Every byte decodes to a canonical value that encodes back to it.
pub proof fn lemma_eap_packet_type_byte_roundtrip(byte: u8)
    ensures
        EapPacketType::spec_from_byte(byte).spec_to_byte() == byte,
        EapPacketType::spec_from_byte(byte).is_canonical(),
{
}

impl From<u8> for EapPacketType {
    fn from(byte: u8) -> (value: Self) {
        Self::from_byte(byte)
    }
}

impl vstd::std_specs::convert::FromSpecImpl<u8> for EapPacketType {
    open spec fn obeys_from_spec() -> bool {
        true
    }

    open spec fn from_spec(byte: u8) -> Self {
        Self::spec_from_byte(byte)
    }
}

impl From<EapPacketType> for u8 {
    fn from(value: EapPacketType) -> (byte: u8) {
        value.to_byte()
    }
}

impl vstd::std_specs::convert::FromSpecImpl<EapPacketType> for u8 {
    open spec fn obeys_from_spec() -> bool {
        true
    }

    open spec fn from_spec(value: EapPacketType) -> u8 {
        value.spec_to_byte()
    }
}

/// Size of the vendor id and vendor type that precede the vendor data of an expanded type.
pub const EAP_PACKET_EXPANDED_TYPE_HEADER_SIZE: usize = 7;

/// The data that follows the header of an EAP packet.
#[derive(Debug, PartialEq, Eq)]
pub enum EapPacketData {
    Request { type_data: EapPacketTypeData },
    Response { type_data: EapPacketTypeData },
    Success,
    Failure,
    Other(u8, Vec<u8>),
}

/// The type-specific data of an EAP request or response.
#[derive(Debug, PartialEq, Eq)]
pub enum EapPacketTypeData {
    Identity(Vec<u8>),
    Notification(Vec<u8>),
    Nak { supported_types: Vec<EapPacketType> },
    MD5Challenge(Vec<u8>),
    OneTimePassword(Vec<u8>),
    GenericTokenCard(Vec<u8>),
    ExpandedType { vendor_id: u32, vendor_type: u32, vendor_data: Vec<u8> },
    Other(u8, Vec<u8>),
}

/// EAP type data as a mathematical value.
pub enum EapPacketTypeDataView {
    Identity(Seq<u8>),
    Notification(Seq<u8>),
    Nak { supported_types: Seq<EapPacketType> },
    MD5Challenge(Seq<u8>),
    OneTimePassword(Seq<u8>),
    GenericTokenCard(Seq<u8>),
    ExpandedType { vendor_id: u32, vendor_type: u32, vendor_data: Seq<u8> },
    Other(u8, Seq<u8>),
}

/// EAP packet data as a mathematical value.
pub enum EapPacketDataView {
    Request { type_data: EapPacketTypeDataView },
    Response { type_data: EapPacketTypeDataView },
    Success,
    Failure,
    Other(u8, Seq<u8>),
}

impl View for EapPacketTypeData {
    type V = EapPacketTypeDataView;

    open spec fn view(&self) -> EapPacketTypeDataView {
        match self {
            EapPacketTypeData::Identity(buffer) => EapPacketTypeDataView::Identity(buffer@),
            EapPacketTypeData::Notification(buffer) => EapPacketTypeDataView::Notification(
                buffer@,
            ),
            EapPacketTypeData::Nak { supported_types } => EapPacketTypeDataView::Nak {
                supported_types: supported_types@,
            },
            EapPacketTypeData::MD5Challenge(buffer) => EapPacketTypeDataView::MD5Challenge(
                buffer@,
            ),
            EapPacketTypeData::OneTimePassword(buffer) => EapPacketTypeDataView::OneTimePassword(
                buffer@,
            ),
            EapPacketTypeData::GenericTokenCard(buffer) => EapPacketTypeDataView::GenericTokenCard(
                buffer@,
            ),
            EapPacketTypeData::ExpandedType {
                vendor_id,
                vendor_type,
                vendor_data,
            } => EapPacketTypeDataView::ExpandedType {
                vendor_id: *vendor_id,
                vendor_type: *vendor_type,
                vendor_data: vendor_data@,
            },
            EapPacketTypeData::Other(packet_type, buffer) => EapPacketTypeDataView::Other(
                *packet_type,
                buffer@,
            ),
        }
    }
}

impl View for EapPacketData {
    type V = EapPacketDataView;

    open spec fn view(&self) -> EapPacketDataView {
        match self {
            EapPacketData::Request { type_data } => EapPacketDataView::Request {
                type_data: type_data@,
            },
            EapPacketData::Response { type_data } => EapPacketDataView::Response {
                type_data: type_data@,
            },
            EapPacketData::Success => EapPacketDataView::Success,
            EapPacketData::Failure => EapPacketDataView::Failure,
            EapPacketData::Other(code, buffer) => EapPacketDataView::Other(*code, buffer@),
        }
    }
}

/// The big-endian bytes of a 32-bit number.
pub open spec fn u32_be_bytes(value: u32) -> Seq<u8> {
    seq![
        (value / 0x100_0000) as u8,
        ((value / 0x1_0000) % 256) as u8,
        ((value / 256) % 256) as u8,
        (value % 256) as u8,
    ]
}

/// The number that four big-endian bytes stand for.
pub open spec fn u32_from_be_bytes(b0: u8, b1: u8, b2: u8, b3: u8) -> u32 {
    (b0 as int * 0x100_0000 + b1 as int * 0x1_0000 + b2 as int * 256 + b3 as int) as u32
}

/// The length of type data on the wire.
pub open spec fn eap_type_data_length(type_data: EapPacketTypeDataView) -> int {
    match type_data {
        EapPacketTypeDataView::Identity(buffer) => buffer.len() as int,
        EapPacketTypeDataView::Notification(buffer) => buffer.len() as int,
        EapPacketTypeDataView::Nak { supported_types } => supported_types.len() as int,
        EapPacketTypeDataView::MD5Challenge(buffer) => buffer.len() as int,
        EapPacketTypeDataView::OneTimePassword(buffer) => buffer.len() as int,
        EapPacketTypeDataView::GenericTokenCard(buffer) => buffer.len() as int,
        EapPacketTypeDataView::ExpandedType { vendor_data, .. } => EAP_PACKET_EXPANDED_TYPE_HEADER_SIZE
            + vendor_data.len(),
        EapPacketTypeDataView::Other(_, buffer) => buffer.len() as int,
    }
}

/// The type that goes with the type data.
pub open spec fn eap_type_data_type(type_data: EapPacketTypeDataView) -> EapPacketType {
    match type_data {
        EapPacketTypeDataView::Identity(_) => EapPacketType::Identity,
        EapPacketTypeDataView::Notification(_) => EapPacketType::Notification,
        EapPacketTypeDataView::Nak { .. } => EapPacketType::Nak,
        EapPacketTypeDataView::MD5Challenge(_) => EapPacketType::MD5Challenge,
        EapPacketTypeDataView::OneTimePassword(_) => EapPacketType::OneTimePassword,
        EapPacketTypeDataView::GenericTokenCard(_) => EapPacketType::GenericTokenCard,
        EapPacketTypeDataView::ExpandedType { .. } => EapPacketType::ExpandedType,
        EapPacketTypeDataView::Other(packet_type, _) => EapPacketType::Other(packet_type),
    }
}

/// The bytes of type data; an expanded type writes the low three bytes of the vendor id.
pub open spec fn eap_type_data_encode(type_data: EapPacketTypeDataView) -> Seq<u8> {
    match type_data {
        EapPacketTypeDataView::Identity(buffer) => buffer,
        EapPacketTypeDataView::Notification(buffer) => buffer,
        EapPacketTypeDataView::Nak { supported_types } => supported_types.map_values(
            |packet_type: EapPacketType| packet_type.spec_to_byte(),
        ),
        EapPacketTypeDataView::MD5Challenge(buffer) => buffer,
        EapPacketTypeDataView::OneTimePassword(buffer) => buffer,
        EapPacketTypeDataView::GenericTokenCard(buffer) => buffer,
        EapPacketTypeDataView::ExpandedType {
            vendor_id,
            vendor_type,
            vendor_data,
        } => u32_be_bytes(vendor_id).skip(1) + u32_be_bytes(vendor_type) + vendor_data,
        EapPacketTypeDataView::Other(_, buffer) => buffer,
    }
}

/// The bytes of type data are as many as its length says.
pub proof fn lemma_eap_type_data_encode_length(type_data: EapPacketTypeDataView)
    ensures
        eap_type_data_encode(type_data).len() == eap_type_data_length(type_data),
{
}

/// Reading type data of the given type from `buffer`.
pub open spec fn eap_type_data_decode(packet_type: EapPacketType, buffer: Seq<u8>) -> Result<
    EapPacketTypeDataView,
    EapPacketError,
> {
    match packet_type {
        EapPacketType::Identity => Ok(EapPacketTypeDataView::Identity(buffer)),
        EapPacketType::Notification => Ok(EapPacketTypeDataView::Notification(buffer)),
        EapPacketType::Nak => Ok(
            EapPacketTypeDataView::Nak {
                supported_types: buffer.map_values(|byte: u8| EapPacketType::spec_from_byte(byte)),
            },
        ),
        EapPacketType::MD5Challenge => Ok(EapPacketTypeDataView::MD5Challenge(buffer)),
        EapPacketType::OneTimePassword => Ok(EapPacketTypeDataView::OneTimePassword(buffer)),
        EapPacketType::GenericTokenCard => Ok(EapPacketTypeDataView::GenericTokenCard(buffer)),
        EapPacketType::ExpandedType => {
            if buffer.len() < EAP_PACKET_EXPANDED_TYPE_HEADER_SIZE {
                Err(EapPacketError::NotEnoughData)
            } else {
                Ok(
                    EapPacketTypeDataView::ExpandedType {
                        vendor_id: u32_from_be_bytes(0, buffer[0], buffer[1], buffer[2]),
                        vendor_type: u32_from_be_bytes(buffer[3], buffer[4], buffer[5], buffer[6]),
                        vendor_data: buffer.skip(EAP_PACKET_EXPANDED_TYPE_HEADER_SIZE as int),
                    },
                )
            }
        },
        EapPacketType::Other(packet_type) => Ok(EapPacketTypeDataView::Other(packet_type, buffer)),
    }
}

/// The length of packet data on the wire.
pub open spec fn eap_data_length(data: EapPacketDataView) -> int {
    match data {
        EapPacketDataView::Request { type_data } => 1 + eap_type_data_length(type_data),
        EapPacketDataView::Response { type_data } => 1 + eap_type_data_length(type_data),
        EapPacketDataView::Success => 0,
        EapPacketDataView::Failure => 0,
        EapPacketDataView::Other(_, buffer) => buffer.len() as int,
    }
}

/// The code that goes with the data.
pub open spec fn eap_data_code(data: EapPacketDataView) -> EapPacketCode {
    match data {
        EapPacketDataView::Request { .. } => EapPacketCode::Request,
        EapPacketDataView::Response { .. } => EapPacketCode::Response,
        EapPacketDataView::Success => EapPacketCode::Success,
        EapPacketDataView::Failure => EapPacketCode::Failure,
        EapPacketDataView::Other(code, _) => EapPacketCode::Other(code),
    }
}

/// The bytes of packet data: the type byte and the type data, nothing, or the raw bytes.
pub open spec fn eap_data_encode(data: EapPacketDataView) -> Seq<u8> {
    match data {
        EapPacketDataView::Request { type_data } => seq![
            eap_type_data_type(type_data).spec_to_byte(),
        ] + eap_type_data_encode(type_data),
        EapPacketDataView::Response { type_data } => seq![
            eap_type_data_type(type_data).spec_to_byte(),
        ] + eap_type_data_encode(type_data),
        EapPacketDataView::Success => Seq::empty(),
        EapPacketDataView::Failure => Seq::empty(),
        EapPacketDataView::Other(_, buffer) => buffer,
    }
}

/// Reading the data of a packet with the given code from `buffer`.
pub open spec fn eap_data_decode(code: EapPacketCode, buffer: Seq<u8>) -> Result<
    EapPacketDataView,
    EapPacketError,
> {
    match code {
        EapPacketCode::Request | EapPacketCode::Response => {
            if buffer.len() < 1 {
                Err(EapPacketError::NotEnoughData)
            } else {
                match eap_type_data_decode(EapPacketType::spec_from_byte(buffer[0]), buffer.skip(1)) {
                    Ok(type_data) => if code == EapPacketCode::Request {
                        Ok(EapPacketDataView::Request { type_data })
                    } else {
                        Ok(EapPacketDataView::Response { type_data })
                    },
                    Err(error) => Err(error),
                }
            }
        },
        EapPacketCode::Success => Ok(EapPacketDataView::Success),
        EapPacketCode::Failure => Ok(EapPacketDataView::Failure),
        EapPacketCode::Other(other) => Ok(EapPacketDataView::Other(other, buffer)),
    }
}

/// Type data can be written and read back unchanged.
pub open spec fn eap_type_data_is_encodable(type_data: EapPacketTypeDataView) -> bool {
    match type_data {
        EapPacketTypeDataView::Nak { supported_types } => forall|i: int|
            0 <= i < supported_types.len() ==> #[trigger] supported_types[i].is_canonical(),
        EapPacketTypeDataView::ExpandedType { vendor_id, .. } => vendor_id < 0x100_0000,
        EapPacketTypeDataView::Other(packet_type, _) => EapPacketType::Other(
            packet_type,
        ).is_canonical(),
        _ => true,
    }
}

/// Packet data can be written and read back unchanged.
pub open spec fn eap_data_is_encodable(data: EapPacketDataView) -> bool {
    match data {
        EapPacketDataView::Request { type_data } => eap_type_data_is_encodable(type_data),
        EapPacketDataView::Response { type_data } => eap_type_data_is_encodable(type_data),
        EapPacketDataView::Other(code, _) => EapPacketCode::Other(code).is_canonical(),
        _ => true,
    }
}

impl EapPacketTypeData {
    pub fn length(&self) -> (length: usize)
        requires
            eap_type_data_length(self@) <= usize::MAX,
        ensures
            length == eap_type_data_length(self@),
    {
        match self {
            EapPacketTypeData::Identity(buffer) => buffer.len(),
            EapPacketTypeData::Notification(buffer) => buffer.len(),
            EapPacketTypeData::Nak { supported_types } => supported_types.len(),
            EapPacketTypeData::MD5Challenge(buffer) => buffer.len(),
            EapPacketTypeData::OneTimePassword(buffer) => buffer.len(),
            EapPacketTypeData::GenericTokenCard(buffer) => buffer.len(),
            EapPacketTypeData::ExpandedType { vendor_data, .. } => {
                EAP_PACKET_EXPANDED_TYPE_HEADER_SIZE + vendor_data.len()
            },
            EapPacketTypeData::Other(_, buffer) => buffer.len(),
        }
    }

    pub fn packet_type(&self) -> (packet_type: EapPacketType)
        ensures
            packet_type == eap_type_data_type(self@),
    {
        match self {
            EapPacketTypeData::Identity(_) => EapPacketType::Identity,
            EapPacketTypeData::Notification(_) => EapPacketType::Notification,
            EapPacketTypeData::Nak { .. } => EapPacketType::Nak,
            EapPacketTypeData::MD5Challenge(_) => EapPacketType::MD5Challenge,
            EapPacketTypeData::OneTimePassword(_) => EapPacketType::OneTimePassword,
            EapPacketTypeData::GenericTokenCard(_) => EapPacketType::GenericTokenCard,
            EapPacketTypeData::ExpandedType { .. } => EapPacketType::ExpandedType,
            EapPacketTypeData::Other(packet_type, _) => EapPacketType::Other(*packet_type),
        }
    }

    pub fn to_bytes(&self) -> (bytes: Vec<u8>)
        ensures
            bytes@ == eap_type_data_encode(self@),
    {
        match self {
            EapPacketTypeData::Identity(buffer)
            | EapPacketTypeData::Notification(buffer)
            | EapPacketTypeData::MD5Challenge(buffer)
            | EapPacketTypeData::OneTimePassword(buffer)
            | EapPacketTypeData::GenericTokenCard(buffer)
            | EapPacketTypeData::Other(_, buffer) => vstd::slice::slice_to_vec(buffer.as_slice()),
            EapPacketTypeData::Nak { supported_types } => {
                let mut bytes: Vec<u8> = Vec::new();
                let mut i: usize = 0;
                while i < supported_types.len()
                    invariant
                        i <= supported_types@.len(),
                        bytes@ == supported_types@.take(i as int).map_values(
                            |packet_type: EapPacketType| packet_type.spec_to_byte(),
                        ),
                    decreases supported_types@.len() - i,
                {
                    bytes.push(supported_types[i].to_byte());
                    i = i + 1;
                    assert(bytes@ =~= supported_types@.take(i as int).map_values(
                        |packet_type: EapPacketType| packet_type.spec_to_byte(),
                    ));
                }
                assert(supported_types@.take(i as int) =~= supported_types@);
                bytes
            },
            EapPacketTypeData::ExpandedType { vendor_id, vendor_type, vendor_data } => {
                let mut bytes: Vec<u8> = Vec::new();
                bytes.push(((*vendor_id / 0x1_0000) % 256) as u8);
                bytes.push(((*vendor_id / 256) % 256) as u8);
                bytes.push((*vendor_id % 256) as u8);
                bytes.push((*vendor_type / 0x100_0000) as u8);
                bytes.push(((*vendor_type / 0x1_0000) % 256) as u8);
                bytes.push(((*vendor_type / 256) % 256) as u8);
                bytes.push((*vendor_type % 256) as u8);
                extend_bytes(&mut bytes, vendor_data.as_slice());
                assert(bytes@ =~= eap_type_data_encode(self@));
                bytes
            },
        }
    }

    /// Reads type data of the given type from `buffer`.
    pub fn parse(packet_type: EapPacketType, buffer: &[u8]) -> (result: Result<
        Self,
        EapPacketError,
    >)
        ensures
            match eap_type_data_decode(packet_type, buffer@) {
                Ok(type_data) => result matches Ok(t) && t@ == type_data,
                Err(error) => result matches Err(e) && e == error,
            },
    {
        match packet_type {
            EapPacketType::Identity => Ok(
                EapPacketTypeData::Identity(vstd::slice::slice_to_vec(buffer)),
            ),
            EapPacketType::Notification => Ok(
                EapPacketTypeData::Notification(vstd::slice::slice_to_vec(buffer)),
            ),
            EapPacketType::Nak => {
                let mut supported_types: Vec<EapPacketType> = Vec::new();
                let mut i: usize = 0;
                while i < buffer.len()
                    invariant
                        i <= buffer@.len(),
                        supported_types@ == buffer@.take(i as int).map_values(
                            |byte: u8| EapPacketType::spec_from_byte(byte),
                        ),
                    decreases buffer@.len() - i,
                {
                    supported_types.push(EapPacketType::from_byte(buffer[i]));
                    i = i + 1;
                    assert(supported_types@ =~= buffer@.take(i as int).map_values(
                        |byte: u8| EapPacketType::spec_from_byte(byte),
                    ));
                }
                assert(buffer@.take(i as int) =~= buffer@);
                Ok(EapPacketTypeData::Nak { supported_types })
            },
            EapPacketType::MD5Challenge => Ok(
                EapPacketTypeData::MD5Challenge(vstd::slice::slice_to_vec(buffer)),
            ),
            EapPacketType::OneTimePassword => Ok(
                EapPacketTypeData::OneTimePassword(vstd::slice::slice_to_vec(buffer)),
            ),
            EapPacketType::GenericTokenCard => Ok(
                EapPacketTypeData::GenericTokenCard(vstd::slice::slice_to_vec(buffer)),
            ),
            EapPacketType::ExpandedType => {
                if buffer.len() < EAP_PACKET_EXPANDED_TYPE_HEADER_SIZE {
                    return Err(EapPacketError::NotEnoughData);
                }
                let vendor_id: u32 = buffer[0] as u32 * 0x1_0000 + buffer[1] as u32 * 256
                    + buffer[2] as u32;
                let vendor_type: u32 = buffer[3] as u32 * 0x100_0000 + buffer[4] as u32 * 0x1_0000
                    + buffer[5] as u32 * 256 + buffer[6] as u32;
                let vendor_data = vstd::slice::slice_to_vec(
                    &buffer[EAP_PACKET_EXPANDED_TYPE_HEADER_SIZE..buffer.len()],
                );
                Ok(EapPacketTypeData::ExpandedType { vendor_id, vendor_type, vendor_data })
            },
            EapPacketType::Other(other) => Ok(
                EapPacketTypeData::Other(other, vstd::slice::slice_to_vec(buffer)),
            ),
        }
    }
}

impl EapPacketData {
    pub fn length(&self) -> (length: usize)
        requires
            eap_data_length(self@) <= usize::MAX,
        ensures
            length == eap_data_length(self@),
    {
        match self {
            EapPacketData::Request { type_data } | EapPacketData::Response { type_data } => {
                1 + type_data.length()
            },
            EapPacketData::Success | EapPacketData::Failure => 0,
            EapPacketData::Other(_, buffer) => buffer.len(),
        }
    }

    pub fn code(&self) -> (code: EapPacketCode)
        ensures
            code == eap_data_code(self@),
    {
        match self {
            EapPacketData::Request { .. } => EapPacketCode::Request,
            EapPacketData::Response { .. } => EapPacketCode::Response,
            EapPacketData::Success => EapPacketCode::Success,
            EapPacketData::Failure => EapPacketCode::Failure,
            EapPacketData::Other(code, _) => EapPacketCode::Other(*code),
        }
    }

    /// The type data of a request or response.
    pub fn type_data(&self) -> (type_data: Option<&EapPacketTypeData>)
        ensures
            match self@ {
                EapPacketDataView::Request { type_data: t } => type_data matches Some(d) && d@ == t,
                EapPacketDataView::Response { type_data: t } => type_data matches Some(d) && d@ == t,
                _ => type_data is None,
            },
    {
        match self {
            EapPacketData::Request { type_data } | EapPacketData::Response { type_data } => Some(
                type_data,
            ),
            _ => None,
        }
    }

    pub fn to_bytes(&self) -> (bytes: Vec<u8>)
        ensures
            bytes@ == eap_data_encode(self@),
    {
        match self {
            EapPacketData::Request { type_data } | EapPacketData::Response { type_data } => {
                let mut bytes: Vec<u8> = Vec::new();
                bytes.push(type_data.packet_type().to_byte());
                let type_bytes = type_data.to_bytes();
                extend_bytes(&mut bytes, type_bytes.as_slice());
                bytes
            },
            EapPacketData::Success | EapPacketData::Failure => Vec::new(),
            EapPacketData::Other(_, buffer) => vstd::slice::slice_to_vec(buffer.as_slice()),
        }
    }

    /// Reads the data of a packet with the given code.
    pub fn parse(code: EapPacketCode, buffer: &[u8]) -> (result: Result<Self, EapPacketError>)
        ensures
            match eap_data_decode(code, buffer@) {
                Ok(data) => result matches Ok(d) && d@ == data,
                Err(error) => result matches Err(e) && e == error,
            },
    {
        match code {
            EapPacketCode::Request | EapPacketCode::Response => {
                if buffer.len() < 1 {
                    return Err(EapPacketError::NotEnoughData);
                }
                let packet_type = EapPacketType::from_byte(buffer[0]);
                let type_data = EapPacketTypeData::parse(packet_type, &buffer[1..buffer.len()])?;
                if code == EapPacketCode::Request {
                    Ok(EapPacketData::Request { type_data })
                } else {
                    Ok(EapPacketData::Response { type_data })
                }
            },
            EapPacketCode::Success => Ok(EapPacketData::Success),
            EapPacketCode::Failure => Ok(EapPacketData::Failure),
            EapPacketCode::Other(other) => Ok(
                EapPacketData::Other(other, vstd::slice::slice_to_vec(buffer)),
            ),
        }
    }
}

/// Reading the bytes of encodable type data with its own type gives the type data back.
pub proof fn lemma_eap_type_data_decode_encode(type_data: EapPacketTypeDataView)
    requires
        eap_type_data_is_encodable(type_data),
    ensures
        eap_type_data_decode(eap_type_data_type(type_data), eap_type_data_encode(type_data))
            == Ok::<EapPacketTypeDataView, EapPacketError>(type_data),
{
    match type_data {
        EapPacketTypeDataView::Nak { supported_types } => {
            let bytes = eap_type_data_encode(type_data);
            let types = bytes.map_values(|byte: u8| EapPacketType::spec_from_byte(byte));
            assert forall|i: int| 0 <= i < supported_types.len() implies #[trigger] types[i]
                == supported_types[i] by {
                assert(supported_types[i].is_canonical());
            }
            assert(types =~= supported_types);
        },
        EapPacketTypeDataView::ExpandedType { vendor_id, vendor_type, vendor_data } => {
            lemma_expanded_type_decode_encode(vendor_id, vendor_type, vendor_data);
        },
        _ => {},
    }
}

/// Writing type data that was read gives the bytes back, and it has the type it was read with
/// when that type is canonical.
pub proof fn lemma_eap_type_data_encode_decode(packet_type: EapPacketType, buffer: Seq<u8>)
    requires
        eap_type_data_decode(packet_type, buffer) is Ok,
    ensures
        eap_type_data_encode(eap_type_data_decode(packet_type, buffer)->Ok_0) == buffer,
        eap_type_data_type(eap_type_data_decode(packet_type, buffer)->Ok_0) == packet_type,
{
    match packet_type {
        EapPacketType::Nak => {
            let types = buffer.map_values(|byte: u8| EapPacketType::spec_from_byte(byte));
            let bytes = types.map_values(|packet_type: EapPacketType| packet_type.spec_to_byte());
            assert forall|i: int| 0 <= i < buffer.len() implies #[trigger] bytes[i] == buffer[i] by {
                lemma_eap_packet_type_byte_roundtrip(buffer[i]);
            }
            assert(bytes =~= buffer);
        },
        EapPacketType::ExpandedType => {
            lemma_expanded_type_encode_decode(buffer);
        },
        _ => {},
    }
}

/// A number written as four bytes reads back as the same number.
proof fn lemma_u32_from_be_bytes_roundtrip(value: u32)
    ensures
        u32_from_be_bytes(
            u32_be_bytes(value)[0],
            u32_be_bytes(value)[1],
            u32_be_bytes(value)[2],
            u32_be_bytes(value)[3],
        ) == value,
{
    let v = value as int;
    let b0 = v / 0x100_0000;
    let b1 = (v / 0x1_0000) % 256;
    let b2 = (v / 256) % 256;
    let b3 = v % 256;
    assert(b0 * 0x100_0000 + b1 * 0x1_0000 + b2 * 256 + b3 == v) by (nonlinear_arith)
        requires
            0 <= v < 0x1_0000_0000,
            b0 == v / 0x100_0000,
            b1 == (v / 0x1_0000) % 256,
            b2 == (v / 256) % 256,
            b3 == v % 256,
    ;
    assert(0 <= b0 < 256) by (nonlinear_arith)
        requires
            0 <= v < 0x1_0000_0000,
            b0 == v / 0x100_0000,
    ;
}

/// Expanded type data written and read back gives the vendor id, type and data back, when the
/// vendor id fits in three bytes.
proof fn lemma_expanded_type_decode_encode(vendor_id: u32, vendor_type: u32, vendor_data: Seq<u8>)
    requires
        vendor_id < 0x100_0000,
    ensures
        ({
            let bytes = u32_be_bytes(vendor_id).skip(1) + u32_be_bytes(vendor_type) + vendor_data;
            &&& bytes.len() >= EAP_PACKET_EXPANDED_TYPE_HEADER_SIZE
            &&& u32_from_be_bytes(0, bytes[0], bytes[1], bytes[2]) == vendor_id
            &&& u32_from_be_bytes(bytes[3], bytes[4], bytes[5], bytes[6]) == vendor_type
            &&& bytes.skip(EAP_PACKET_EXPANDED_TYPE_HEADER_SIZE as int) == vendor_data
        }),
{
    let bytes = u32_be_bytes(vendor_id).skip(1) + u32_be_bytes(vendor_type) + vendor_data;
    lemma_u32_from_be_bytes_roundtrip(vendor_id);
    lemma_u32_from_be_bytes_roundtrip(vendor_type);
    assert(vendor_id as int / 0x100_0000 == 0);
    assert(bytes.skip(EAP_PACKET_EXPANDED_TYPE_HEADER_SIZE as int) =~= vendor_data);
}

/// Four bytes read as a number write back to the same four bytes.
proof fn lemma_u32_be_bytes_roundtrip(b0: u8, b1: u8, b2: u8, b3: u8)
    ensures
        u32_be_bytes(u32_from_be_bytes(b0, b1, b2, b3)) == seq![b0, b1, b2, b3],
{
    let v: int = b0 as int * 0x100_0000 + b1 as int * 0x1_0000 + b2 as int * 256 + b3 as int;
    assert(0 <= v < 0x1_0000_0000);
    let x = u32_from_be_bytes(b0, b1, b2, b3);
    assert(x == v);
    assert(v / 0x100_0000 == b0) by (nonlinear_arith)
        requires
            v == b0 as int * 0x100_0000 + b1 as int * 0x1_0000 + b2 as int * 256 + b3 as int,
            b1 < 256,
            b2 < 256,
            b3 < 256,
    ;
    assert((v / 0x1_0000) % 256 == b1) by (nonlinear_arith)
        requires
            v == b0 as int * 0x100_0000 + b1 as int * 0x1_0000 + b2 as int * 256 + b3 as int,
            b1 < 256,
            b2 < 256,
            b3 < 256,
            b0 < 256,
    ;
    assert((v / 256) % 256 == b2) by (nonlinear_arith)
        requires
            v == b0 as int * 0x100_0000 + b1 as int * 0x1_0000 + b2 as int * 256 + b3 as int,
            b1 < 256,
            b2 < 256,
            b3 < 256,
            b0 < 256,
    ;
    assert(v % 256 == b3) by (nonlinear_arith)
        requires
            v == b0 as int * 0x100_0000 + b1 as int * 0x1_0000 + b2 as int * 256 + b3 as int,
            b3 < 256,
    ;
    assert(u32_be_bytes(x) =~= seq![b0, b1, b2, b3]);
}

/// The vendor id and vendor type read from seven bytes write back to those bytes.
proof fn lemma_expanded_type_encode_decode(buffer: Seq<u8>)
    requires
        buffer.len() >= EAP_PACKET_EXPANDED_TYPE_HEADER_SIZE,
    ensures
        u32_be_bytes(u32_from_be_bytes(0, buffer[0], buffer[1], buffer[2])).skip(1) + u32_be_bytes(
            u32_from_be_bytes(buffer[3], buffer[4], buffer[5], buffer[6]),
        ) + buffer.skip(EAP_PACKET_EXPANDED_TYPE_HEADER_SIZE as int) == buffer,
{
    lemma_u32_be_bytes_roundtrip(0, buffer[0], buffer[1], buffer[2]);
    lemma_u32_be_bytes_roundtrip(buffer[3], buffer[4], buffer[5], buffer[6]);
    assert(u32_be_bytes(u32_from_be_bytes(0, buffer[0], buffer[1], buffer[2])).skip(1) + u32_be_bytes(
        u32_from_be_bytes(buffer[3], buffer[4], buffer[5], buffer[6]),
    ) + buffer.skip(EAP_PACKET_EXPANDED_TYPE_HEADER_SIZE as int) =~= buffer);
}

/// Reading the bytes of encodable packet data with its own code gives the data back.
pub proof fn lemma_eap_data_decode_encode(data: EapPacketDataView)
    requires
        eap_data_is_encodable(data),
    ensures
        eap_data_decode(eap_data_code(data), eap_data_encode(data)) == Ok::<
            EapPacketDataView,
            EapPacketError,
        >(data),
{
    match data {
        EapPacketDataView::Request { type_data } | EapPacketDataView::Response { type_data } => {
            let bytes = eap_data_encode(data);
            lemma_eap_type_data_decode_encode(type_data);
            assert(bytes.skip(1) =~= eap_type_data_encode(type_data));
            assert(EapPacketType::spec_from_byte(bytes[0]) == eap_type_data_type(type_data));
        },
        _ => {},
    }
}

/// Writing packet data that was read gives the bytes back, and the data has the code it was
/// read with when that code is canonical; a success or failure must have been read from
/// nothing, since its bytes are ignored.
pub proof fn lemma_eap_data_encode_decode(code: EapPacketCode, buffer: Seq<u8>)
    requires
        eap_data_decode(code, buffer) is Ok,
        code is Success || code is Failure ==> buffer.len() == 0,
    ensures
        eap_data_encode(eap_data_decode(code, buffer)->Ok_0) == buffer,
        code.is_canonical() ==> eap_data_code(eap_data_decode(code, buffer)->Ok_0) == code,
{
    match code {
        EapPacketCode::Request | EapPacketCode::Response => {
            lemma_eap_packet_type_byte_roundtrip(buffer[0]);
            lemma_eap_type_data_encode_decode(
                EapPacketType::spec_from_byte(buffer[0]),
                buffer.skip(1),
            );
            assert(seq![buffer[0]] + buffer.skip(1) =~= buffer);
        },
        EapPacketCode::Success | EapPacketCode::Failure => {
            assert(buffer =~= Seq::<u8>::empty());
        },
        _ => {},
    }
}

impl From<EapPacketData> for Vec<u8> {
    fn from(data: EapPacketData) -> (bytes: Vec<u8>)
        ensures
            bytes@ == eap_data_encode(data@),
    {
        data.to_bytes()
    }
}

impl vstd::std_specs::convert::FromSpecImpl<EapPacketData> for Vec<u8> {
    open spec fn obeys_from_spec() -> bool {
        false
    }

    open spec fn from_spec(data: EapPacketData) -> Vec<u8> {
        arbitrary()
    }
}

impl From<EapPacketTypeData> for Vec<u8> {
    fn from(type_data: EapPacketTypeData) -> (bytes: Vec<u8>)
        ensures
            bytes@ == eap_type_data_encode(type_data@),
    {
        type_data.to_bytes()
    }
}

impl vstd::std_specs::convert::FromSpecImpl<EapPacketTypeData> for Vec<u8> {
    open spec fn obeys_from_spec() -> bool {
        false
    }

    open spec fn from_spec(type_data: EapPacketTypeData) -> Vec<u8> {
        arbitrary()
    }
}

impl<'a> TryFrom<(EapPacketCode, &'a [u8])> for EapPacketData {
    type Error = EapPacketError;

    fn try_from(input: (EapPacketCode, &'a [u8])) -> (result: Result<Self, EapPacketError>)
        ensures
            match eap_data_decode(input.0, input.1@) {
                Ok(value) => result matches Ok(v) && v@ == value,
                Err(error) => result matches Err(e) && e == error,
            },
    {
        Self::parse(input.0, input.1)
    }
}

impl<'a> vstd::std_specs::convert::TryFromSpecImpl<(EapPacketCode, &'a [u8])> for EapPacketData {
    open spec fn obeys_try_from_spec() -> bool {
        false
    }

    open spec fn try_from_spec(input: (EapPacketCode, &'a [u8])) -> Result<Self, EapPacketError> {
        arbitrary()
    }
}

impl<'a> TryFrom<(EapPacketType, &'a [u8])> for EapPacketTypeData {
    type Error = EapPacketError;

    fn try_from(input: (EapPacketType, &'a [u8])) -> (result: Result<Self, EapPacketError>)
        ensures
            match eap_type_data_decode(input.0, input.1@) {
                Ok(value) => result matches Ok(v) && v@ == value,
                Err(error) => result matches Err(e) && e == error,
            },
    {
        Self::parse(input.0, input.1)
    }
}

impl<'a> vstd::std_specs::convert::TryFromSpecImpl<(EapPacketType, &'a [u8])> for EapPacketTypeData {
    open spec fn obeys_try_from_spec() -> bool {
        false
    }

    open spec fn try_from_spec(input: (EapPacketType, &'a [u8])) -> Result<Self, EapPacketError> {
        arbitrary()
    }
}


/// The wire number of every EAP type, as RFC 3748 assign them; every other byte reads as
/// an unknown value that keeps the byte.
pub proof fn lemma_eap_packet_type_wire_values()
    ensures
        EapPacketType::spec_from_byte(1) == EapPacketType::Identity,
        EapPacketType::Identity.spec_to_byte() == 1,
        EapPacketType::spec_from_byte(2) == EapPacketType::Notification,
        EapPacketType::Notification.spec_to_byte() == 2,
        EapPacketType::spec_from_byte(3) == EapPacketType::Nak,
        EapPacketType::Nak.spec_to_byte() == 3,
        EapPacketType::spec_from_byte(4) == EapPacketType::MD5Challenge,
        EapPacketType::MD5Challenge.spec_to_byte() == 4,
        EapPacketType::spec_from_byte(5) == EapPacketType::OneTimePassword,
        EapPacketType::OneTimePassword.spec_to_byte() == 5,
        EapPacketType::spec_from_byte(6) == EapPacketType::GenericTokenCard,
        EapPacketType::GenericTokenCard.spec_to_byte() == 6,
        EapPacketType::spec_from_byte(254) == EapPacketType::ExpandedType,
        EapPacketType::ExpandedType.spec_to_byte() == 254,
        forall|byte: u8| byte != 1 && byte != 2 && byte != 3 && byte != 4 && byte != 5 && byte != 6 && byte != 254 ==> #[trigger] EapPacketType::spec_from_byte(byte) == EapPacketType::Other(byte),
        forall|byte: u8| byte != 1 && byte != 2 && byte != 3 && byte != 4 && byte != 5 && byte != 6 && byte != 254 ==> #[trigger] EapPacketType::Other(byte).spec_to_byte() == byte,
{
}

} // verus!
