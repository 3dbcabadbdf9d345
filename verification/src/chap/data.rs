use crate::bytes::extend_bytes;
use crate::chap::ChapPacketError;
use crate::chap::code::ChapPacketCode;
use vstd::prelude::*;

verus! {

/// The data that follows the header of a CHAP packet.
#[derive(Debug, PartialEq, Eq)]
pub enum ChapPacketData {
    Challenge { value: Vec<u8>, name: Vec<u8> },
    Response { value: Vec<u8>, name: Vec<u8> },
    Success { message: Vec<u8> },
    Failure { message: Vec<u8> },
}

/// CHAP packet data as a mathematical value.
pub enum ChapPacketDataView {
    Challenge { value: Seq<u8>, name: Seq<u8> },
    Response { value: Seq<u8>, name: Seq<u8> },
    Success { message: Seq<u8> },
    Failure { message: Seq<u8> },
}

impl View for ChapPacketData {
    type V = ChapPacketDataView;

    open spec fn view(&self) -> ChapPacketDataView {
        match self {
            ChapPacketData::Challenge { value, name } => ChapPacketDataView::Challenge {
                value: value@,
                name: name@,
            },
            ChapPacketData::Response { value, name } => ChapPacketDataView::Response {
                value: value@,
                name: name@,
            },
            ChapPacketData::Success { message } => ChapPacketDataView::Success {
                message: message@,
            },
            ChapPacketData::Failure { message } => ChapPacketDataView::Failure {
                message: message@,
            },
        }
    }
}

/// The code that goes with the data.
pub open spec fn chap_data_code(data: ChapPacketDataView) -> ChapPacketCode {
    match data {
        ChapPacketDataView::Challenge { .. } => ChapPacketCode::Challenge,
        ChapPacketDataView::Response { .. } => ChapPacketCode::Response,
        ChapPacketDataView::Success { .. } => ChapPacketCode::Success,
        ChapPacketDataView::Failure { .. } => ChapPacketCode::Failure,
    }
}

/// The length of the data on the wire.
pub open spec fn chap_data_length(data: ChapPacketDataView) -> int {
    match data {
        ChapPacketDataView::Challenge { value, name } => (1 + value.len() + name.len()) as int,
        ChapPacketDataView::Response { value, name } => (1 + value.len() + name.len()) as int,
        ChapPacketDataView::Success { message } => message.len() as int,
        ChapPacketDataView::Failure { message } => message.len() as int,
    }
}

/// The bytes of the data: for a challenge or response the value length (truncated to a byte),
/// the value and the name; otherwise the message.
pub open spec fn chap_data_encode(data: ChapPacketDataView) -> Seq<u8> {
    match data {
        ChapPacketDataView::Challenge { value, name } => seq![value.len() as u8] + value + name,
        ChapPacketDataView::Response { value, name } => seq![value.len() as u8] + value + name,
        ChapPacketDataView::Success { message } => message,
        ChapPacketDataView::Failure { message } => message,
    }
}

/// Reading the data of a packet with the given code from `buffer`.
pub open spec fn chap_data_decode(code: ChapPacketCode, buffer: Seq<u8>) -> Result<
    ChapPacketDataView,
    ChapPacketError,
> {
    match code {
        ChapPacketCode::Challenge | ChapPacketCode::Response => {
            if buffer.len() < 3 {
                Err(ChapPacketError::NotEnoughData)
            } else if buffer.len() < buffer[0] + 1 {
                Err(ChapPacketError::NotEnoughData)
            } else {
                let value = buffer.subrange(1, buffer[0] + 1);
                let name = buffer.skip(buffer[0] + 1);
                if code == ChapPacketCode::Challenge {
                    Ok(ChapPacketDataView::Challenge { value, name })
                } else {
                    Ok(ChapPacketDataView::Response { value, name })
                }
            }
        },
        ChapPacketCode::Success => Ok(ChapPacketDataView::Success { message: buffer }),
        ChapPacketCode::Failure => Ok(ChapPacketDataView::Failure { message: buffer }),
    }
}

/// The data can be written and read back unchanged: the value length fits in its byte, and a
/// challenge or response is at least three bytes long.
pub open spec fn chap_data_is_encodable(data: ChapPacketDataView) -> bool {
    match data {
        ChapPacketDataView::Challenge { value, name } => value.len() <= 255 && value.len()
            + name.len() >= 2,
        ChapPacketDataView::Response { value, name } => value.len() <= 255 && value.len()
            + name.len() >= 2,
        _ => true,
    }
}

impl ChapPacketData {
    pub fn length(&self) -> (length: usize)
        requires
            chap_data_length(self@) <= usize::MAX,
        ensures
            length == chap_data_length(self@),
    {
        match self {
            ChapPacketData::Challenge { value, name } | ChapPacketData::Response { value, name } => 1
                + value.len() + name.len(),
            ChapPacketData::Success { message } | ChapPacketData::Failure { message } => {
                message.len()
            },
        }
    }

    pub fn code(&self) -> (code: ChapPacketCode)
        ensures
            code == chap_data_code(self@),
    {
        match self {
            ChapPacketData::Challenge { .. } => ChapPacketCode::Challenge,
            ChapPacketData::Response { .. } => ChapPacketCode::Response,
            ChapPacketData::Success { .. } => ChapPacketCode::Success,
            ChapPacketData::Failure { .. } => ChapPacketCode::Failure,
        }
    }

    pub fn to_bytes(&self) -> (bytes: Vec<u8>)
        ensures
            bytes@ == chap_data_encode(self@),
    {
        let mut buffer: Vec<u8> = Vec::new();
        match self {
            ChapPacketData::Challenge { value, name } | ChapPacketData::Response { value, name } => {
                buffer.push(value.len() as u8);
                extend_bytes(&mut buffer, value.as_slice());
                extend_bytes(&mut buffer, name.as_slice());
            },
            ChapPacketData::Success { message } | ChapPacketData::Failure { message } => {
                extend_bytes(&mut buffer, message.as_slice());
            },
        }
        buffer
    }

    /// Reads the data of a packet with the given code.
    pub fn parse(packet_code: ChapPacketCode, buffer: &[u8]) -> (result: Result<
        Self,
        ChapPacketError,
    >)
        ensures
            match chap_data_decode(packet_code, buffer@) {
                Ok(data) => result matches Ok(d) && d@ == data,
                Err(error) => result matches Err(e) && e == error,
            },
    {
        match packet_code {
            ChapPacketCode::Challenge | ChapPacketCode::Response => {
                if buffer.len() < 3 {
                    return Err(ChapPacketError::NotEnoughData);
                }
                let value_length = buffer[0] as usize;
                if buffer.len() < value_length + 1 {
                    return Err(ChapPacketError::NotEnoughData);
                }
                let value = vstd::slice::slice_to_vec(&buffer[1..value_length + 1]);
                let name = vstd::slice::slice_to_vec(&buffer[value_length + 1..buffer.len()]);
                if packet_code == ChapPacketCode::Challenge {
                    Ok(ChapPacketData::Challenge { value, name })
                } else {
                    Ok(ChapPacketData::Response { value, name })
                }
            },
            ChapPacketCode::Success => Ok(
                ChapPacketData::Success { message: vstd::slice::slice_to_vec(buffer) },
            ),
            ChapPacketCode::Failure => Ok(
                ChapPacketData::Failure { message: vstd::slice::slice_to_vec(buffer) },
            ),
        }
    }
}

/// Reading the bytes of encodable data with its own code gives the data back.
pub proof fn lemma_chap_data_decode_encode(data: ChapPacketDataView)
    requires
        chap_data_is_encodable(data),
    ensures
        chap_data_decode(chap_data_code(data), chap_data_encode(data)) == Ok::<
            ChapPacketDataView,
            ChapPacketError,
        >(data),
{
    let bytes = chap_data_encode(data);
    match data {
        ChapPacketDataView::Challenge { value, name } => {
            assert(bytes.subrange(1, value.len() as int + 1) =~= value);
            assert(bytes.skip(value.len() as int + 1) =~= name);
        },
        ChapPacketDataView::Response { value, name } => {
            assert(bytes.subrange(1, value.len() as int + 1) =~= value);
            assert(bytes.skip(value.len() as int + 1) =~= name);
        },
        _ => {},
    }
}

/// Writing data that was read gives the bytes back, and the data has the code it was read with.
pub proof fn lemma_chap_data_encode_decode(code: ChapPacketCode, buffer: Seq<u8>)
    requires
        chap_data_decode(code, buffer) is Ok,
    ensures
        chap_data_encode(chap_data_decode(code, buffer)->Ok_0) == buffer,
        chap_data_code(chap_data_decode(code, buffer)->Ok_0) == code,
{
    match code {
        ChapPacketCode::Challenge | ChapPacketCode::Response => {
            assert(seq![buffer[0]] + buffer.subrange(1, buffer[0] + 1) + buffer.skip(buffer[0] + 1)
                =~= buffer);
        },
        _ => {},
    }
}

impl From<ChapPacketData> for Vec<u8> {
    fn from(data: ChapPacketData) -> (bytes: Vec<u8>)
        ensures
            bytes@ == chap_data_encode(data@),
    {
        data.to_bytes()
    }
}

impl vstd::std_specs::convert::FromSpecImpl<ChapPacketData> for Vec<u8> {
    open spec fn obeys_from_spec() -> bool {
        false
    }

    open spec fn from_spec(data: ChapPacketData) -> Vec<u8> {
        arbitrary()
    }
}

impl<'a> TryFrom<(ChapPacketCode, &'a [u8])> for ChapPacketData {
    type Error = ChapPacketError;

    fn try_from(input: (ChapPacketCode, &'a [u8])) -> (result: Result<Self, ChapPacketError>)
        ensures
            match chap_data_decode(input.0, input.1@) {
                Ok(data) => result matches Ok(d) && d@ == data,
                Err(error) => result matches Err(e) && e == error,
            },
    {
        Self::parse(input.0, input.1)
    }
}

impl<'a> vstd::std_specs::convert::TryFromSpecImpl<(ChapPacketCode, &'a [u8])> for ChapPacketData {
    open spec fn obeys_try_from_spec() -> bool {
        false
    }

    open spec fn try_from_spec(input: (ChapPacketCode, &'a [u8])) -> Result<Self, ChapPacketError> {
        arbitrary()
    }
}

} // verus!
