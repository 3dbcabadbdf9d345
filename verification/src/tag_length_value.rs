use vstd::prelude::*;

verus! {

/// Size of the tag byte plus the length byte that precede every value.
pub const TAG_LENGTH_VALUE_HEADER_SIZE: usize = 2;

#[derive(Debug, Clone, Copy, PartialEq, Eq)]
pub enum TagLengthValueError {
    NotEnoughData,
    InvalidLength(usize),
}

/// A tag that is carried on the wire as a single byte.
pub trait TagLengthValueTag: Copy + Sized {
    /// The tag that a byte decodes to.
    spec fn spec_from_byte(byte: u8) -> Self;

    /// The byte that a tag encodes to.
    spec fn spec_to_byte(self) -> u8;

    fn from_byte(byte: u8) -> (tag: Self)
        ensures
            tag == Self::spec_from_byte(byte),
    ;

    fn to_byte(self) -> (byte: u8)
        ensures
            byte == self.spec_to_byte(),
    ;

    /// Decoding a byte and encoding the tag again gives the byte back.
    proof fn lemma_from_byte_to_byte(byte: u8)
        ensures
            Self::spec_from_byte(byte).spec_to_byte() == byte,
    ;
}

/// A tag is canonical when decoding its own byte gives it back.
pub open spec fn tag_is_canonical<T: TagLengthValueTag>(tag: T) -> bool {
    T::spec_from_byte(tag.spec_to_byte()) == tag
}

/// The bytes of one tag-length-value item: tag byte, length byte (truncated to a byte), value.
pub open spec fn tlv_encode(tag_byte: u8, value: Seq<u8>) -> Seq<u8> {
    seq![tag_byte, (value.len() + 2) as u8] + value
}

/// Decoding of one tag-length-value item at the start of `buffer`: the tag byte and the value.
pub open spec fn tlv_decode(buffer: Seq<u8>) -> Result<(u8, Seq<u8>), TagLengthValueError> {
    if buffer.len() < 2 {
        Err(TagLengthValueError::NotEnoughData)
    } else if buffer.len() < buffer[1] {
        Err(TagLengthValueError::NotEnoughData)
    } else if buffer[1] < 2 {
        Err(TagLengthValueError::InvalidLength(buffer[1] as usize))
    } else {
        Ok((buffer[0], buffer.subrange(2, buffer[1] as int)))
    }
}

/// The bytes of an item are its value and two header bytes; the length byte holds that
/// count, truncated to a byte.
pub proof fn lemma_tlv_encode_length(tag_byte: u8, value: Seq<u8>)
    ensures
        tlv_encode(tag_byte, value).len() == value.len() + TAG_LENGTH_VALUE_HEADER_SIZE,
        tlv_encode(tag_byte, value)[0] == tag_byte,
        tlv_encode(tag_byte, value)[1] == (value.len() + TAG_LENGTH_VALUE_HEADER_SIZE) as u8,
{
}

/// Reading the bytes of an item whose value fits in a length byte gives the tag byte and
/// the value back, even with more bytes after it.
pub proof fn lemma_tlv_decode_encode(tag_byte: u8, value: Seq<u8>, rest: Seq<u8>)
    requires
        value.len() + 2 <= 255,
    ensures
        tlv_decode(tlv_encode(tag_byte, value) + rest) == Ok::<(u8, Seq<u8>), TagLengthValueError>(
            (tag_byte, value),
        ),
{
    let bytes = tlv_encode(tag_byte, value) + rest;
    assert(bytes[0] == tag_byte);
    assert(bytes[1] == (value.len() + 2) as u8);
    assert(bytes.subrange(2, bytes[1] as int) =~= value);
}

/// An item that reads from the start of `buffer` is written back as exactly the bytes it
/// was read from.
pub proof fn lemma_tlv_encode_decode(buffer: Seq<u8>)
    requires
        tlv_decode(buffer) is Ok,
    ensures
        ({
            let (tag_byte, value) = tlv_decode(buffer)->Ok_0;
            tlv_encode(tag_byte, value) == buffer.subrange(0, buffer[1] as int)
        }),
{
    let (tag_byte, value) = tlv_decode(buffer)->Ok_0;
    assert(tlv_encode(tag_byte, value) =~= buffer.subrange(0, buffer[1] as int));
}

#[derive(Debug, PartialEq, Eq)]
pub struct TagLengthValue<T> {
    tag: T,
    value: Vec<u8>,
}

impl<T> View for TagLengthValue<T> {
    type V = (T, Seq<u8>);

    closed spec fn view(&self) -> (T, Seq<u8>) {
        (self.tag, self.value@)
    }
}

impl<T: Copy> Clone for TagLengthValue<T> {
    fn clone(&self) -> (copy: Self)
        ensures
            copy@ == self@,
    {
        Self { tag: self.tag, value: vstd::slice::slice_to_vec(self.value.as_slice()) }
    }
}

impl<T: TagLengthValueTag> TagLengthValue<T> {
    pub fn from_tag_and_value(tag: T, value: Vec<u8>) -> (tlv: Self)
        ensures
            tlv@ == (tag, value@),
    {
        Self { tag, value }
    }

    pub fn tag(&self) -> (tag: T)
        ensures
            tag == self@.0,
    {
        self.tag
    }

    pub fn length(&self) -> (length: usize)
        requires
            self@.1.len() + TAG_LENGTH_VALUE_HEADER_SIZE <= usize::MAX,
        ensures
            length == self@.1.len() + TAG_LENGTH_VALUE_HEADER_SIZE,
    {
        TAG_LENGTH_VALUE_HEADER_SIZE + self.value.len()
    }

    pub fn value(&self) -> (value: &[u8])
        ensures
            value@ == self@.1,
    {
        self.value.as_slice()
    }

    /// Writes the item as tag byte, length byte and value.
    pub fn to_bytes(&self) -> (bytes: Vec<u8>)
        ensures
            bytes@ == tlv_encode(self@.0.spec_to_byte(), self@.1),
    {
        let mut buffer: Vec<u8> = Vec::new();
        buffer.push(self.tag.to_byte());
        let value_length: usize = self.value.len();
        let length_byte: u8 = ((value_length % 256 + 2) % 256) as u8;
        assert(((value_length % 256 + 2) % 256) as u8 == (value_length + 2) as u8) by (bit_vector);
        buffer.push(length_byte);
        let mut i: usize = 0;
        while i < self.value.len()
            invariant
                i <= self.value@.len(),
                buffer@ == seq![self.tag.spec_to_byte(), (self.value@.len() + 2) as u8]
                    + self.value@.subrange(0, i as int),
            decreases self.value@.len() - i,
        {
            buffer.push(self.value[i]);
            i = i + 1;
            assert(self.value@.subrange(0, i as int) == self.value@.subrange(0, i - 1).push(
                self.value@[i - 1],
            ));
        }
        assert(self.value@.subrange(0, i as int) == self.value@);
        buffer
    }

    /// Reads one item from the start of `buffer`; bytes after its length are left unread.
    pub fn parse(buffer: &[u8]) -> (result: Result<Self, TagLengthValueError>)
        ensures
            match tlv_decode(buffer@) {
                Ok((tag_byte, value)) => result matches Ok(tlv) && tlv@ == (
                    T::spec_from_byte(tag_byte),
                    value,
                ),
                Err(error) => result matches Err(e) && e == error,
            },
    {
        if buffer.len() < TAG_LENGTH_VALUE_HEADER_SIZE {
            return Err(TagLengthValueError::NotEnoughData);
        }
        let tag = T::from_byte(buffer[0]);
        let length = buffer[1] as usize;
        if buffer.len() < length {
            return Err(TagLengthValueError::NotEnoughData);
        }
        if length < TAG_LENGTH_VALUE_HEADER_SIZE {
            return Err(TagLengthValueError::InvalidLength(length));
        }
        let value = vstd::slice::slice_to_vec(&buffer[TAG_LENGTH_VALUE_HEADER_SIZE..length]);
        Ok(Self { tag, value })
    }
}

impl<T: TagLengthValueTag> From<TagLengthValue<T>> for Vec<u8> {
    fn from(tlv: TagLengthValue<T>) -> (bytes: Vec<u8>)
        ensures
            bytes@ == tlv_encode(tlv@.0.spec_to_byte(), tlv@.1),
    {
        tlv.to_bytes()
    }
}

impl<T: TagLengthValueTag> vstd::std_specs::convert::FromSpecImpl<TagLengthValue<T>> for Vec<u8> {
    open spec fn obeys_from_spec() -> bool {
        false
    }

    open spec fn from_spec(v: TagLengthValue<T>) -> Vec<u8> {
        arbitrary()
    }
}

impl<'a, T: TagLengthValueTag> TryFrom<&'a [u8]> for TagLengthValue<T> {
    type Error = TagLengthValueError;

    fn try_from(buffer: &'a [u8]) -> (result: Result<Self, TagLengthValueError>)
        ensures
            match tlv_decode(buffer@) {
                Ok((tag_byte, value)) => result matches Ok(tlv) && tlv@ == (
                    T::spec_from_byte(tag_byte),
                    value,
                ),
                Err(error) => result matches Err(e) && e == error,
            },
    {
        Self::parse(buffer)
    }
}

impl<'a, T: TagLengthValueTag> vstd::std_specs::convert::TryFromSpecImpl<&'a [u8]> for TagLengthValue<T> {
    open spec fn obeys_try_from_spec() -> bool {
        false
    }

    open spec fn try_from_spec(v: &'a [u8]) -> Result<Self, TagLengthValueError> {
        arbitrary()
    }
}

} // verus!
