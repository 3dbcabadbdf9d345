use vstd::prelude::*;

verus! {

/// The big-endian bytes of a 16-bit number.
pub open spec fn u16_be_bytes(value: u16) -> Seq<u8> {
    seq![(value / 256) as u8, (value % 256) as u8]
}

/// The big-endian 16-bit length field at bytes 2 and 3 of a packet header.
pub open spec fn header_length_field(buffer: Seq<u8>) -> int {
    buffer[2] as int * 256 + buffer[3] as int
}

/// Whether two byte slices hold the same bytes.
pub fn bytes_equal(left: &[u8], right: &[u8]) -> (equal: bool)
    ensures
        equal == (left@ == right@),
{
    if left.len() != right.len() {
        return false;
    }
    let mut i: usize = 0;
    while i < left.len()
        invariant
            i <= left@.len(),
            left@.len() == right@.len(),
            left@.subrange(0, i as int) == right@.subrange(0, i as int),
        decreases left@.len() - i,
    {
        if left[i] != right[i] {
            assert(left@[i as int] != right@[i as int]);
            return false;
        }
        i = i + 1;
        assert(left@.subrange(0, i as int) =~= right@.subrange(0, i as int)) by {
            assert(left@.subrange(0, i as int) =~= left@.subrange(0, i - 1).push(left@[i - 1]));
            assert(right@.subrange(0, i as int) =~= right@.subrange(0, i - 1).push(right@[i - 1]));
        }
    }
    assert(left@ =~= left@.subrange(0, i as int));
    assert(right@ =~= right@.subrange(0, i as int));
    true
}

/// Appends `bytes` to the end of `buffer`.
pub fn extend_bytes(buffer: &mut Vec<u8>, bytes: &[u8])
    ensures
        final(buffer)@ == old(buffer)@ + bytes@,
{
    let mut i: usize = 0;
    while i < bytes.len()
        invariant
            i <= bytes@.len(),
            buffer@ == old(buffer)@ + bytes@.subrange(0, i as int),
        decreases bytes@.len() - i,
    {
        buffer.push(bytes[i]);
        i = i + 1;
        assert(buffer@ =~= old(buffer)@ + bytes@.subrange(0, i as int));
    }
    assert(bytes@.subrange(0, i as int) =~= bytes@);
}

} // verus!
