use vstd::prelude::*;
use byteorder::{BigEndian, ByteOrder};

verus! {

/// The unsigned big-endian integer held by the two bytes at `off`.
pub open spec fn be_u16(b: Seq<u8>, off: int) -> int {
    b[off] as int * 256 + b[off + 1] as int
}

/// The signed (two's complement) big-endian integer held by the two bytes at
/// `off`.
pub open spec fn be_i16(b: Seq<u8>, off: int) -> int {
    if b[off] < 128 {
        be_u16(b, off)
    } else {
        be_u16(b, off) - 65536
    }
}

/// The unsigned big-endian integer held by the four bytes at `off`.
pub open spec fn be_u32(b: Seq<u8>, off: int) -> int {
    be_u16(b, off) * 65536 + be_u16(b, off + 2)
}

/// Relies on byteorder's `BigEndian::read_u16`: the first two bytes of the
/// slice, most significant first.
#[verifier::external_body]
pub(crate) fn read_u16(b: &[u8], off: usize) -> (r: u16)
    requires
        off + 2 <= b@.len(),
    ensures
        r as int == be_u16(b@, off as int),
{
    BigEndian::read_u16(&b[off..])
}

/// Relies on byteorder's `BigEndian::read_i16`: the first two bytes of the
/// slice, most significant first, read as two's complement.
#[verifier::external_body]
pub(crate) fn read_i16(b: &[u8], off: usize) -> (r: i16)
    requires
        off + 2 <= b@.len(),
    ensures
        r as int == be_i16(b@, off as int),
{
    BigEndian::read_i16(&b[off..])
}

/// Relies on byteorder's `BigEndian::read_u32`: the first four bytes of the
/// slice, most significant first.
#[verifier::external_body]
pub(crate) fn read_u32(b: &[u8], off: usize) -> (r: u32)
    requires
        off + 4 <= b@.len(),
    ensures
        r as int == be_u32(b@, off as int),
{
    BigEndian::read_u32(&b[off..])
}

/// Copies the bytes from `from` up to `to` into a vector of their own.
pub fn copy_range(b: &[u8], from: usize, to: usize) -> (r: Vec<u8>)
    requires
        from <= to <= b@.len(),
    ensures
        r@ == b@.subrange(from as int, to as int),
{
    let mut r: Vec<u8> = Vec::new();
    let mut i: usize = from;
    while i < to
        invariant
            from <= i <= to <= b@.len(),
            r@ == b@.subrange(from as int, i as int),
        decreases to - i,
    {
        r.push(b[i]);
        i = i + 1;
        assert(r@ =~= b@.subrange(from as int, i as int));
    }
    r
}

/// The text that lossy UTF-8 decoding makes of a byte sequence.
pub uninterp spec fn lossy_text(b: Seq<u8>) -> Seq<char>;

/// Relies on `String::from_utf8_lossy`: the text depends on the bytes alone;
/// valid sequences are kept and invalid ones become U+FFFD, so a NUL character
/// comes only from a zero byte.
#[verifier::external_body]
pub(crate) fn text_lossy(b: &[u8]) -> (r: String)
    ensures
        r@ == lossy_text(b@),
        (forall|i: int| 0 <= i < b@.len() ==> b@[i] != 0) ==> (forall|j: int|
            0 <= j < r@.len() ==> r@[j] != '\0'),
{
    String::from_utf8_lossy(b).into_owned()
}

} // verus!
