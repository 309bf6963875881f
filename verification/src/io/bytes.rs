use vstd::prelude::*;

verus! {

/// Big-endian encoding of a 16-bit value.
pub open spec fn be16(x: u16) -> Seq<u8> {
    seq![(x / 0x100) as u8, (x % 0x100) as u8]
}

/// Big-endian encoding of a 32-bit value.
pub open spec fn be32(x: u32) -> Seq<u8> {
    seq![
        (x / 0x100_0000) as u8,
        ((x / 0x1_0000) % 0x100) as u8,
        ((x / 0x100) % 0x100) as u8,
        (x % 0x100) as u8,
    ]
}

/// Little-endian encoding of a 16-bit value.
pub open spec fn le16(x: u16) -> Seq<u8> {
    seq![(x % 0x100) as u8, (x / 0x100) as u8]
}

/// Little-endian encoding of a 32-bit value.
pub open spec fn le32(x: u32) -> Seq<u8> {
    seq![
        (x % 0x100) as u8,
        ((x / 0x100) % 0x100) as u8,
        ((x / 0x1_0000) % 0x100) as u8,
        (x / 0x100_0000) as u8,
    ]
}

/// The value of two big-endian bytes.
pub open spec fn be16_value(b0: u8, b1: u8) -> u16 {
    (b0 as int * 0x100 + b1 as int) as u16
}

/// The value of four big-endian bytes.
pub open spec fn be32_value(b0: u8, b1: u8, b2: u8, b3: u8) -> u32 {
    (b0 as int * 0x100_0000 + b1 as int * 0x1_0000 + b2 as int * 0x100 + b3 as int) as u32
}

/// Reading back a big-endian encoding gives the value, and encoding a read value
/// gives the bytes.
pub proof fn lemma_be16(x: u16, b0: u8, b1: u8)
    ensures
        be16_value(be16(x)[0], be16(x)[1]) == x,
        be16(be16_value(b0, b1)) =~= seq![b0, b1],
{
}

/// Reading back a big-endian encoding gives the value, and encoding a read value
/// gives the bytes.
pub proof fn lemma_be32(x: u32, b0: u8, b1: u8, b2: u8, b3: u8)
    ensures
        be32_value(be32(x)[0], be32(x)[1], be32(x)[2], be32(x)[3]) == x,
        be32(be32_value(b0, b1, b2, b3)) =~= seq![b0, b1, b2, b3],
{
    assert((x / 0x100_0000) * 0x100_0000 + ((x / 0x1_0000) % 0x100) * 0x1_0000 + ((x / 0x100)
        % 0x100) * 0x100 + x % 0x100 == x && x / 0x100_0000 < 0x100) by (bit_vector);
    let v: u32 = be32_value(b0, b1, b2, b3);
    assert(v == b0 as u32 * 0x100_0000 + b1 as u32 * 0x1_0000 + b2 as u32 * 0x100 + b3 as u32);
    assert(v / 0x100_0000 == b0 && (v / 0x1_0000) % 0x100 == b1 && (v / 0x100) % 0x100 == b2 && v
        % 0x100 == b3) by (bit_vector)
        requires
            v == b0 as u32 * 0x100_0000 + b1 as u32 * 0x1_0000 + b2 as u32 * 0x100 + b3 as u32,
    ;
}

/// The value of two little-endian bytes.
pub open spec fn le16_value(b0: u8, b1: u8) -> u16 {
    (b0 as int + b1 as int * 0x100) as u16
}

/// The value of four little-endian bytes.
pub open spec fn le32_value(b0: u8, b1: u8, b2: u8, b3: u8) -> u32 {
    (b0 as int + b1 as int * 0x100 + b2 as int * 0x1_0000 + b3 as int * 0x100_0000) as u32
}

/// The little-endian 16-bit value at `pos` of a byte sequence.
pub open spec fn le16_at(s: Seq<u8>, pos: int) -> u16 {
    le16_value(s[pos], s[pos + 1])
}

/// The little-endian 32-bit value at `pos` of a byte sequence.
pub open spec fn le32_at(s: Seq<u8>, pos: int) -> u32 {
    le32_value(s[pos], s[pos + 1], s[pos + 2], s[pos + 3])
}

/// Reading back a little-endian encoding gives the value, and encoding a read
/// value gives the bytes.
pub proof fn lemma_le16(x: u16, b0: u8, b1: u8)
    ensures
        le16_value(le16(x)[0], le16(x)[1]) == x,
        le16(le16_value(b0, b1)) =~= seq![b0, b1],
{
}

/// Reading back a little-endian encoding gives the value, and encoding a read
/// value gives the bytes.
pub proof fn lemma_le32(x: u32, b0: u8, b1: u8, b2: u8, b3: u8)
    ensures
        le32_value(le32(x)[0], le32(x)[1], le32(x)[2], le32(x)[3]) == x,
        le32(le32_value(b0, b1, b2, b3)) =~= seq![b0, b1, b2, b3],
{
    assert((x / 0x100_0000) * 0x100_0000 + ((x / 0x1_0000) % 0x100) * 0x1_0000 + ((x / 0x100)
        % 0x100) * 0x100 + x % 0x100 == x && x / 0x100_0000 < 0x100) by (bit_vector);
    let v: u32 = le32_value(b0, b1, b2, b3);
    assert(v == b0 as u32 + b1 as u32 * 0x100 + b2 as u32 * 0x1_0000 + b3 as u32 * 0x100_0000);
    assert(v / 0x100_0000 == b3 && (v / 0x1_0000) % 0x100 == b2 && (v / 0x100) % 0x100 == b1 && v
        % 0x100 == b0) by (bit_vector)
        requires
            v == b0 as u32 + b1 as u32 * 0x100 + b2 as u32 * 0x1_0000 + b3 as u32 * 0x100_0000,
    ;
}

/// Reads the little-endian 16-bit value at `pos`.
pub fn read_le16(bytes: &[u8], pos: usize) -> (r: u16)
    requires
        pos + 2 <= bytes@.len(),
    ensures
        r == le16_at(bytes@, pos as int),
{
    (bytes[pos] as u16) + (bytes[pos + 1] as u16) * 0x100
}

/// Reads the little-endian 32-bit value at `pos`.
pub fn read_le32(bytes: &[u8], pos: usize) -> (r: u32)
    requires
        pos + 4 <= bytes@.len(),
    ensures
        r == le32_at(bytes@, pos as int),
{
    (bytes[pos] as u32) + (bytes[pos + 1] as u32) * 0x100 + (bytes[pos + 2] as u32) * 0x1_0000
        + (bytes[pos + 3] as u32) * 0x100_0000
}

/// Appends the big-endian bytes of a 16-bit value.
pub fn push_be16(out: &mut Vec<u8>, x: u16)
    ensures
        final(out)@ == old(out)@ + be16(x),
{
    out.push((x / 0x100) as u8);
    out.push((x % 0x100) as u8);
    assert(final(out)@ =~= old(out)@ + be16(x));
}

/// Appends the big-endian bytes of a 32-bit value.
pub fn push_be32(out: &mut Vec<u8>, x: u32)
    ensures
        final(out)@ == old(out)@ + be32(x),
{
    out.push((x / 0x100_0000) as u8);
    out.push(((x / 0x1_0000) % 0x100) as u8);
    out.push(((x / 0x100) % 0x100) as u8);
    out.push((x % 0x100) as u8);
    assert(final(out)@ =~= old(out)@ + be32(x));
}

/// Appends the little-endian bytes of a 16-bit value.
pub fn push_le16(out: &mut Vec<u8>, x: u16)
    ensures
        final(out)@ == old(out)@ + le16(x),
{
    out.push((x % 0x100) as u8);
    out.push((x / 0x100) as u8);
    assert(final(out)@ =~= old(out)@ + le16(x));
}

/// Appends the little-endian bytes of a 32-bit value.
pub fn push_le32(out: &mut Vec<u8>, x: u32)
    ensures
        final(out)@ == old(out)@ + le32(x),
{
    out.push((x % 0x100) as u8);
    out.push(((x / 0x100) % 0x100) as u8);
    out.push(((x / 0x1_0000) % 0x100) as u8);
    out.push((x / 0x100_0000) as u8);
    assert(final(out)@ =~= old(out)@ + le32(x));
}

/// Appends all bytes of a slice.
pub fn push_bytes(out: &mut Vec<u8>, bytes: &[u8])
    ensures
        final(out)@ == old(out)@ + bytes@,
{
    let mut i: usize = 0;
    while i < bytes.len()
        invariant
            i <= bytes@.len(),
            out@ == old(out)@ + bytes@.subrange(0, i as int),
        decreases bytes@.len() - i,
    {
        out.push(bytes[i]);
        i += 1;
        assert(out@ =~= old(out)@ + bytes@.subrange(0, i as int));
    }
    assert(bytes@.subrange(0, i as int) =~= bytes@);
}

/// Copies `bytes[start..end]` into a new vector.
pub fn copy_range(bytes: &[u8], start: usize, end: usize) -> (r: Vec<u8>)
    requires
        start <= end <= bytes@.len(),
    ensures
        r@ == bytes@.subrange(start as int, end as int),
{
    let mut r: Vec<u8> = Vec::with_capacity(end - start);
    let mut i: usize = start;
    while i < end
        invariant
            start <= i <= end <= bytes@.len(),
            r@ == bytes@.subrange(start as int, i as int),
        decreases end - i,
    {
        r.push(bytes[i]);
        i += 1;
        assert(r@ =~= bytes@.subrange(start as int, i as int));
    }
    r
}

} // verus!
