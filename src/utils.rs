//! Byte-level helpers: fixed-width integers read from a byte sequence in a
//! given byte order, and the converter between on-disk and host order.

use vstd::prelude::*;

verus! {

/// The 16-bit value of `s[i..i + 2]` read in little-endian order.
pub open spec fn u16_le(s: Seq<u8>, i: int) -> u16 {
    (s[i] as u16) | ((s[i + 1] as u16) << 8u16)
}

/// The 16-bit value of `s[i..i + 2]` read in big-endian order.
pub open spec fn u16_be(s: Seq<u8>, i: int) -> u16 {
    (s[i + 1] as u16) | ((s[i] as u16) << 8u16)
}

/// The 32-bit value of `s[i..i + 4]` read in little-endian order.
pub open spec fn u32_le(s: Seq<u8>, i: int) -> u32 {
    (s[i] as u32) | ((s[i + 1] as u32) << 8u32) | ((s[i + 2] as u32) << 16u32) | ((s[i
        + 3] as u32) << 24u32)
}

/// The 32-bit value of `s[i..i + 4]` read in big-endian order.
pub open spec fn u32_be(s: Seq<u8>, i: int) -> u32 {
    (s[i + 3] as u32) | ((s[i + 2] as u32) << 8u32) | ((s[i + 1] as u32) << 16u32) | ((
    s[i] as u32) << 24u32)
}

/// The 64-bit value of `s[i..i + 8]` read in little-endian order.
pub open spec fn u64_le(s: Seq<u8>, i: int) -> u64 {
    (s[i] as u64) | ((s[i + 1] as u64) << 8u64) | ((s[i + 2] as u64) << 16u64) | ((s[i
        + 3] as u64) << 24u64) | ((s[i + 4] as u64) << 32u64) | ((s[i + 5] as u64) << 40u64)
        | ((s[i + 6] as u64) << 48u64) | ((s[i + 7] as u64) << 56u64)
}

/// The 64-bit value of `s[i..i + 8]` read in big-endian order.
pub open spec fn u64_be(s: Seq<u8>, i: int) -> u64 {
    (s[i + 7] as u64) | ((s[i + 6] as u64) << 8u64) | ((s[i + 5] as u64) << 16u64) | ((s[i
        + 4] as u64) << 24u64) | ((s[i + 3] as u64) << 32u64) | ((s[i + 2] as u64) << 40u64)
        | ((s[i + 1] as u64) << 48u64) | ((s[i] as u64) << 56u64)
}

/// `s[i..i + 2]` as a 16-bit value, little-endian when `little` holds.
pub open spec fn u16_at(s: Seq<u8>, i: int, little: bool) -> u16 {
    if little {
        u16_le(s, i)
    } else {
        u16_be(s, i)
    }
}

/// `s[i..i + 4]` as a 32-bit value, little-endian when `little` holds.
pub open spec fn u32_at(s: Seq<u8>, i: int, little: bool) -> u32 {
    if little {
        u32_le(s, i)
    } else {
        u32_be(s, i)
    }
}

/// `s[i..i + 8]` as a 64-bit value, little-endian when `little` holds.
pub open spec fn u64_at(s: Seq<u8>, i: int, little: bool) -> u64 {
    if little {
        u64_le(s, i)
    } else {
        u64_be(s, i)
    }
}

/// The 16-bit value with its two bytes in reverse order.
pub open spec fn swap16(x: u16) -> u16 {
    ((x & 0xffu16) << 8u16) | (x >> 8u16)
}

/// The 32-bit value with its four bytes in reverse order.
pub open spec fn swap32(x: u32) -> u32 {
    ((x & 0xffu32) << 24u32) | (((x >> 8u32) & 0xffu32) << 16u32) | (((x >> 16u32) & 0xffu32)
        << 8u32) | (x >> 24u32)
}

/// The 64-bit value with its eight bytes in reverse order.
pub open spec fn swap64(x: u64) -> u64 {
    ((x & 0xffu64) << 56u64) | (((x >> 8u64) & 0xffu64) << 48u64) | (((x >> 16u64) & 0xffu64)
        << 40u64) | (((x >> 24u64) & 0xffu64) << 32u64) | (((x >> 32u64) & 0xffu64) << 24u64)
        | (((x >> 40u64) & 0xffu64) << 16u64) | (((x >> 48u64) & 0xffu64) << 8u64) | (x
        >> 56u64)
}

/// Reversing the bytes of a 16-bit value twice gives the value back.
pub proof fn lemma_swap16_involution(x: u16)
    ensures
        swap16(swap16(x)) == x,
{
    assert(swap16(swap16(x)) == x) by (bit_vector);
}

/// Reversing the bytes of a 32-bit value twice gives the value back.
pub proof fn lemma_swap32_involution(x: u32)
    ensures
        swap32(swap32(x)) == x,
{
    assert(swap32(swap32(x)) == x) by (bit_vector);
}

/// Reversing the bytes of a 64-bit value twice gives the value back.
pub proof fn lemma_swap64_involution(x: u64)
    ensures
        swap64(swap64(x)) == x,
{
    assert(swap64(swap64(x)) == x) by (bit_vector);
}

/// Reading two bytes in one order and reversing them reads them in the other.
pub proof fn lemma_swap16_read(s: Seq<u8>, i: int, little: bool)
    requires
        0 <= i,
        i + 2 <= s.len(),
    ensures
        swap16(u16_at(s, i, little)) == u16_at(s, i, !little),
{
    let (b0, b1) = (s[i], s[i + 1]);
    assert(swap16((b0 as u16) | ((b1 as u16) << 8u16)) == (b1 as u16) | ((b0 as u16) << 8u16))
        by (bit_vector);
    assert(swap16((b1 as u16) | ((b0 as u16) << 8u16)) == (b0 as u16) | ((b1 as u16) << 8u16))
        by (bit_vector);
}

/// Reading four bytes in one order and reversing them reads them in the other.
pub proof fn lemma_swap32_read(s: Seq<u8>, i: int, little: bool)
    requires
        0 <= i,
        i + 4 <= s.len(),
    ensures
        swap32(u32_at(s, i, little)) == u32_at(s, i, !little),
{
    let (b0, b1, b2, b3) = (s[i], s[i + 1], s[i + 2], s[i + 3]);
    assert(swap32(
        (b0 as u32) | ((b1 as u32) << 8u32) | ((b2 as u32) << 16u32) | ((b3 as u32) << 24u32),
    ) == (b3 as u32) | ((b2 as u32) << 8u32) | ((b1 as u32) << 16u32) | ((b0 as u32) << 24u32))
        by (bit_vector);
    assert(swap32(
        (b3 as u32) | ((b2 as u32) << 8u32) | ((b1 as u32) << 16u32) | ((b0 as u32) << 24u32),
    ) == (b0 as u32) | ((b1 as u32) << 8u32) | ((b2 as u32) << 16u32) | ((b3 as u32) << 24u32))
        by (bit_vector);
}

/// The value of eight bytes, least significant first.
pub open spec fn compose64(b0: u8, b1: u8, b2: u8, b3: u8, b4: u8, b5: u8, b6: u8, b7: u8) -> u64 {
    (b0 as u64) | ((b1 as u64) << 8u64) | ((b2 as u64) << 16u64) | ((b3 as u64) << 24u64) | ((
    b4 as u64) << 32u64) | ((b5 as u64) << 40u64) | ((b6 as u64) << 48u64) | ((b7 as u64)
        << 56u64)
}

proof fn lemma_swap64_compose(b0: u8, b1: u8, b2: u8, b3: u8, b4: u8, b5: u8, b6: u8, b7: u8)
    ensures
        swap64(compose64(b0, b1, b2, b3, b4, b5, b6, b7)) == compose64(
            b7,
            b6,
            b5,
            b4,
            b3,
            b2,
            b1,
            b0,
        ),
{
    assert(swap64(compose64(b0, b1, b2, b3, b4, b5, b6, b7)) == compose64(
        b7,
        b6,
        b5,
        b4,
        b3,
        b2,
        b1,
        b0,
    )) by (bit_vector);
}

/// Reading eight bytes in one order and reversing them reads them in the other.
pub proof fn lemma_swap64_read(s: Seq<u8>, i: int, little: bool)
    requires
        0 <= i,
        i + 8 <= s.len(),
    ensures
        swap64(u64_at(s, i, little)) == u64_at(s, i, !little),
{
    let (b0, b1, b2, b3) = (s[i], s[i + 1], s[i + 2], s[i + 3]);
    let (b4, b5, b6, b7) = (s[i + 4], s[i + 5], s[i + 6], s[i + 7]);
    assert(u64_le(s, i) == compose64(b0, b1, b2, b3, b4, b5, b6, b7));
    assert(u64_be(s, i) == compose64(b7, b6, b5, b4, b3, b2, b1, b0));
    lemma_swap64_compose(b0, b1, b2, b3, b4, b5, b6, b7);
    lemma_swap64_compose(b7, b6, b5, b4, b3, b2, b1, b0);
}

/// Reads `data[i..i + 2]` as a 16-bit value, little-endian when `little` holds.
pub fn read_u16(data: &[u8], i: usize, little: bool) -> (r: u16)
    requires
        i + 2 <= data@.len(),
    ensures
        r == u16_at(data@, i as int, little),
{
    let (b0, b1) = (data[i] as u16, data[i + 1] as u16);
    if little {
        b0 | (b1 << 8u16)
    } else {
        b1 | (b0 << 8u16)
    }
}

/// Reads `data[i..i + 4]` as a 32-bit value, little-endian when `little` holds.
pub fn read_u32(data: &[u8], i: usize, little: bool) -> (r: u32)
    requires
        i + 4 <= data@.len(),
    ensures
        r == u32_at(data@, i as int, little),
{
    let (b0, b1, b2, b3) = (data[i] as u32, data[i + 1] as u32, data[i + 2] as u32, data[i + 3] as u32);
    if little {
        b0 | (b1 << 8u32) | (b2 << 16u32) | (b3 << 24u32)
    } else {
        b3 | (b2 << 8u32) | (b1 << 16u32) | (b0 << 24u32)
    }
}

/// Reads `data[i..i + 8]` as a 64-bit value, little-endian when `little` holds.
pub fn read_u64(data: &[u8], i: usize, little: bool) -> (r: u64)
    requires
        i + 8 <= data@.len(),
    ensures
        r == u64_at(data@, i as int, little),
{
    let (b0, b1, b2, b3) = (data[i] as u64, data[i + 1] as u64, data[i + 2] as u64, data[i + 3] as u64);
    let (b4, b5, b6, b7) = (data[i + 4] as u64, data[i + 5] as u64, data[i + 6] as u64, data[i + 7] as u64);
    if little {
        b0 | (b1 << 8u64) | (b2 << 16u64) | (b3 << 24u64) | (b4 << 32u64) | (b5 << 40u64) | (b6
            << 48u64) | (b7 << 56u64)
    } else {
        b7 | (b6 << 8u64) | (b5 << 16u64) | (b4 << 24u64) | (b3 << 32u64) | (b2 << 40u64) | (b1
            << 48u64) | (b0 << 56u64)
    }
}

/// Translates scalar values between the byte order of a file and that of the
/// host: identity when both agree, byte reversal otherwise.
#[derive(Clone, Copy, Debug, PartialEq, Eq, Structural)]
pub struct Converter {
    /// Whether on-disk values must be byte-reversed to be read on the host.
    pub is_needed: bool,
}

impl Converter {
    /// The converter between a file and a host, each little-endian or not.
    pub fn new(file_little: bool, host_little: bool) -> (r: Converter)
        ensures
            r.is_needed == (file_little != host_little),
    {
        Converter { is_needed: file_little != host_little }
    }

    /// Whether values must be byte-reversed.
    pub fn is_needed(&self) -> (r: bool)
        ensures
            r == self.is_needed,
    {
        self.is_needed
    }

    pub open spec fn spec_convert16(self, x: u16) -> u16 {
        if self.is_needed { swap16(x) } else { x }
    }

    pub open spec fn spec_convert32(self, x: u32) -> u32 {
        if self.is_needed { swap32(x) } else { x }
    }

    pub open spec fn spec_convert64(self, x: u64) -> u64 {
        if self.is_needed { swap64(x) } else { x }
    }

    /// Converts a 16-bit value.
    pub fn convert16(&self, x: u16) -> (r: u16)
        ensures
            r == self.spec_convert16(x),
    {
        if self.is_needed {
            ((x & 0xffu16) << 8u16) | (x >> 8u16)
        } else {
            x
        }
    }

    /// Converts a 32-bit value.
    pub fn convert32(&self, x: u32) -> (r: u32)
        ensures
            r == self.spec_convert32(x),
    {
        if self.is_needed {
            ((x & 0xffu32) << 24u32) | (((x >> 8u32) & 0xffu32) << 16u32) | (((x >> 16u32)
                & 0xffu32) << 8u32) | (x >> 24u32)
        } else {
            x
        }
    }

    /// Converts a 64-bit value.
    pub fn convert64(&self, x: u64) -> (r: u64)
        ensures
            r == self.spec_convert64(x),
    {
        if self.is_needed {
            ((x & 0xffu64) << 56u64) | (((x >> 8u64) & 0xffu64) << 48u64) | (((x >> 16u64)
                & 0xffu64) << 40u64) | (((x >> 24u64) & 0xffu64) << 32u64) | (((x >> 32u64)
                & 0xffu64) << 24u64) | (((x >> 40u64) & 0xffu64) << 16u64) | (((x >> 48u64)
                & 0xffu64) << 8u64) | (x >> 56u64)
        } else {
            x
        }
    }

    /// Reads a 16-bit field stored in the file's order: read in host order,
    /// then converted.
    pub fn read16(&self, data: &[u8], i: usize, host_little: bool) -> (r: u16)
        requires
            i + 2 <= data@.len(),
        ensures
            r == u16_at(data@, i as int, host_little != self.is_needed),
    {
        let raw = read_u16(data, i, host_little);
        proof {
            lemma_swap16_read(data@, i as int, host_little);
        }
        self.convert16(raw)
    }

    /// Reads a 32-bit field stored in the file's order: read in host order,
    /// then converted.
    pub fn read32(&self, data: &[u8], i: usize, host_little: bool) -> (r: u32)
        requires
            i + 4 <= data@.len(),
        ensures
            r == u32_at(data@, i as int, host_little != self.is_needed),
    {
        let raw = read_u32(data, i, host_little);
        proof {
            lemma_swap32_read(data@, i as int, host_little);
        }
        self.convert32(raw)
    }

    /// Reads a 64-bit field stored in the file's order: read in host order,
    /// then converted.
    pub fn read64(&self, data: &[u8], i: usize, host_little: bool) -> (r: u64)
        requires
            i + 8 <= data@.len(),
        ensures
            r == u64_at(data@, i as int, host_little != self.is_needed),
    {
        let raw = read_u64(data, i, host_little);
        proof {
            lemma_swap64_read(data@, i as int, host_little);
        }
        self.convert64(raw)
    }
}

/// Converting a value twice gives it back, whether or not swapping is needed.
pub proof fn lemma_convert_involution(c: Converter, a: u16, b: u32, d: u64)
    ensures
        c.spec_convert16(c.spec_convert16(a)) == a,
        c.spec_convert32(c.spec_convert32(b)) == b,
        c.spec_convert64(c.spec_convert64(d)) == d,
{
    lemma_swap16_involution(a);
    lemma_swap32_involution(b);
    lemma_swap64_involution(d);
}

/// Byte `k` of the `size`-byte encoding of `v`, little-endian when `little`
/// holds.
pub open spec fn byte_of(v: u64, size: int, k: int, little: bool) -> u8 {
    let shift = if little {
        8 * k
    } else {
        8 * (size - 1 - k)
    };
    (v >> (shift as u64)) as u8
}

/// Whether `s[i..i + size]` is the `size`-byte encoding of `v`.
pub open spec fn encodes(s: Seq<u8>, i: int, size: int, v: u64, little: bool) -> bool {
    &&& 0 <= i
    &&& i + size <= s.len()
    &&& forall|k: int| 0 <= k < size ==> #[trigger] s[i + k] == byte_of(v, size, k, little)
}

/// Two bytes that encode a 16-bit value read back as that value.
pub proof fn lemma_read16_encoded(s: Seq<u8>, i: int, v: u16, little: bool)
    requires
        encodes(s, i, 2, v as u64, little),
    ensures
        u16_at(s, i, little) == v,
{
    let x = v as u64;
    let (b0, b1) = ((x >> 0u64) as u8, (x >> 8u64) as u8);
    assert(s[i + 0] == byte_of(x, 2, 0, little));
    assert(s[i + 1] == byte_of(x, 2, 1, little));
    assert((b0 as u16) | ((b1 as u16) << 8u16) == v) by (bit_vector)
        requires
            x == v as u64,
            b0 == (x >> 0u64) as u8,
            b1 == (x >> 8u64) as u8,
    ;
}

/// The value of four bytes, least significant first.
pub open spec fn compose32(b0: u8, b1: u8, b2: u8, b3: u8) -> u32 {
    (b0 as u32) | ((b1 as u32) << 8u32) | ((b2 as u32) << 16u32) | ((b3 as u32) << 24u32)
}

proof fn lemma_compose32_bytes(x: u64)
    requires
        x <= 0xffff_ffff,
    ensures
        compose32((x >> 0u64) as u8, (x >> 8u64) as u8, (x >> 16u64) as u8, (x >> 24u64) as u8)
            as u64 == x,
{
    assert(compose32((x >> 0u64) as u8, (x >> 8u64) as u8, (x >> 16u64) as u8, (x >> 24u64) as u8)
        as u64 == x) by (bit_vector)
        requires
            x <= 0xffff_ffff,
    ;
}

/// Four bytes that encode a value below 2^32 read back as that value.
pub proof fn lemma_read32_encoded(s: Seq<u8>, i: int, v: u64, little: bool)
    requires
        v <= 0xffff_ffff,
        encodes(s, i, 4, v, little),
    ensures
        u32_at(s, i, little) as u64 == v,
{
    assert(s[i + 0] == byte_of(v, 4, 0, little));
    assert(s[i + 1] == byte_of(v, 4, 1, little));
    assert(s[i + 2] == byte_of(v, 4, 2, little));
    assert(s[i + 3] == byte_of(v, 4, 3, little));
    lemma_compose32_bytes(v);
}

proof fn lemma_compose64_bytes(x: u64)
    ensures
        compose64(
            (x >> 0u64) as u8,
            (x >> 8u64) as u8,
            (x >> 16u64) as u8,
            (x >> 24u64) as u8,
            (x >> 32u64) as u8,
            (x >> 40u64) as u8,
            (x >> 48u64) as u8,
            (x >> 56u64) as u8,
        ) == x,
{
    assert(compose64(
        (x >> 0u64) as u8,
        (x >> 8u64) as u8,
        (x >> 16u64) as u8,
        (x >> 24u64) as u8,
        (x >> 32u64) as u8,
        (x >> 40u64) as u8,
        (x >> 48u64) as u8,
        (x >> 56u64) as u8,
    ) == x) by (bit_vector);
}

/// Eight bytes that encode a 64-bit value read back as that value.
pub proof fn lemma_read64_encoded(s: Seq<u8>, i: int, v: u64, little: bool)
    requires
        encodes(s, i, 8, v, little),
    ensures
        u64_at(s, i, little) == v,
{
    assert(s[i + 0] == byte_of(v, 8, 0, little));
    assert(s[i + 1] == byte_of(v, 8, 1, little));
    assert(s[i + 2] == byte_of(v, 8, 2, little));
    assert(s[i + 3] == byte_of(v, 8, 3, little));
    assert(s[i + 4] == byte_of(v, 8, 4, little));
    assert(s[i + 5] == byte_of(v, 8, 5, little));
    assert(s[i + 6] == byte_of(v, 8, 6, little));
    assert(s[i + 7] == byte_of(v, 8, 7, little));
    lemma_compose64_bytes(v);
}

/// Relies on `u16::from_ne_bytes`: the bytes `[1, 0]` read in the host's
/// byte order give 1 on a little-endian host and 256 on a big-endian one.
#[verifier::external_body]
pub(crate) fn host_probe() -> (r: u16)
    ensures
        r == 1 || r == 256,
{
    u16::from_ne_bytes([1, 0])
}

} // verus!
