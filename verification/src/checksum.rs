//! The two checksums of the image container and big-endian numbers.

use vstd::prelude::*;

verus! {

/// The four bytes of a number, most significant first.
pub open spec fn be32(n: u32) -> Seq<u8> {
    seq![
        (n / 0x100_0000) as u8,
        (n / 0x1_0000 % 0x100) as u8,
        (n / 0x100 % 0x100) as u8,
        (n % 0x100) as u8,
    ]
}

/// The number that four bytes spell, most significant first.
pub open spec fn from_be32(bytes: Seq<u8>) -> int
    recommends
        bytes.len() == 4,
{
    bytes[0] * 0x100_0000 + bytes[1] * 0x1_0000 + bytes[2] * 0x100 + bytes[3]
}

/// Reading back the four bytes of a number gives the number.
pub proof fn lemma_be32_round_trip(n: u32)
    ensures
        be32(n).len() == 4,
        from_be32(be32(n)) == n,
{
}

/// Appends the four bytes of `n`, most significant first.
pub fn push_be32(out: &mut Vec<u8>, n: u32)
    ensures
        final(out)@ == old(out)@ + be32(n),
{
    out.push((n / 0x100_0000) as u8);
    out.push((n / 0x1_0000 % 0x100) as u8);
    out.push((n / 0x100 % 0x100) as u8);
    out.push((n % 0x100) as u8);
    assert(out@ =~= old(out)@ + be32(n));
}

/// Appends the bytes of `src` from index `from` up to, not including, `to`.
pub fn push_range(out: &mut Vec<u8>, src: &[u8], from: usize, to: usize)
    requires
        from <= to <= src.len(),
    ensures
        final(out)@ == old(out)@ + src@.subrange(from as int, to as int),
{
    let mut i: usize = from;
    while i < to
        invariant
            from <= i <= to <= src.len(),
            out@ == old(out)@ + src@.subrange(from as int, i as int),
        decreases to - i,
    {
        out.push(src[i]);
        i += 1;
        assert(out@ =~= old(out)@ + src@.subrange(from as int, i as int));
    }
}

/// One step of the cyclic redundancy check: the register moves one bit to
/// the right, and the reflected polynomial is added when a one fell out.
pub open spec fn crc_shift(c: u32) -> u32 {
    if c & 1 == 1 {
        (c >> 1) ^ 0xEDB8_8320
    } else {
        c >> 1
    }
}

/// `n` steps of the check.
pub open spec fn crc_shifts(c: u32, n: nat) -> u32
    decreases n,
{
    if n == 0 {
        c
    } else {
        crc_shifts(crc_shift(c), (n - 1) as nat)
    }
}

/// The register after one more byte.
pub open spec fn crc_byte(c: u32, b: u8) -> u32 {
    crc_shifts(c ^ (b as u32), 8)
}

/// The register after a run of bytes.
pub open spec fn crc_fold(c: u32, bytes: Seq<u8>) -> u32
    decreases bytes.len(),
{
    if bytes.len() == 0 {
        c
    } else {
        crc_byte(crc_fold(c, bytes.drop_last()), bytes.last())
    }
}

/// The 32-bit cyclic redundancy check of the image container: the register
/// starts with all bits set, and the result is its complement.
pub open spec fn crc32(bytes: Seq<u8>) -> u32 {
    crc_fold(0xFFFF_FFFF, bytes) ^ 0xFFFF_FFFF
}

/// Feeding two runs one after the other is feeding their concatenation.
pub proof fn lemma_crc_fold_concat(c: u32, a: Seq<u8>, b: Seq<u8>)
    ensures
        crc_fold(c, a + b) == crc_fold(crc_fold(c, a), b),
    decreases b.len(),
{
    if b.len() == 0 {
        assert(a + b =~= a);
    } else {
        assert((a + b).drop_last() =~= a + b.drop_last());
        assert((a + b).last() == b.last());
        lemma_crc_fold_concat(c, a, b.drop_last());
    }
}

/// Feeds one byte to the register.
pub fn crc_feed(c: u32, b: u8) -> (next: u32)
    ensures
        next == crc_byte(c, b),
{
    let mut x: u32 = c ^ (b as u32);
    let mut k: u8 = 0;
    while k < 8
        invariant
            k <= 8,
            crc_shifts(x, (8 - k) as nat) == crc_byte(c, b),
        decreases 8 - k,
    {
        x = if x & 1 == 1 {
            (x >> 1) ^ 0xEDB8_8320
        } else {
            x >> 1
        };
        k += 1;
    }
    x
}

/// Feeds the bytes of `src` from index `from` on to the register.
pub fn crc_feed_from(c: u32, src: &Vec<u8>, from: usize) -> (next: u32)
    requires
        from <= src.len(),
    ensures
        next == crc_fold(c, src@.subrange(from as int, src.len() as int)),
{
    let mut x: u32 = c;
    let mut i: usize = from;
    while i < src.len()
        invariant
            from <= i <= src.len(),
            x == crc_fold(c, src@.subrange(from as int, i as int)),
        decreases src.len() - i,
    {
        proof {
            let next = src@.subrange(from as int, i + 1);
            assert(next.drop_last() =~= src@.subrange(from as int, i as int));
            assert(next.last() == src@[i as int]);
        }
        x = crc_feed(x, src[i]);
        i += 1;
    }
    x
}

/// Computes the cyclic redundancy check of a run of bytes.
pub fn crc32_of(bytes: &Vec<u8>) -> (sum: u32)
    ensures
        sum == crc32(bytes@),
{
    assert(bytes@.subrange(0, bytes.len() as int) =~= bytes@);
    crc_feed_from(0xFFFF_FFFF, bytes, 0) ^ 0xFFFF_FFFF
}

/// Modulus of the Adler checksum, the largest prime below 65536.
pub const ADLER_MODULUS: u32 = 65521;

/// Low half of the Adler checksum: one plus the sum of the bytes.
pub open spec fn adler_low(data: Seq<u8>) -> int
    decreases data.len(),
{
    if data.len() == 0 {
        1
    } else {
        (adler_low(data.drop_last()) + data.last()) % 65521
    }
}

/// High half of the Adler checksum: the sum of the low halves of all
/// prefixes that are not empty.
pub open spec fn adler_high(data: Seq<u8>) -> int
    decreases data.len(),
{
    if data.len() == 0 {
        0
    } else {
        (adler_high(data.drop_last()) + adler_low(data)) % 65521
    }
}

/// Both halves lie below the modulus.
pub proof fn lemma_adler_bounds(data: Seq<u8>)
    ensures
        0 <= adler_low(data) < 65521,
        0 <= adler_high(data) < 65521,
    decreases data.len(),
{
    if data.len() > 0 {
        lemma_adler_bounds(data.drop_last());
    }
}

/// The Adler checksum that closes a compressed stream.
pub open spec fn adler32(data: Seq<u8>) -> u32 {
    (adler_high(data) * 0x1_0000 + adler_low(data)) as u32
}

/// Computes the Adler checksum of a run of bytes.
pub fn adler32_of(data: &Vec<u8>) -> (sum: u32)
    ensures
        sum == adler32(data@),
{
    let mut low: u32 = 1;
    let mut high: u32 = 0;
    let mut i: usize = 0;
    while i < data.len()
        invariant
            i <= data.len(),
            low == adler_low(data@.take(i as int)),
            high == adler_high(data@.take(i as int)),
            low < 65521,
            high < 65521,
        decreases data.len() - i,
    {
        proof {
            let next = data@.take(i + 1);
            assert(next.drop_last() =~= data@.take(i as int));
            assert(next.last() == data@[i as int]);
        }
        low = (low + data[i] as u32) % ADLER_MODULUS;
        high = (high + low) % ADLER_MODULUS;
        i += 1;
    }
    assert(data@.take(data.len() as int) =~= data@);
    high * 0x1_0000 + low
}

} // verus!
