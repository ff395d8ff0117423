//! Cryptographic hashes.

use vstd::prelude::*;

verus! {

/// The integer whose little-endian encoding is the eight bytes of `bytes`
/// that begin at index `start`.
pub open spec fn le_u64(bytes: Seq<u8>, start: int) -> int {
    bytes[start] + 0x100 * bytes[start + 1] + 0x1_0000 * bytes[start + 2] + 0x100_0000 * bytes[
        start + 3] + 0x1_0000_0000 * bytes[start + 4] + 0x100_0000_0000 * bytes[start + 5]
        + 0x1_0000_0000_0000 * bytes[start + 6] + 0x100_0000_0000_0000 * bytes[start + 7]
}

/// If `low + 256 * high == low2 + 256 * high2` for two bytes `low`, `low2`,
/// the bytes are equal and so are the rests.
proof fn lemma_split_low_byte(low: int, high: int, low2: int, high2: int)
    requires
        0 <= low < 0x100,
        0 <= low2 < 0x100,
        low + 0x100 * high == low2 + 0x100 * high2,
    ensures
        low == low2,
        high == high2,
{
    assert(high == high2) by (nonlinear_arith)
        requires
            0 <= low < 0x100,
            0 <= low2 < 0x100,
            low + 0x100 * high == low2 + 0x100 * high2,
    {
        if high < high2 {
            assert(0x100 * high2 >= 0x100 * high + 0x100);
        } else if high > high2 {
            assert(0x100 * high >= 0x100 * high2 + 0x100);
        }
    }
}

/// A little-endian word is below `2^64`.
pub proof fn lemma_le_u64_bound(bytes: Seq<u8>, start: int)
    requires
        0 <= start,
        start + 8 <= bytes.len(),
    ensures
        0 <= le_u64(bytes, start) < 0x1_0000_0000_0000_0000,
{
}

/// Two little-endian words are equal only where their eight bytes are.
pub proof fn lemma_le_u64_injective(a: Seq<u8>, start_a: int, b: Seq<u8>, start_b: int)
    requires
        0 <= start_a,
        start_a + 8 <= a.len(),
        0 <= start_b,
        start_b + 8 <= b.len(),
        le_u64(a, start_a) == le_u64(b, start_b),
    ensures
        a.subrange(start_a, start_a + 8) == b.subrange(start_b, start_b + 8),
{
    let a0 = a[start_a] as int;
    let a1 = a[start_a + 1] as int;
    let a2 = a[start_a + 2] as int;
    let a3 = a[start_a + 3] as int;
    let a4 = a[start_a + 4] as int;
    let a5 = a[start_a + 5] as int;
    let a6 = a[start_a + 6] as int;
    let a7 = a[start_a + 7] as int;
    let b0 = b[start_b] as int;
    let b1 = b[start_b + 1] as int;
    let b2 = b[start_b + 2] as int;
    let b3 = b[start_b + 3] as int;
    let b4 = b[start_b + 4] as int;
    let b5 = b[start_b + 5] as int;
    let b6 = b[start_b + 6] as int;
    let b7 = b[start_b + 7] as int;
    let ra6 = a6 + 0x100 * a7;
    let ra5 = a5 + 0x100 * ra6;
    let ra4 = a4 + 0x100 * ra5;
    let ra3 = a3 + 0x100 * ra4;
    let ra2 = a2 + 0x100 * ra3;
    let ra1 = a1 + 0x100 * ra2;
    let rb6 = b6 + 0x100 * b7;
    let rb5 = b5 + 0x100 * rb6;
    let rb4 = b4 + 0x100 * rb5;
    let rb3 = b3 + 0x100 * rb4;
    let rb2 = b2 + 0x100 * rb3;
    let rb1 = b1 + 0x100 * rb2;
    assert(le_u64(a, start_a) == a0 + 0x100 * ra1);
    assert(le_u64(b, start_b) == b0 + 0x100 * rb1);
    lemma_split_low_byte(a0, ra1, b0, rb1);
    lemma_split_low_byte(a1, ra2, b1, rb2);
    lemma_split_low_byte(a2, ra3, b2, rb3);
    lemma_split_low_byte(a3, ra4, b3, rb4);
    lemma_split_low_byte(a4, ra5, b4, rb5);
    lemma_split_low_byte(a5, ra6, b5, rb6);
    lemma_split_low_byte(a6, a7, b6, b7);
    assert(a.subrange(start_a, start_a + 8) =~= b.subrange(start_b, start_b + 8));
}

/// A 32-byte cryptographic hash.
#[derive(Clone, Copy, Debug, PartialEq, Eq)]
pub struct CryptoHash(pub [u8; 32]);

impl CryptoHash {
    /// The `i`-th of the four 64-bit words of the hash: the little-endian
    /// integer of its bytes `8 * i .. 8 * i + 8`.
    pub open spec fn word(self, i: int) -> u64 {
        le_u64(self.0@, 8 * i) as u64
    }
}

/// Reads the eight bytes of `bytes` that begin at `start` as a little-endian integer.
fn u64_from_le_bytes_at(bytes: &[u8; 32], start: usize) -> (r: u64)
    requires
        start + 8 <= 32,
    ensures
        r == le_u64(bytes@, start as int),
{
    (bytes[start] as u64) + 0x100 * (bytes[start + 1] as u64) + 0x1_0000 * (bytes[start + 2] as u64)
        + 0x100_0000 * (bytes[start + 3] as u64) + 0x1_0000_0000 * (bytes[start + 4] as u64)
        + 0x100_0000_0000 * (bytes[start + 5] as u64) + 0x1_0000_0000_0000 * (bytes[start
        + 6] as u64) + 0x100_0000_0000_0000 * (bytes[start + 7] as u64)
}

impl From<CryptoHash> for [u64; 4] {
    /// Splits the hash into four 64-bit words, each read little-endian from
    /// eight consecutive bytes.
    fn from(crypto_hash: CryptoHash) -> (integers: [u64; 4]) {
        let bytes = crypto_hash.0;
        [
            u64_from_le_bytes_at(&bytes, 0),
            u64_from_le_bytes_at(&bytes, 8),
            u64_from_le_bytes_at(&bytes, 16),
            u64_from_le_bytes_at(&bytes, 24),
        ]
    }
}

impl vstd::std_specs::convert::FromSpecImpl<CryptoHash> for [u64; 4] {
    open spec fn obeys_from_spec() -> bool {
        true
    }

    open spec fn from_spec(crypto_hash: CryptoHash) -> [u64; 4] {
        [crypto_hash.word(0), crypto_hash.word(1), crypto_hash.word(2), crypto_hash.word(3)]
    }
}

} // verus!
