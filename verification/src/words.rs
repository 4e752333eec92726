//! Packing between byte buffers and 32-bit words.
//!
//! HAVAL reads its message blocks as 32-bit words assembled little-endian:
//! the first byte of a group of four is the least significant byte of the
//! word. Digests are written back out the same way.

use vstd::prelude::*;

verus! {

/// The 32-bit word formed by bytes `4k .. 4k + 4` of `b`, first byte least
/// significant.
pub open spec fn word_at(b: Seq<u8>, k: int) -> u32 {
    (b[4 * k] as u32) | ((b[4 * k + 1] as u32) << 8) | ((b[4 * k + 2] as u32) << 16) | ((b[4 * k
        + 3] as u32) << 24)
}

/// The word sequence packed from `b`; `b.len()` must be a multiple of 4.
pub open spec fn words_of_bytes(b: Seq<u8>) -> Seq<u32> {
    Seq::new((b.len() / 4) as nat, |k: int| word_at(b, k))
}

/// The four bytes of `w`, least significant first.
pub open spec fn word_bytes(w: u32) -> Seq<u8> {
    seq![
        (w & 0xFF) as u8,
        ((w >> 8) & 0xFF) as u8,
        ((w >> 16) & 0xFF) as u8,
        ((w >> 24) & 0xFF) as u8,
    ]
}

/// The byte sequence written from `ws`, each word little-endian.
pub open spec fn bytes_of_words(ws: Seq<u32>) -> Seq<u8>
    decreases ws.len(),
{
    if ws.len() == 0 {
        Seq::empty()
    } else {
        bytes_of_words(ws.drop_last()) + word_bytes(ws.last())
    }
}

/// The byte form of a word sequence is four times as long.
pub proof fn lemma_bytes_of_words_len(ws: Seq<u32>)
    ensures
        bytes_of_words(ws).len() == 4 * ws.len(),
    decreases ws.len(),
{
    if ws.len() > 0 {
        lemma_bytes_of_words_len(ws.drop_last());
    }
}

/// Pack 128 bytes into the 32 words of one HAVAL block.
pub fn pack_block(b: &[u8], off: usize) -> (r: [u32; 32])
    requires
        off + 128 <= b@.len(),
    ensures
        r@ == words_of_bytes(b@.subrange(off as int, off as int + 128)),
{
    let mut r: [u32; 32] = [0; 32];
    let blen: usize = b.len();
    let ghost chunk = b@.subrange(off as int, off as int + 128);
    let mut k: usize = 0;
    while k < 32
        invariant
            off + 128 <= b@.len(),
            blen == b@.len(),
            k <= 32,
            chunk == b@.subrange(off as int, off as int + 128),
            forall|j: int| 0 <= j < k ==> r@[j] == word_at(chunk, j),
        decreases 32 - k,
    {
        let w = (b[off + 4 * k] as u32) | ((b[off + 4 * k + 1] as u32) << 8) | ((b[off + 4 * k
            + 2] as u32) << 16) | ((b[off + 4 * k + 3] as u32) << 24);
        assert(chunk[4 * k as int] == b@[off + 4 * k]);
        assert(chunk[4 * k as int + 1] == b@[off + 4 * k + 1]);
        assert(chunk[4 * k as int + 2] == b@[off + 4 * k + 2]);
        assert(chunk[4 * k as int + 3] == b@[off + 4 * k + 3]);
        r[k] = w;
        k = k + 1;
    }
    assert(r@ =~= words_of_bytes(chunk));
    r
}

/// Append the four little-endian bytes of each word of `ws` to `out`.
pub fn append_word_bytes(out: &mut Vec<u8>, ws: &[u32], n: usize)
    requires
        n <= ws@.len(),
    ensures
        final(out)@ == old(out)@ + bytes_of_words(ws@.take(n as int)),
{
    let ghost base = out@;
    let mut k: usize = 0;
    while k < n
        invariant
            n <= ws@.len(),
            k <= n,
            out@ == base + bytes_of_words(ws@.take(k as int)),
        decreases n - k,
    {
        let w = ws[k];
        out.push((w & 0xFF) as u8);
        out.push(((w >> 8) & 0xFF) as u8);
        out.push(((w >> 16) & 0xFF) as u8);
        out.push(((w >> 24) & 0xFF) as u8);
        proof {
            assert(ws@.take(k + 1).drop_last() =~= ws@.take(k as int));
            assert(ws@.take(k + 1).last() == ws@[k as int]);
            assert(out@ =~= base + bytes_of_words(ws@.take(k + 1)));
        }
        k = k + 1;
    }
}

} // verus!
