//! The HAVAL streaming state machine: a bit counter, the 8-word accumulator
//! and a carry buffer of at most 127 bytes. Input is absorbed incrementally;
//! the compression core runs once per full 128-byte block; finalization pads
//! the stream, folds the accumulator to the configured width and yields the
//! digest.

use vstd::prelude::*;
use crate::compress::{compress, compress_spec};
use crate::tables::{iv_array, iv_words, valid_passes, valid_width};
use crate::tailor::{lemma_tailored_len, tailor, tailored_words};
use crate::words::{
    bytes_of_words, lemma_bytes_of_words_len, pack_block, append_word_bytes, words_of_bytes,
};
use vstd::arithmetic::div_mod::{
    lemma_add_mod_noop, lemma_fundamental_div_mod, lemma_fundamental_div_mod_converse,
};

verus! {

/// The error taxonomy of the hash engine.
///
/// `ConfigurationError` rejects an invalid `(passes, output_width)` pair at
/// construction. `StateMisuseError` rejects absorbing into or finalizing an
/// already finalized state. `PackingError` marks a word/byte length mismatch
/// inside the engine; the verified engine never produces it. `IoError`
/// stands for a failed file read, mapped in by callers that do file access.
#[derive(Clone, Copy, Debug, PartialEq, Eq, Structural)]
pub enum HavalError {
    ConfigurationError,
    StateMisuseError,
    PackingError,
    IoError,
}

/// The total bit count kept by a state: eight bits per absorbed byte,
/// wrapping modulo 2^64.
pub open spec fn wrapped_bit_count(len: nat) -> u64 {
    ((8 * len) % 0x1_0000_0000_0000_0000) as u64
}

/// The number of marker/zero padding bytes appended before the 10-byte
/// trailer: enough to leave the padded stream 10 bytes short of a block
/// boundary, and at least one for the 0x01 marker.
pub open spec fn pad_marker_len(len: nat) -> nat {
    if len % 128 < 118 {
        (118 - len % 128) as nat
    } else {
        (246 - len % 128) as nat
    }
}

/// `n` padding bytes: a single 0x01 marker followed by zeros.
pub open spec fn pad_markers(n: nat) -> Seq<u8> {
    Seq::new(n, |i: int| if i == 0 { 1u8 } else { 0u8 })
}

/// The trailer byte recording the pass count and the format version (1) —
/// the two high bits, which would carry the low two bits of the width, are
/// zero for every valid width.
pub open spec fn tag_byte(passes: u32) -> u8 {
    (8 * passes + 1) as u8
}

/// The trailer byte recording the digest width in units of four bits.
pub open spec fn width_byte(width: u32) -> u8 {
    (width / 4) as u8
}

/// The eight little-endian bytes of the wrapped bit count.
pub open spec fn count_bytes(nbits: u64) -> Seq<u8> {
    seq![
        (nbits & 0xFF) as u8,
        ((nbits >> 8) & 0xFF) as u8,
        ((nbits >> 16) & 0xFF) as u8,
        ((nbits >> 24) & 0xFF) as u8,
        ((nbits >> 32) & 0xFF) as u8,
        ((nbits >> 40) & 0xFF) as u8,
        ((nbits >> 48) & 0xFF) as u8,
        ((nbits >> 56) & 0xFF) as u8,
    ]
}

/// The whole padded stream: the message, the marker/zero padding, and the
/// 10-byte trailer (tag, width, 64-bit original bit count). Its length is a
/// multiple of 128.
pub open spec fn padded_message(b: Seq<u8>, passes: u32, width: u32) -> Seq<u8> {
    b + pad_markers(pad_marker_len(b.len())) + seq![tag_byte(passes), width_byte(width)]
        + count_bytes(wrapped_bit_count(b.len()))
}

/// The accumulator after compressing every full 128-byte block of `prefix`
/// in order, starting from the fixed initial vector. Meaningful when
/// `prefix.len()` is a multiple of 128.
pub open spec fn acc_of(prefix: Seq<u8>, total: u32) -> Seq<u32>
    decreases prefix.len(),
{
    if prefix.len() < 128 {
        iv_words()
    } else {
        compress_spec(
            acc_of(prefix.take(prefix.len() - 128), total),
            words_of_bytes(prefix.skip(prefix.len() - 128)),
            total,
        )
    }
}

/// The accumulator always holds eight words.
pub proof fn lemma_acc_of_len(prefix: Seq<u8>, total: u32)
    ensures
        acc_of(prefix, total).len() == 8,
    decreases prefix.len(),
{
    if prefix.len() >= 128 {
        lemma_acc_of_len(prefix.take(prefix.len() - 128), total);
    }
}

/// The digest of message `b` under a `passes`-pass, `width`-bit
/// configuration: pad, compress block by block, fold to `width` bits, and
/// write the words out little-endian.
pub open spec fn digest_spec(b: Seq<u8>, passes: u32, width: u32) -> Seq<u8> {
    bytes_of_words(tailored_words(acc_of(padded_message(b, passes, width), passes), width))
}

/// Determinism: the digest is a function of the message and the
/// configuration alone, so any two digests of the same message under the
/// same configuration are equal.
pub proof fn lemma_digest_deterministic(
    d1: Seq<u8>,
    d2: Seq<u8>,
    b: Seq<u8>,
    passes: u32,
    width: u32,
)
    requires
        d1 == digest_spec(b, passes, width),
        d2 == digest_spec(b, passes, width),
    ensures
        d1 == d2,
{
}

/// Chunking invariance: absorbing `b.take(cut)` and then `b.skip(cut)`
/// leaves the same absorbed stream as absorbing `b` in one call — so, with
/// `update` appending to the absorbed stream and `finalize` digesting it,
/// any split of the input yields the digest of the whole.
pub proof fn lemma_chunking_invariance(b: Seq<u8>, cut: int, passes: u32, width: u32)
    requires
        0 <= cut <= b.len(),
    ensures
        b.take(cut) + b.skip(cut) == b,
        digest_spec(b.take(cut) + b.skip(cut), passes, width) == digest_spec(b, passes, width),
{
    assert(b.take(cut) + b.skip(cut) =~= b);
}

/// The absorbed stream left by a run of successive `update` calls, one per
/// chunk, on a state whose absorbed stream starts as `a`: each call appends
/// its chunk, as `update` ensures.
pub open spec fn absorbed_after(a: Seq<u8>, chunks: Seq<Seq<u8>>) -> Seq<u8>
    decreases chunks.len(),
{
    if chunks.len() == 0 {
        a
    } else {
        absorbed_after(a + chunks.first(), chunks.drop_first())
    }
}

/// Chunking invariance over any number of chunks: absorbing a partition of
/// `b` chunk by chunk leaves exactly `b` as the absorbed stream, so the
/// digest that `finalize` then yields is the digest of `b`.
pub proof fn lemma_chunked_absorption(chunks: Seq<Seq<u8>>, passes: u32, width: u32)
    ensures
        absorbed_after(Seq::empty(), chunks) == chunks.flatten(),
        digest_spec(absorbed_after(Seq::empty(), chunks), passes, width) == digest_spec(
            chunks.flatten(),
            passes,
            width,
        ),
{
    lemma_absorbed_after_is_flatten(Seq::empty(), chunks);
    assert(Seq::empty() + chunks.flatten() =~= chunks.flatten());
}

/// Successive appends of the chunks amount to appending their
/// concatenation.
proof fn lemma_absorbed_after_is_flatten(a: Seq<u8>, chunks: Seq<Seq<u8>>)
    ensures
        absorbed_after(a, chunks) == a + chunks.flatten(),
    decreases chunks.len(),
{
    if chunks.len() == 0 {
        assert(a + chunks.flatten() =~= a);
    } else {
        lemma_absorbed_after_is_flatten(a + chunks.first(), chunks.drop_first());
        assert((a + chunks.first()) + chunks.drop_first().flatten() =~= a + chunks.flatten());
    }
}

/// Length contract: a digest of a valid width is exactly `width / 8` bytes.
pub proof fn lemma_digest_len(b: Seq<u8>, passes: u32, width: u32)
    requires
        valid_passes(passes),
        valid_width(width),
    ensures
        digest_spec(b, passes, width).len() == width / 8,
{
    lemma_acc_of_len(padded_message(b, passes, width), passes);
    lemma_tailored_len(acc_of(padded_message(b, passes, width), passes), width);
    lemma_bytes_of_words_len(tailored_words(acc_of(padded_message(b, passes, width), passes), width));
}

/// A streaming HAVAL computation.
pub struct HashState {
    /// Bits absorbed so far, wrapping modulo 2^64.
    pub bit_count: u64,
    /// The running 8-word compression state.
    pub acc: [u32; 8],
    /// Input bytes not yet forming a full 128-byte block.
    pub carry: Vec<u8>,
    /// The configured pass count, 3 to 5.
    pub passes: u32,
    /// The configured digest width in bits.
    pub output_width: u32,
    /// Whether the state has been finalized; a finalized state rejects any
    /// further operation.
    pub finalized: bool,
    /// The whole absorbed message, kept for specification only.
    pub absorbed: Ghost<Seq<u8>>,
}

impl HashState {
    /// Well-formedness: a valid configuration and, while the state is
    /// active, a carry buffer holding exactly the absorbed stream's tail
    /// past the last block boundary, an accumulator that has compressed
    /// everything before it, and a faithful bit count.
    pub open spec fn wf(self) -> bool {
        &&& valid_passes(self.passes)
        &&& valid_width(self.output_width)
        &&& (!self.finalized ==> {
            &&& self.carry@.len() == self.absorbed@.len() % 128
            &&& self.carry@ == self.absorbed@.skip(self.absorbed@.len() - self.carry@.len())
            &&& self.acc@ == acc_of(
                self.absorbed@.take(self.absorbed@.len() - self.carry@.len()),
                self.passes,
            )
            &&& self.bit_count == wrapped_bit_count(self.absorbed@.len())
        })
    }

    /// Construct a state for the given configuration; any pair outside the
    /// published sets is rejected before anything is absorbed.
    pub fn new(passes: u32, output_width: u32) -> (r: Result<HashState, HavalError>)
        ensures
            (valid_passes(passes) && valid_width(output_width)) <==> r is Ok,
            r is Ok ==> (r->Ok_0).wf() && !(r->Ok_0).finalized && (r->Ok_0).passes == passes && (
            r->Ok_0).output_width == output_width && (r->Ok_0).absorbed@ == Seq::<u8>::empty(),
            !(valid_passes(passes) && valid_width(output_width)) ==> r == Err::<
                HashState,
                HavalError,
            >(HavalError::ConfigurationError),
    {
        if !(passes == 3 || passes == 4 || passes == 5) {
            return Err(HavalError::ConfigurationError);
        }
        if !(output_width == 128 || output_width == 160 || output_width == 192 || output_width
            == 224 || output_width == 256) {
            return Err(HavalError::ConfigurationError);
        }
        let st = HashState {
            bit_count: 0,
            acc: iv_array(),
            carry: Vec::new(),
            passes,
            output_width,
            finalized: false,
            absorbed: Ghost(Seq::empty()),
        };
        proof {
            assert(st.absorbed@.take(0) =~= Seq::<u8>::empty());
            assert(st.carry@ =~= st.absorbed@.skip(0));
        }
        Ok(st)
    }

    /// Absorb `data` into an active state: count its bits, append it to the
    /// carry buffer and compress every full block.
    fn absorb(&mut self, data: &[u8])
        requires
            old(self).wf(),
            !old(self).finalized,
        ensures
            final(self).wf(),
            !final(self).finalized,
            final(self).passes == old(self).passes,
            final(self).output_width == old(self).output_width,
            final(self).absorbed@ == old(self).absorbed@ + data@,
    {
        let ghost old_abs = self.absorbed@;
        let ghost base = old_abs.take(old_abs.len() - self.carry@.len());
        proof {
            lemma_fundamental_div_mod(old_abs.len() as int, 128);
            lemma_fundamental_div_mod_converse(
                base.len() as int,
                128,
                old_abs.len() as int / 128,
                0,
            );
            assert(base.len() % 128 == 0);
        }
        self.absorbed = Ghost(old_abs + data@);

        // Bit counter, wrapping into the high half exactly as a 64-bit
        // modular count does.
        let dbits = (data.len() as u64).wrapping_mul(8);
        self.bit_count = self.bit_count.wrapping_add(dbits);
        proof {
            lemma_add_mod_noop(
                8 * (old_abs.len() as int),
                8 * (data@.len() as int),
                0x1_0000_0000_0000_0000,
            );
            assert(self.bit_count == wrapped_bit_count(self.absorbed@.len()));
        }

        push_all(&mut self.carry, data);
        proof {
            assert(self.absorbed@ =~= base + self.carry@);
        }

        // Compress every full block of the carry buffer, front to back.
        let mut done: usize = 0;
        while self.carry.len() - done >= 128
            invariant
                valid_passes(self.passes),
                valid_width(self.output_width),
                !self.finalized,
                done <= self.carry@.len(),
                done % 128 == 0,
                base.len() % 128 == 0,
                self.absorbed@ == base + self.carry@,
                self.absorbed@ == old_abs + data@,
                self.acc@ == acc_of(base + self.carry@.take(done as int), self.passes),
                self.bit_count == wrapped_bit_count(self.absorbed@.len()),
                self.passes == old(self).passes,
                self.output_width == old(self).output_width,
            decreases self.carry@.len() - done,
        {
            let block = pack_block(self.carry.as_slice(), done);
            let p = self.passes;
            let ghost acc_in = self.acc@;
            compress(&mut self.acc, &block, p);
            proof {
                let prefix = base + self.carry@.take(done + 128);
                assert(prefix.take(prefix.len() - 128) =~= base + self.carry@.take(done as int));
                assert(prefix.skip(prefix.len() - 128) =~= self.carry@.subrange(
                    done as int,
                    done + 128,
                ));
                assert(self.acc@ == acc_of(prefix, self.passes));
                lemma_fundamental_div_mod(done as int, 128);
                lemma_fundamental_div_mod_converse(
                    done + 128,
                    128,
                    (done as int / 128) + 1,
                    0,
                );
            }
            done = done + 128;
        }

        // Keep only the remainder, now shorter than a block.
        let rest = tail_of(&self.carry, done);
        let ghost carry_whole = self.carry@;
        self.carry = rest;
        proof {
            let total_len = self.absorbed@.len();
            lemma_fundamental_div_mod(base.len() as int, 128);
            lemma_fundamental_div_mod(done as int, 128);
            lemma_fundamental_div_mod_converse(
                total_len as int,
                128,
                (base.len() as int / 128) + (done as int / 128),
                carry_whole.len() - done,
            );
            assert(self.carry@.len() == total_len % 128);
            assert(self.carry@ =~= self.absorbed@.skip(total_len - self.carry@.len()));
            assert(self.absorbed@.take(total_len - self.carry@.len()) =~= base
                + carry_whole.take(done as int));
        }
    }

    /// Absorb more input. A finalized state is rejected with
    /// `StateMisuseError` and left unchanged; otherwise the call succeeds
    /// and appends `data` to the absorbed stream.
    pub fn update(&mut self, data: &[u8]) -> (r: Result<(), HavalError>)
        requires
            old(self).wf(),
        ensures
            final(self).wf(),
            old(self).finalized ==> r == Err::<(), HavalError>(HavalError::StateMisuseError)
                && *final(self) == *old(self),
            !old(self).finalized ==> r == Ok::<(), HavalError>(()) && !final(self).finalized
                && final(self).absorbed@ == old(self).absorbed@ + data@ && final(self).passes
                == old(self).passes && final(self).output_width == old(self).output_width,
    {
        if self.finalized {
            return Err(HavalError::StateMisuseError);
        }
        self.absorb(data);
        Ok(())
    }

    /// Finalize the computation: pad the stream, compress the closing block
    /// or blocks, and fold the accumulator into a digest of
    /// `output_width / 8` bytes. The state becomes finalized; a second
    /// finalize is rejected with `StateMisuseError`.
    pub fn finalize(&mut self) -> (r: Result<Vec<u8>, HavalError>)
        requires
            old(self).wf(),
        ensures
            final(self).wf(),
            old(self).finalized ==> r == Err::<Vec<u8>, HavalError>(HavalError::StateMisuseError)
                && *final(self) == *old(self),
            !old(self).finalized ==> {
                &&& r is Ok
                &&& final(self).finalized
                &&& (r->Ok_0)@ == digest_spec(
                    old(self).absorbed@,
                    old(self).passes,
                    old(self).output_width,
                )
                &&& (r->Ok_0)@.len() == old(self).output_width / 8
            },
    {
        if self.finalized {
            return Err(HavalError::StateMisuseError);
        }
        let ghost msg = self.absorbed@;
        let ghost p_cfg = self.passes;
        let ghost w_cfg = self.output_width;
        let count = self.bit_count;

        // Marker and zero padding, up to 10 bytes short of a block boundary.
        let rmd = self.carry.len();
        let pad_len = if rmd < 118 {
            118 - rmd
        } else {
            246 - rmd
        };
        let mut pad: Vec<u8> = Vec::new();
        pad.push(0x01);
        proof {
            assert(pad@ =~= pad_markers(1));
        }
        let mut i: usize = 1;
        while i < pad_len
            invariant
                1 <= i <= pad_len,
                pad@ == pad_markers(i as nat),
            decreases pad_len - i,
        {
            pad.push(0x00);
            proof {
                assert(pad@ =~= pad_markers((i + 1) as nat));
            }
            i = i + 1;
        }

        // The 10-byte trailer: tag, width, original bit count.
        let tag = (8 * self.passes + 1) as u8;
        let wb = (self.output_width / 4) as u8;
        let mut trailer: Vec<u8> = Vec::new();
        trailer.push(tag);
        trailer.push(wb);
        trailer.push((count & 0xFF) as u8);
        trailer.push(((count >> 8) & 0xFF) as u8);
        trailer.push(((count >> 16) & 0xFF) as u8);
        trailer.push(((count >> 24) & 0xFF) as u8);
        trailer.push(((count >> 32) & 0xFF) as u8);
        trailer.push(((count >> 40) & 0xFF) as u8);
        trailer.push(((count >> 48) & 0xFF) as u8);
        trailer.push(((count >> 56) & 0xFF) as u8);
        proof {
            assert(trailer@ =~= seq![tag_byte(p_cfg), width_byte(w_cfg)] + count_bytes(
                wrapped_bit_count(msg.len()),
            ));
        }

        self.absorb(pad.as_slice());
        self.absorb(trailer.as_slice());
        proof {
            assert(self.absorbed@ =~= padded_message(msg, p_cfg, w_cfg));
            // The padded stream ends on a block boundary, so the carry
            // buffer is now empty and the accumulator covers the whole
            // stream.
            let plen = self.absorbed@.len();
            lemma_fundamental_div_mod(msg.len() as int, 128);
            if msg.len() % 128 < 118 {
                lemma_fundamental_div_mod_converse(
                    plen as int,
                    128,
                    (msg.len() as int / 128) + 1,
                    0,
                );
            } else {
                lemma_fundamental_div_mod_converse(
                    plen as int,
                    128,
                    (msg.len() as int / 128) + 2,
                    0,
                );
            }
            assert(plen % 128 == 0);
            assert(self.absorbed@.take(plen as int) =~= self.absorbed@);
        }

        let tw = tailor(&self.acc, self.output_width);
        let mut out: Vec<u8> = Vec::new();
        let n = tw.len();
        append_word_bytes(&mut out, tw.as_slice(), n);
        self.finalized = true;
        proof {
            assert(tw@.take(n as int) =~= tw@);
            lemma_digest_len(msg, p_cfg, w_cfg);
        }
        Ok(out)
    }
}

/// Append every byte of `src` to `dst`.
fn push_all(dst: &mut Vec<u8>, src: &[u8])
    ensures
        final(dst)@ == old(dst)@ + src@,
{
    let ghost base = dst@;
    let mut i: usize = 0;
    while i < src.len()
        invariant
            i <= src@.len(),
            dst@ == base + src@.take(i as int),
        decreases src@.len() - i,
    {
        dst.push(src[i]);
        proof {
            assert(base + src@.take(i + 1) =~= (base + src@.take(i as int)).push(src@[i as int]));
        }
        i = i + 1;
    }
    proof {
        assert(src@.take(src@.len() as int) =~= src@);
    }
}

/// The suffix of `v` from position `from` as a fresh vector.
fn tail_of(v: &Vec<u8>, from: usize) -> (r: Vec<u8>)
    requires
        from <= v@.len(),
    ensures
        r@ == v@.skip(from as int),
{
    let mut r: Vec<u8> = Vec::new();
    let mut i = from;
    while i < v.len()
        invariant
            from <= i <= v@.len(),
            r@ == v@.subrange(from as int, i as int),
        decreases v@.len() - i,
    {
        let b = v[i];
        r.push(b);
        proof {
            assert(r@ =~= v@.subrange(from as int, i + 1));
        }
        i = i + 1;
    }
    proof {
        assert(r@ =~= v@.skip(from as int));
    }
    r
}

} // verus!
