//! Digest tailoring: folds the final 8-word accumulator down to the
//! configured output width, with the fixed per-width word-combination
//! formulas of the published algorithm. A 256-bit digest uses all eight
//! words unchanged; the narrower widths fold the surplus words into the
//! remaining ones.

use vstd::prelude::*;
use crate::round::{rotr, srotr};
use crate::tables::valid_width;

verus! {

/// The folded words for a 128-bit digest: the top four accumulator words are
/// split into bytes and redistributed over the bottom four.
pub open spec fn fold128(a: Seq<u32>) -> Seq<u32> {
    seq![
        a[0].wrapping_add(
            srotr((a[7] & 0x000000FF) | (a[6] & 0xFF000000) | (a[5] & 0x00FF0000) | (a[4]
                & 0x0000FF00), 8),
        ),
        a[1].wrapping_add(
            srotr((a[7] & 0x0000FF00) | (a[6] & 0x000000FF) | (a[5] & 0xFF000000) | (a[4]
                & 0x00FF0000), 16),
        ),
        a[2].wrapping_add(
            srotr((a[7] & 0x00FF0000) | (a[6] & 0x0000FF00) | (a[5] & 0x000000FF) | (a[4]
                & 0xFF000000), 24),
        ),
        a[3].wrapping_add(
            (a[7] & 0xFF000000) | (a[6] & 0x00FF0000) | (a[5] & 0x0000FF00) | (a[4] & 0x000000FF),
        ),
    ]
}

/// The folded words for a 160-bit digest.
pub open spec fn fold160(a: Seq<u32>) -> Seq<u32> {
    seq![
        a[0].wrapping_add(
            srotr((a[7] & 0x3F) | (a[6] & (0x7Fu32 << 25)) | (a[5] & (0x3Fu32 << 19)), 19),
        ),
        a[1].wrapping_add(
            srotr((a[7] & (0x3Fu32 << 6)) | (a[6] & 0x3F) | (a[5] & (0x7Fu32 << 25)), 25),
        ),
        a[2].wrapping_add((a[7] & (0x7Fu32 << 12)) | (a[6] & (0x3Fu32 << 6)) | (a[5] & 0x3F)),
        a[3].wrapping_add(
            ((a[7] & (0x3Fu32 << 19)) | (a[6] & (0x7Fu32 << 12)) | (a[5] & (0x3Fu32 << 6))) >> 6,
        ),
        a[4].wrapping_add(
            ((a[7] & (0x7Fu32 << 25)) | (a[6] & (0x3Fu32 << 19)) | (a[5] & (0x7Fu32 << 12))) >> 12,
        ),
    ]
}

/// The folded words for a 192-bit digest.
pub open spec fn fold192(a: Seq<u32>) -> Seq<u32> {
    seq![
        a[0].wrapping_add(srotr((a[7] & 0x1F) | (a[6] & (0x3Fu32 << 26)), 26)),
        a[1].wrapping_add((a[7] & (0x1Fu32 << 5)) | (a[6] & 0x1F)),
        a[2].wrapping_add(((a[7] & (0x3Fu32 << 10)) | (a[6] & (0x1Fu32 << 5))) >> 5),
        a[3].wrapping_add(((a[7] & (0x1Fu32 << 16)) | (a[6] & (0x3Fu32 << 10))) >> 10),
        a[4].wrapping_add(((a[7] & (0x1Fu32 << 21)) | (a[6] & (0x1Fu32 << 16))) >> 16),
        a[5].wrapping_add(((a[7] & (0x3Fu32 << 26)) | (a[6] & (0x1Fu32 << 21))) >> 21),
    ]
}

/// The folded words for a 224-bit digest: the eighth word is split over the
/// first seven.
pub open spec fn fold224(a: Seq<u32>) -> Seq<u32> {
    seq![
        a[0].wrapping_add((a[7] >> 27) & 0x1F),
        a[1].wrapping_add((a[7] >> 22) & 0x1F),
        a[2].wrapping_add((a[7] >> 18) & 0x0F),
        a[3].wrapping_add((a[7] >> 13) & 0x1F),
        a[4].wrapping_add((a[7] >> 9) & 0x0F),
        a[5].wrapping_add((a[7] >> 4) & 0x1F),
        a[6].wrapping_add(a[7] & 0x0F),
    ]
}

/// The words of the final digest: `width / 32` of them.
pub open spec fn tailored_words(a: Seq<u32>, width: u32) -> Seq<u32> {
    if width == 128 {
        fold128(a)
    } else if width == 160 {
        fold160(a)
    } else if width == 192 {
        fold192(a)
    } else if width == 224 {
        fold224(a)
    } else {
        a
    }
}

/// The tailored digest of a valid width has `width / 32` words.
pub proof fn lemma_tailored_len(a: Seq<u32>, width: u32)
    requires
        a.len() == 8,
        valid_width(width),
    ensures
        tailored_words(a, width).len() == width / 32,
{
}

/// Fold the accumulator down to the digest words for `width`.
pub fn tailor(acc: &[u32; 8], width: u32) -> (r: Vec<u32>)
    requires
        valid_width(width),
    ensures
        r@ == tailored_words(acc@, width),
{
    let mut r: Vec<u32> = Vec::new();
    if width == 128 {
        r.push(acc[0].wrapping_add(
            rotr((acc[7] & 0x000000FF) | (acc[6] & 0xFF000000) | (acc[5] & 0x00FF0000) | (acc[4]
                & 0x0000FF00), 8),
        ));
        r.push(acc[1].wrapping_add(
            rotr((acc[7] & 0x0000FF00) | (acc[6] & 0x000000FF) | (acc[5] & 0xFF000000) | (acc[4]
                & 0x00FF0000), 16),
        ));
        r.push(acc[2].wrapping_add(
            rotr((acc[7] & 0x00FF0000) | (acc[6] & 0x0000FF00) | (acc[5] & 0x000000FF) | (acc[4]
                & 0xFF000000), 24),
        ));
        r.push(acc[3].wrapping_add(
            (acc[7] & 0xFF000000) | (acc[6] & 0x00FF0000) | (acc[5] & 0x0000FF00) | (acc[4]
                & 0x000000FF),
        ));
        assert(r@ =~= fold128(acc@));
    } else if width == 160 {
        r.push(acc[0].wrapping_add(
            rotr((acc[7] & 0x3F) | (acc[6] & (0x7Fu32 << 25)) | (acc[5] & (0x3Fu32 << 19)), 19),
        ));
        r.push(acc[1].wrapping_add(
            rotr((acc[7] & (0x3Fu32 << 6)) | (acc[6] & 0x3F) | (acc[5] & (0x7Fu32 << 25)), 25),
        ));
        r.push(acc[2].wrapping_add(
            (acc[7] & (0x7Fu32 << 12)) | (acc[6] & (0x3Fu32 << 6)) | (acc[5] & 0x3F),
        ));
        r.push(acc[3].wrapping_add(
            ((acc[7] & (0x3Fu32 << 19)) | (acc[6] & (0x7Fu32 << 12)) | (acc[5] & (0x3Fu32 << 6)))
                >> 6,
        ));
        r.push(acc[4].wrapping_add(
            ((acc[7] & (0x7Fu32 << 25)) | (acc[6] & (0x3Fu32 << 19)) | (acc[5] & (0x7Fu32 << 12)))
                >> 12,
        ));
        assert(r@ =~= fold160(acc@));
    } else if width == 192 {
        r.push(acc[0].wrapping_add(rotr((acc[7] & 0x1F) | (acc[6] & (0x3Fu32 << 26)), 26)));
        r.push(acc[1].wrapping_add((acc[7] & (0x1Fu32 << 5)) | (acc[6] & 0x1F)));
        r.push(acc[2].wrapping_add(((acc[7] & (0x3Fu32 << 10)) | (acc[6] & (0x1Fu32 << 5))) >> 5));
        r.push(acc[3].wrapping_add(
            ((acc[7] & (0x1Fu32 << 16)) | (acc[6] & (0x3Fu32 << 10))) >> 10,
        ));
        r.push(acc[4].wrapping_add(
            ((acc[7] & (0x1Fu32 << 21)) | (acc[6] & (0x1Fu32 << 16))) >> 16,
        ));
        r.push(acc[5].wrapping_add(
            ((acc[7] & (0x3Fu32 << 26)) | (acc[6] & (0x1Fu32 << 21))) >> 21,
        ));
        assert(r@ =~= fold192(acc@));
    } else if width == 224 {
        r.push(acc[0].wrapping_add((acc[7] >> 27) & 0x1F));
        r.push(acc[1].wrapping_add((acc[7] >> 22) & 0x1F));
        r.push(acc[2].wrapping_add((acc[7] >> 18) & 0x0F));
        r.push(acc[3].wrapping_add((acc[7] >> 13) & 0x1F));
        r.push(acc[4].wrapping_add((acc[7] >> 9) & 0x0F));
        r.push(acc[5].wrapping_add((acc[7] >> 4) & 0x1F));
        r.push(acc[6].wrapping_add(acc[7] & 0x0F));
        assert(r@ =~= fold224(acc@));
    } else {
        let mut k: usize = 0;
        while k < 8
            invariant
                k <= 8,
                r@ == acc@.take(k as int),
            decreases 8 - k,
        {
            r.push(acc[k]);
            proof {
                assert(r@ =~= acc@.take(k + 1));
            }
            k = k + 1;
        }
        assert(r@ =~= acc@);
    }
    r
}

} // verus!
