//! The HAVAL compression core: advances the 8-word accumulator by one
//! 128-byte block, running 32 steps per configured pass.

use vstd::prelude::*;
use crate::round::{sstep, step};
use crate::tables::{constant_seq, constant_table, schedule_seq, schedule_table, valid_passes};
use vstd::arithmetic::div_mod::{lemma_fundamental_div_mod_converse, lemma_mod_multiples_vanish};

verus! {

/// The working state after applying step `i` (0-based, counted across all
/// passes) to `t`. Step `i` belongs to pass `i / 32`, consumes the scheduled
/// message word of block position `i % 32`, and rewrites word `7 - (i % 8)`.
pub open spec fn step_state(t: Seq<u32>, block: Seq<u32>, total: u32, i: int) -> Seq<u32> {
    let pass = i / 32;
    let s = i % 32;
    let j = 7 - (i % 8);
    let w = block[schedule_seq(pass)[s] as int];
    let c = constant_seq(pass)[s];
    t.update(
        j,
        sstep(
            total,
            pass,
            t[j],
            t[(j + 7) % 8],
            t[(j + 6) % 8],
            t[(j + 5) % 8],
            t[(j + 4) % 8],
            t[(j + 3) % 8],
            t[(j + 2) % 8],
            t[(j + 1) % 8],
            w,
            c,
        ),
    )
}

/// The working state after the first `n` steps on `t`.
pub open spec fn rounds(t: Seq<u32>, block: Seq<u32>, total: u32, n: int) -> Seq<u32>
    decreases n,
{
    if n <= 0 {
        t
    } else {
        step_state(rounds(t, block, total, n - 1), block, total, n - 1)
    }
}

/// The accumulator after one compression: each of its eight words is summed,
/// with 32-bit wrapping addition, with the working state left by
/// `32 * total` steps.
pub open spec fn compress_spec(acc: Seq<u32>, block: Seq<u32>, total: u32) -> Seq<u32> {
    let t = rounds(acc, block, total, 32 * total);
    Seq::new(8, |m: int| acc[m].wrapping_add(t[m]))
}

/// Advance the accumulator by one scheduled 32-word block.
pub fn compress(acc: &mut [u32; 8], block: &[u32; 32], total: u32)
    requires
        valid_passes(total),
    ensures
        final(acc)@ == compress_spec(old(acc)@, block@, total),
{
    let ghost acc0 = acc@;
    let mut t: [u32; 8] = *acc;
    let mut pass: u32 = 0;
    while pass < total
        invariant
            valid_passes(total),
            pass <= total,
            acc@ == acc0,
            t@ == rounds(acc0, block@, total, 32 * pass),
        decreases total - pass,
    {
        let ordt: [u8; 32] = schedule_table(pass);
        let kt: [u32; 32] = constant_table(pass);
        let mut s: usize = 0;
        while s < 32
            invariant
                valid_passes(total),
                pass < total,
                s <= 32,
                ordt@ == schedule_seq(pass as int),
                forall|j: int| 0 <= j < 32 ==> (#[trigger] ordt@[j]) < 32,
                kt@ == constant_seq(pass as int),
                acc@ == acc0,
                t@ == rounds(acc0, block@, total, 32 * pass + s),
            decreases 32 - s,
        {
            let ghost i = 32 * (pass as int) + s;
            let ghost t_before = t@;
            let j: usize = 7 - (s % 8);
            let widx = ordt[s] as usize;
            let w = block[widx];
            let c = kt[s];
            let x7 = t[j];
            let x6 = t[(j + 7) % 8];
            let x5 = t[(j + 6) % 8];
            let x4 = t[(j + 5) % 8];
            let x3 = t[(j + 4) % 8];
            let x2 = t[(j + 3) % 8];
            let x1 = t[(j + 2) % 8];
            let x0 = t[(j + 1) % 8];
            let v = step(total, pass, x7, x6, x5, x4, x3, x2, x1, x0, w, c);
            t[j] = v;
            proof {
                lemma_fundamental_div_mod_converse(i, 32, pass as int, s as int);
                lemma_mod_multiples_vanish(4 * (pass as int), s as int, 8);
                assert(8 * (4 * (pass as int)) + s == i);
                assert(i % 8 == s % 8);
                assert(t@ =~= step_state(t_before, block@, total, i));
            }
            s = s + 1;
        }
        pass = pass + 1;
    }
    let mut k: usize = 0;
    while k < 8
        invariant
            k <= 8,
            t@ == rounds(acc0, block@, total, 32 * total),
            forall|m: int| 0 <= m < k ==> acc@[m] == acc0[m].wrapping_add(t@[m]),
            forall|m: int| k <= m < 8 ==> acc@[m] == acc0[m],
        decreases 8 - k,
    {
        let cur = acc[k];
        acc[k] = cur.wrapping_add(t[k]);
        k = k + 1;
    }
    assert(acc@ =~= compress_spec(acc0, block@, total));
}

} // verus!
