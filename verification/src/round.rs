//! The HAVAL round function library: five nonlinear Boolean functions over
//! seven 32-bit words, the per-pass input permutations, and the step function
//! that mixes one message word into the working state.
//!
//! The permutation applied before a Boolean function depends both on the pass
//! being executed and on the total number of passes configured, exactly as
//! the published algorithm tabulates them.

use vstd::prelude::*;

verus! {

/// First Boolean mixing function.
pub open spec fn sf1(x6: u32, x5: u32, x4: u32, x3: u32, x2: u32, x1: u32, x0: u32) -> u32 {
    (x1 & (x0 ^ x4)) ^ (x2 & x5) ^ (x3 & x6) ^ x0
}

/// Second Boolean mixing function.
pub open spec fn sf2(x6: u32, x5: u32, x4: u32, x3: u32, x2: u32, x1: u32, x0: u32) -> u32 {
    (x2 & ((x1 & !x3) ^ (x4 & x5) ^ x6 ^ x0)) ^ (x4 & (x1 ^ x5)) ^ (x3 & x5) ^ x0
}

/// Third Boolean mixing function.
pub open spec fn sf3(x6: u32, x5: u32, x4: u32, x3: u32, x2: u32, x1: u32, x0: u32) -> u32 {
    (x3 & ((x1 & x2) ^ x6 ^ x0)) ^ (x1 & x4) ^ (x2 & x5) ^ x0
}

/// Fourth Boolean mixing function.
pub open spec fn sf4(x6: u32, x5: u32, x4: u32, x3: u32, x2: u32, x1: u32, x0: u32) -> u32 {
    (x4 & ((x5 & !x2) ^ (x3 & !x6) ^ x1 ^ x6 ^ x0)) ^ (x3 & ((x1 & x2) ^ x5 ^ x6)) ^ (x2 & x6)
        ^ x0
}

/// Fifth Boolean mixing function.
pub open spec fn sf5(x6: u32, x5: u32, x4: u32, x3: u32, x2: u32, x1: u32, x0: u32) -> u32 {
    (x0 & ((x1 & x2 & x3) ^ !x5)) ^ (x1 & x4) ^ (x2 & x5) ^ (x3 & x6)
}

/// The Boolean function of pass `pass` (0-based) with the input permutation
/// the published tables give for a `total`-pass configuration.
pub open spec fn sphi(
    total: u32,
    pass: int,
    x6: u32,
    x5: u32,
    x4: u32,
    x3: u32,
    x2: u32,
    x1: u32,
    x0: u32,
) -> u32 {
    if total == 3 {
        if pass == 0 {
            sf1(x1, x0, x3, x5, x6, x2, x4)
        } else if pass == 1 {
            sf2(x4, x2, x1, x0, x5, x3, x6)
        } else {
            sf3(x6, x1, x2, x3, x4, x5, x0)
        }
    } else if total == 4 {
        if pass == 0 {
            sf1(x2, x6, x1, x4, x5, x3, x0)
        } else if pass == 1 {
            sf2(x3, x5, x2, x0, x1, x6, x4)
        } else if pass == 2 {
            sf3(x1, x4, x3, x6, x0, x2, x5)
        } else {
            sf4(x6, x4, x0, x5, x2, x1, x3)
        }
    } else {
        if pass == 0 {
            sf1(x3, x4, x1, x0, x5, x2, x6)
        } else if pass == 1 {
            sf2(x6, x2, x1, x0, x3, x4, x5)
        } else if pass == 2 {
            sf3(x2, x6, x0, x4, x3, x1, x5)
        } else if pass == 3 {
            sf4(x1, x5, x3, x2, x0, x4, x6)
        } else {
            sf5(x2, x5, x0, x6, x4, x3, x1)
        }
    }
}

/// Rotate a 32-bit word right by `n` bits, `0 < n < 32`.
pub open spec fn srotr(x: u32, n: u32) -> u32 {
    (x >> n) | (x << ((32 - n) as u32))
}

/// One step: mix the rotated permuted Boolean result, the rotated carry word
/// `x7`, the scheduled message word `w` and the round constant `c`, with
/// 32-bit wrapping addition.
pub open spec fn sstep(
    total: u32,
    pass: int,
    x7: u32,
    x6: u32,
    x5: u32,
    x4: u32,
    x3: u32,
    x2: u32,
    x1: u32,
    x0: u32,
    w: u32,
    c: u32,
) -> u32 {
    srotr(sphi(total, pass, x6, x5, x4, x3, x2, x1, x0), 7).wrapping_add(
        srotr(x7, 11),
    ).wrapping_add(w).wrapping_add(c)
}

/// Rotate a 32-bit word right by `n` bits.
pub fn rotr(x: u32, n: u32) -> (r: u32)
    requires
        0 < n < 32,
    ensures
        r == srotr(x, n),
{
    (x >> n) | (x << (32 - n))
}

fn f1(x6: u32, x5: u32, x4: u32, x3: u32, x2: u32, x1: u32, x0: u32) -> (r: u32)
    ensures
        r == sf1(x6, x5, x4, x3, x2, x1, x0),
{
    (x1 & (x0 ^ x4)) ^ (x2 & x5) ^ (x3 & x6) ^ x0
}

fn f2(x6: u32, x5: u32, x4: u32, x3: u32, x2: u32, x1: u32, x0: u32) -> (r: u32)
    ensures
        r == sf2(x6, x5, x4, x3, x2, x1, x0),
{
    (x2 & ((x1 & !x3) ^ (x4 & x5) ^ x6 ^ x0)) ^ (x4 & (x1 ^ x5)) ^ (x3 & x5) ^ x0
}

fn f3(x6: u32, x5: u32, x4: u32, x3: u32, x2: u32, x1: u32, x0: u32) -> (r: u32)
    ensures
        r == sf3(x6, x5, x4, x3, x2, x1, x0),
{
    (x3 & ((x1 & x2) ^ x6 ^ x0)) ^ (x1 & x4) ^ (x2 & x5) ^ x0
}

fn f4(x6: u32, x5: u32, x4: u32, x3: u32, x2: u32, x1: u32, x0: u32) -> (r: u32)
    ensures
        r == sf4(x6, x5, x4, x3, x2, x1, x0),
{
    (x4 & ((x5 & !x2) ^ (x3 & !x6) ^ x1 ^ x6 ^ x0)) ^ (x3 & ((x1 & x2) ^ x5 ^ x6)) ^ (x2 & x6)
        ^ x0
}

fn f5(x6: u32, x5: u32, x4: u32, x3: u32, x2: u32, x1: u32, x0: u32) -> (r: u32)
    ensures
        r == sf5(x6, x5, x4, x3, x2, x1, x0),
{
    (x0 & ((x1 & x2 & x3) ^ !x5)) ^ (x1 & x4) ^ (x2 & x5) ^ (x3 & x6)
}

/// The permuted Boolean function for pass `pass` out of `total`.
pub fn phi(total: u32, pass: u32, x6: u32, x5: u32, x4: u32, x3: u32, x2: u32, x1: u32, x0: u32) -> (r:
    u32)
    requires
        crate::tables::valid_passes(total),
        pass < total,
    ensures
        r == sphi(total, pass as int, x6, x5, x4, x3, x2, x1, x0),
{
    match (total, pass) {
        (3, 0) => f1(x1, x0, x3, x5, x6, x2, x4),
        (3, 1) => f2(x4, x2, x1, x0, x5, x3, x6),
        (3, _) => f3(x6, x1, x2, x3, x4, x5, x0),
        (4, 0) => f1(x2, x6, x1, x4, x5, x3, x0),
        (4, 1) => f2(x3, x5, x2, x0, x1, x6, x4),
        (4, 2) => f3(x1, x4, x3, x6, x0, x2, x5),
        (4, _) => f4(x6, x4, x0, x5, x2, x1, x3),
        (_, 0) => f1(x3, x4, x1, x0, x5, x2, x6),
        (_, 1) => f2(x6, x2, x1, x0, x3, x4, x5),
        (_, 2) => f3(x2, x6, x0, x4, x3, x1, x5),
        (_, 3) => f4(x1, x5, x3, x2, x0, x4, x6),
        (_, _) => f5(x2, x5, x0, x6, x4, x3, x1),
    }
}

/// One mixing step of the compression core.
pub fn step(
    total: u32,
    pass: u32,
    x7: u32,
    x6: u32,
    x5: u32,
    x4: u32,
    x3: u32,
    x2: u32,
    x1: u32,
    x0: u32,
    w: u32,
    c: u32,
) -> (r: u32)
    requires
        crate::tables::valid_passes(total),
        pass < total,
    ensures
        r == sstep(total, pass as int, x7, x6, x5, x4, x3, x2, x1, x0, w, c),
{
    let m = phi(total, pass, x6, x5, x4, x3, x2, x1, x0);
    rotr(m, 7).wrapping_add(rotr(x7, 11)).wrapping_add(w).wrapping_add(c)
}

} // verus!
