//! One-shot hashing entry points over byte buffers.

use vstd::prelude::*;
use crate::state::{digest_spec, HashState, HavalError};
use crate::tables::{valid_passes, valid_width};

verus! {

/// Hash `data` in one call: absorb everything, then finalize. Succeeds
/// exactly on the valid configurations and then returns the digest of
/// `data`, `output_width / 8` bytes long.
pub fn hash(data: &[u8], passes: u32, output_width: u32) -> (r: Result<Vec<u8>, HavalError>)
    ensures
        (valid_passes(passes) && valid_width(output_width)) <==> r is Ok,
        r is Ok ==> (r->Ok_0)@ == digest_spec(data@, passes, output_width) && (r->Ok_0)@.len()
            == output_width / 8,
        !(valid_passes(passes) && valid_width(output_width)) ==> r == Err::<Vec<u8>, HavalError>(
            HavalError::ConfigurationError,
        ),
{
    let mut st = match HashState::new(passes, output_width) {
        Ok(s) => s,
        Err(e) => {
            return Err(e);
        },
    };
    let _ = st.update(data);
    match st.finalize() {
        Ok(d) => Ok(d),
        Err(e) => Err(e),
    }
}

/// A HAVAL-128 checksum of a byte string: three passes, 16 digest bytes.
pub fn haval_bytes(data: &[u8]) -> (r: [u8; 16])
    ensures
        r@ == digest_spec(data@, 3, 128),
{
    let d = match hash(data, 3, 128) {
        Ok(v) => v,
        // A 3-pass, 128-bit configuration is valid, so `hash` cannot fail;
        // the arm is unreachable and any value satisfies the contract.
        Err(_) => {
            return [0; 16];
        },
    };
    let r: [u8; 16] = [
        d[0], d[1], d[2], d[3], d[4], d[5], d[6], d[7], d[8], d[9], d[10], d[11], d[12], d[13],
        d[14], d[15],
    ];
    assert(r@ =~= d@);
    r
}

} // verus!
