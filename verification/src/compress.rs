//! The MD5 compression function.
use vstd::prelude::*;

use crate::spec::compress_spec;

mod soft;

verus! {

/// MD5 compression function: feeds each 64-byte block, in order, into the
/// chaining state.
pub fn compress(state: &mut [u32; 4], blocks: &[[u8; 64]])
    ensures
        final(state)@ == compress_spec(old(state)@, blocks@),
{
    soft::compress(state, blocks)
}

} // verus!
