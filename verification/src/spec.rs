//! The mathematical model of MD5's compression function, written after
//! RFC 1321, section 3.4, and the laws that follow from it.
use vstd::prelude::*;

use crate::consts::{RC, SHIFTS};

verus! {

/// Sum of two words modulo 2^32.
pub open spec fn add_mod32(x: u32, y: u32) -> u32 {
    ((x + y) % 0x1_0000_0000) as u32
}

/// `x` rotated left by `s` bit positions (`0 < s < 32`).
pub open spec fn rotl32(x: u32, s: u32) -> u32
    recommends
        0 < s < 32,
{
    (x << s) | (x >> (32 - s) as u32)
}

/// Auxiliary function of the first round: `F(X, Y, Z) = XY v not(X) Z`.
pub open spec fn aux_f(x: u32, y: u32, z: u32) -> u32 {
    (x & y) | (!x & z)
}

/// Auxiliary function of the second round: `G(X, Y, Z) = XZ v Y not(Z)`.
pub open spec fn aux_g(x: u32, y: u32, z: u32) -> u32 {
    (x & z) | (y & !z)
}

/// Auxiliary function of the third round: `H(X, Y, Z) = X xor Y xor Z`.
pub open spec fn aux_h(x: u32, y: u32, z: u32) -> u32 {
    x ^ y ^ z
}

/// Auxiliary function of the fourth round: `I(X, Y, Z) = Y xor (X v not(Z))`.
pub open spec fn aux_i(x: u32, y: u32, z: u32) -> u32 {
    y ^ (x | !z)
}

/// The auxiliary function used at step `i` (0 to 63): one per round of 16 steps.
pub open spec fn step_function(i: int, b: u32, c: u32, d: u32) -> u32 {
    if i < 16 {
        aux_f(b, c, d)
    } else if i < 32 {
        aux_g(b, c, d)
    } else if i < 48 {
        aux_h(b, c, d)
    } else {
        aux_i(b, c, d)
    }
}

/// Which of the 16 message words step `i` adds.
pub open spec fn message_index(i: int) -> int {
    if i < 16 {
        i
    } else if i < 32 {
        (5 * i + 1) % 16
    } else if i < 48 {
        (3 * i + 5) % 16
    } else {
        (7 * i) % 16
    }
}

/// The little-endian word made of bytes `4j` to `4j + 3` of `block`.
pub open spec fn le_word(block: Seq<u8>, j: int) -> u32 {
    (block[4 * j] as u32) | ((block[4 * j + 1] as u32) << 8) | ((block[4 * j + 2] as u32) << 16)
        | ((block[4 * j + 3] as u32) << 24)
}

/// A 64-byte block read as 16 little-endian words.
pub open spec fn message_words(block: Seq<u8>) -> Seq<u32> {
    Seq::new(16, |j: int| le_word(block, j))
}

/// The four working registers `(A, B, C, D)`.
pub type Registers = (u32, u32, u32, u32);

/// Step `i` on the registers `(a, b, c, d)` with message words `x`:
/// `a = b + ((a + g(b, c, d) + x[k] + T[i]) <<< s)`, after which the registers
/// rotate so that the new value of `a` becomes `B`.
pub open spec fn md5_step(regs: Registers, x: Seq<u32>, i: int) -> Registers {
    let (a, b, c, d) = regs;
    let sum = add_mod32(
        add_mod32(add_mod32(a, step_function(i, b, c, d)), RC@[i]),
        x[message_index(i)],
    );
    (d, add_mod32(b, rotl32(sum, SHIFTS@[i])), b, c)
}

/// The registers after the first `n` steps, starting from `init`.
pub open spec fn md5_steps(init: Registers, x: Seq<u32>, n: nat) -> Registers
    decreases n,
{
    if n == 0 {
        init
    } else {
        md5_step(md5_steps(init, x, (n - 1) as nat), x, n - 1)
    }
}

/// The chaining state after one 64-byte block: the four state words, each
/// added to the register of the same name after the 64 steps.
pub open spec fn compress_block_spec(state: Seq<u32>, block: Seq<u8>) -> Seq<u32> {
    let init: Registers = (state[0], state[1], state[2], state[3]);
    let (a, b, c, d) = md5_steps(init, message_words(block), 64);
    seq![
        add_mod32(state[0], a),
        add_mod32(state[1], b),
        add_mod32(state[2], c),
        add_mod32(state[3], d),
    ]
}

/// The chaining state after the blocks, in order, starting from `state`.
pub open spec fn compress_spec(state: Seq<u32>, blocks: Seq<[u8; 64]>) -> Seq<u32>
    decreases blocks.len(),
{
    if blocks.len() == 0 {
        state
    } else {
        compress_block_spec(compress_spec(state, blocks.drop_last()), blocks.last()@)
    }
}

/// Compressing no block leaves the state as it is.
pub proof fn law_compress_empty(state: Seq<u32>)
    ensures
        compress_spec(state, Seq::<[u8; 64]>::empty()) == state,
{
}

/// Compressing a single block is one application of the block function.
pub proof fn law_compress_single(state: Seq<u32>, block: [u8; 64])
    ensures
        compress_spec(state, seq![block]) == compress_block_spec(state, block@),
{
    assert(seq![block].drop_last() =~= Seq::<[u8; 64]>::empty());
    assert(compress_spec(state, seq![block].drop_last()) == state);
}

/// Compressing two runs of blocks one after the other is compressing their
/// concatenation: the state is a running digest, fed block by block.
pub proof fn law_compress_concat(state: Seq<u32>, first: Seq<[u8; 64]>, second: Seq<[u8; 64]>)
    ensures
        compress_spec(state, first + second) == compress_spec(compress_spec(state, first), second),
    decreases second.len(),
{
    if second.len() == 0 {
        assert(first + second =~= first);
    } else {
        assert((first + second).drop_last() =~= first + second.drop_last());
        assert((first + second).last() == second.last());
        law_compress_concat(state, first, second.drop_last());
    }
}

} // verus!
