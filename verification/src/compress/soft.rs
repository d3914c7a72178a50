//! Portable implementation of the compression function on 32-bit words.
use vstd::prelude::*;

use crate::consts::{lemma_shifts_in_range, RC, SHIFTS};
use crate::spec::{
    add_mod32, aux_f, aux_g, aux_h, aux_i, compress_block_spec, compress_spec, le_word, md5_steps,
    message_index, message_words, rotl32, step_function, Registers,
};

verus! {

/// `x + y` modulo 2^32.
fn add32(x: u32, y: u32) -> (r: u32)
    ensures
        r == add_mod32(x, y),
{
    x.wrapping_add(y)
}

/// `x` rotated left by `s` bits.
fn rotl(x: u32, s: u32) -> (r: u32)
    requires
        0 < s < 32,
    ensures
        r == rotl32(x, s),
{
    (x << s) | (x >> (32 - s))
}

/// First-round function in the form `D xor (B and (C xor D))`, which needs
/// no complement.
fn mix_f(b: u32, c: u32, d: u32) -> (r: u32)
    ensures
        r == aux_f(b, c, d),
{
    proof {
        assert(d ^ (b & (c ^ d)) == (b & c) | (!b & d)) by (bit_vector);
    }
    d ^ (b & (c ^ d))
}

/// Second-round function as the sum of its two terms, which share no bit,
/// so that each can be added into the register on its own.
fn mix_g(b: u32, c: u32, d: u32) -> (r: u32)
    ensures
        r == aux_g(b, c, d),
{
    proof {
        assert((!d & c) + (d & b) <= u32::MAX) by (bit_vector);
        assert((!d & c) + (d & b) == (b & d) | (c & !d)) by (bit_vector);
    }
    (!d & c) + (d & b)
}

/// Third-round function.
fn mix_h(b: u32, c: u32, d: u32) -> (r: u32)
    ensures
        r == aux_h(b, c, d),
{
    b ^ c ^ d
}

/// Fourth-round function.
fn mix_i(b: u32, c: u32, d: u32) -> (r: u32)
    ensures
        r == aux_i(b, c, d),
{
    c ^ (b | !d)
}

/// The round function and the message word index of step `i`.
fn step_inputs(i: usize, b: u32, c: u32, d: u32) -> (r: (u32, usize))
    requires
        i < 64,
    ensures
        r.0 == step_function(i as int, b, c, d),
        r.1 == message_index(i as int),
        r.1 < 16,
{
    if i < 16 {
        (mix_f(b, c, d), i)
    } else if i < 32 {
        (mix_g(b, c, d), (5 * i + 1) % 16)
    } else if i < 48 {
        (mix_h(b, c, d), (3 * i + 5) % 16)
    } else {
        (mix_i(b, c, d), (7 * i) % 16)
    }
}

/// The 16 little-endian message words of a block.
fn load_words(block: &[u8; 64]) -> (x: [u32; 16])
    ensures
        x@ == message_words(block@),
{
    let mut x = [0u32; 16];
    let mut j: usize = 0;
    while j < 16
        invariant
            j <= 16,
            x@.len() == 16,
            forall|k: int| 0 <= k < j ==> x@[k] == le_word(block@, k),
        decreases 16 - j,
    {
        x[j] = (block[4 * j] as u32) | ((block[4 * j + 1] as u32) << 8) | ((block[4 * j + 2]
            as u32) << 16) | ((block[4 * j + 3] as u32) << 24);
        j += 1;
    }
    assert(x@ =~= message_words(block@));
    x
}

/// Runs the 64 steps on one block and adds the result into the state.
fn compress_block(state: &mut [u32; 4], block: &[u8; 64])
    ensures
        final(state)@ == compress_block_spec(old(state)@, block@),
{
    let x = load_words(block);
    let ghost init: Registers = (state[0], state[1], state[2], state[3]);
    let mut a = state[0];
    let mut b = state[1];
    let mut c = state[2];
    let mut d = state[3];
    let mut i: usize = 0;
    while i < 64
        invariant
            i <= 64,
            x@ == message_words(block@),
            (a, b, c, d) == md5_steps(init, x@, i as nat),
        decreases 64 - i,
    {
        proof {
            lemma_shifts_in_range();
        }
        let (f, k) = step_inputs(i, b, c, d);
        let sum = add32(add32(add32(a, f), RC[i]), x[k]);
        let rotated = add32(b, rotl(sum, SHIFTS[i]));
        a = d;
        d = c;
        c = b;
        b = rotated;
        i += 1;
    }
    state[0] = add32(state[0], a);
    state[1] = add32(state[1], b);
    state[2] = add32(state[2], c);
    state[3] = add32(state[3], d);
    assert(state@ =~= compress_block_spec(old(state)@, block@));
}

/// Compresses the blocks into the state, one after another.
pub(super) fn compress(state: &mut [u32; 4], blocks: &[[u8; 64]])
    ensures
        final(state)@ == compress_spec(old(state)@, blocks@),
{
    let mut j: usize = 0;
    while j < blocks.len()
        invariant
            j <= blocks@.len(),
            state@ == compress_spec(old(state)@, blocks@.take(j as int)),
        decreases blocks@.len() - j,
    {
        compress_block(state, &blocks[j]);
        assert(blocks@.take(j + 1).drop_last() =~= blocks@.take(j as int));
        j += 1;
    }
    assert(blocks@.take(j as int) =~= blocks@);
}

} // verus!
