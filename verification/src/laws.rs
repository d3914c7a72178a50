//! Laws of the MD5 model, each stated over inputs and results of one layer
//! of the compression function, in terms independent of how that layer is
//! written.
use vstd::prelude::*;

use crate::consts::{lemma_shifts_in_range, RC, SHIFTS};
use crate::spec::{
    add_mod32, aux_f, aux_g, aux_h, aux_i, compress_block_spec, md5_step, md5_steps,
    message_index, message_words, rotl32, step_function, Registers,
};

verus! {

/// Bit `n` of `v`, as 0 or 1.
pub open spec fn bit(v: u32, n: u32) -> u32 {
    (v >> n) & 1
}

/// Message word `j` of a block is its bytes `4j .. 4j + 3` read little-endian:
/// `b0 + 2^8 b1 + 2^16 b2 + 2^24 b3`, whatever the bytes are.
pub proof fn law_message_word_little_endian(block: Seq<u8>, j: int)
    requires
        block.len() == 64,
        0 <= j < 16,
    ensures
        message_words(block).len() == 16,
        message_words(block)[j] == block[4 * j] + 0x100 * block[4 * j + 1] + 0x1_0000 * block[4
            * j + 2] + 0x100_0000 * block[4 * j + 3],
{
    let b0 = block[4 * j] as u32;
    let b1 = block[4 * j + 1] as u32;
    let b2 = block[4 * j + 2] as u32;
    let b3 = block[4 * j + 3] as u32;
    assert(b0 | (b1 << 8) | (b2 << 16) | (b3 << 24) == b0 + 0x100 * b1 + 0x1_0000 * b2
        + 0x100_0000 * b3) by (bit_vector)
        requires
            b0 < 0x100,
            b1 < 0x100,
            b2 < 0x100,
            b3 < 0x100,
    ;
}

/// A step moves `D` into `A`, `B` into `C` and `C` into `D`, and advances `B`
/// by the sum `A + g(B, C, D) + T[i] + X[k]` (mod 2^32) rotated left by the
/// step's amount: rotating the advance back by the complementary amount gives
/// that sum, for every value of the message word `X[k]`.
pub proof fn law_step_adds_message_word(regs: Registers, x: Seq<u32>, i: int)
    requires
        0 <= i < 64,
        x.len() == 16,
    ensures
        ({
            let (a, b, c, d) = regs;
            let (a2, b2, c2, d2) = md5_step(regs, x, i);
            let s = SHIFTS@[i];
            &&& a2 == d
            &&& c2 == b
            &&& d2 == c
            &&& rotl32(((b2 - b) % 0x1_0000_0000) as u32, (32 - s) as u32) == ((a + step_function(
                i,
                b,
                c,
                d,
            ) + RC@[i] + x[message_index(i)]) % 0x1_0000_0000) as u32
        }),
{
    lemma_shifts_in_range();
    let (a, b, c, d) = regs;
    let s = SHIFTS@[i];
    let sum = add_mod32(
        add_mod32(add_mod32(a, step_function(i, b, c, d)), RC@[i]),
        x[message_index(i)],
    );
    let r = rotl32(sum, s);
    assert(rotl32(r, (32 - s) as u32) == sum) by (bit_vector)
        requires
            1 <= s < 32,
            r == (sum << s) | (sum >> (32 - s) as u32),
    ;
    let (_, b2, _, _) = md5_step(regs, x, i);
    assert(b2 == add_mod32(b, r));
    assert(((b2 - b) % 0x1_0000_0000) == r);
}

/// A step reads the message only through its word `X[k]`, and two different
/// values of that word give two different values of the new `B`.
pub proof fn law_step_depends_on_its_word(regs: Registers, x: Seq<u32>, y: Seq<u32>, i: int)
    requires
        0 <= i < 64,
        x.len() == 16,
        y.len() == 16,
    ensures
        x[message_index(i)] == y[message_index(i)] ==> md5_step(regs, x, i) == md5_step(
            regs,
            y,
            i,
        ),
        x[message_index(i)] != y[message_index(i)] ==> md5_step(regs, x, i).1 != md5_step(
            regs,
            y,
            i,
        ).1,
{
    let k = message_index(i);
    if x[k] != y[k] {
        law_step_adds_message_word(regs, x, i);
        law_step_adds_message_word(regs, y, i);
        let (a, b, c, d) = regs;
        let base = a + step_function(i, b, c, d) + RC@[i];
        let bx = md5_step(regs, x, i).1;
        let by = md5_step(regs, y, i).1;
        assert((base + x[k]) % 0x1_0000_0000 != (base + y[k]) % 0x1_0000_0000);
        if bx == by {
            assert(((bx - b) % 0x1_0000_0000) == ((by - b) % 0x1_0000_0000));
        }
    }
}

/// The steps run one after another, step `n` on the registers left by the
/// steps before it.
pub proof fn law_steps_in_order(init: Registers, x: Seq<u32>, n: nat)
    ensures
        md5_steps(init, x, 0) == init,
        md5_steps(init, x, n + 1) == md5_step(md5_steps(init, x, n), x, n as int),
{
}

/// Compressing a block adds, word by word and modulo 2^32, the registers left
/// by the 64 steps on the block's message words into the chaining state, for
/// every state and every block.
pub proof fn law_block_adds_registers_into_state(state: Seq<u32>, block: Seq<u8>)
    requires
        state.len() == 4,
        block.len() == 64,
    ensures
        ({
            let (a, b, c, d) = md5_steps(
                (state[0], state[1], state[2], state[3]),
                message_words(block),
                64,
            );
            let out = compress_block_spec(state, block);
            &&& out.len() == 4
            &&& out[0] == (state[0] + a) % 0x1_0000_0000
            &&& out[1] == (state[1] + b) % 0x1_0000_0000
            &&& out[2] == (state[2] + c) % 0x1_0000_0000
            &&& out[3] == (state[3] + d) % 0x1_0000_0000
        }),
{
}

/// Round `r` (steps `16r .. 16r + 15`) uses the `r`-th auxiliary function:
/// F, then G, then H, then I.
pub proof fn law_round_functions(i: int, b: u32, c: u32, d: u32)
    requires
        0 <= i < 64,
    ensures
        0 <= i < 16 ==> step_function(i, b, c, d) == aux_f(b, c, d),
        16 <= i < 32 ==> step_function(i, b, c, d) == aux_g(b, c, d),
        32 <= i < 48 ==> step_function(i, b, c, d) == aux_h(b, c, d),
        48 <= i < 64 ==> step_function(i, b, c, d) == aux_i(b, c, d),
{
}

/// The order in which each round reads the message words: round 1 reads
/// them in order; round 2 starts at word 1 and strides by 5; round 3 starts
/// at word 5 and strides by 3; round 4 starts at word 0 and strides by 7.
/// Within a round, each of the 16 words is read exactly once.
pub proof fn law_message_order(i: int, j: int)
    requires
        0 <= i < 64,
        0 <= j < 64,
    ensures
        0 <= message_index(i) < 16,
        0 <= i < 16 ==> message_index(i) == i,
        16 <= i < 32 ==> message_index(i) == (1 + 5 * (i - 16)) % 16,
        32 <= i < 48 ==> message_index(i) == (5 + 3 * (i - 32)) % 16,
        48 <= i < 64 ==> message_index(i) == (7 * (i - 48)) % 16,
        i != j && i / 16 == j / 16 ==> message_index(i) != message_index(j),
{
}

/// Rotating left by `s` moves bit `n` of the result from bit `n - s`
/// (mod 32) of the input: no bit is lost and none is made up.
pub proof fn law_rotl_moves_bits(x: u32, s: u32, n: u32)
    requires
        0 < s < 32,
        n < 32,
    ensures
        bit(rotl32(x, s), n) == bit(x, ((n + 32 - s) % 32) as u32),
{
    assert(((((x << s) | (x >> (32 - s) as u32)) >> n) & 1) == ((x >> ((n + 32 - s) % 32) as u32)
        & 1)) by (bit_vector)
        requires
            0 < s < 32,
            n < 32,
    ;
}

/// Bit by bit, the first-round function selects: where `x` is set it takes
/// `y`, elsewhere `z`.
pub proof fn law_aux_f_selects(x: u32, y: u32, z: u32, n: u32)
    requires
        n < 32,
    ensures
        bit(aux_f(x, y, z), n) == if bit(x, n) == 1 {
            bit(y, n)
        } else {
            bit(z, n)
        },
{
    assert(((((x & y) | (!x & z)) >> n) & 1) == if ((x >> n) & 1) == 1 {
        (y >> n) & 1
    } else {
        (z >> n) & 1
    }) by (bit_vector)
        requires
            n < 32,
    ;
}

/// Bit by bit, the second-round function selects: where `z` is set it takes
/// `x`, elsewhere `y`.
pub proof fn law_aux_g_selects(x: u32, y: u32, z: u32, n: u32)
    requires
        n < 32,
    ensures
        bit(aux_g(x, y, z), n) == if bit(z, n) == 1 {
            bit(x, n)
        } else {
            bit(y, n)
        },
{
    assert(((((x & z) | (y & !z)) >> n) & 1) == if ((z >> n) & 1) == 1 {
        (x >> n) & 1
    } else {
        (y >> n) & 1
    }) by (bit_vector)
        requires
            n < 32,
    ;
}

/// Bit by bit, the third-round function is the parity of its three inputs.
pub proof fn law_aux_h_parity(x: u32, y: u32, z: u32, n: u32)
    requires
        n < 32,
    ensures
        bit(aux_h(x, y, z), n) == (bit(x, n) + bit(y, n) + bit(z, n)) % 2,
{
    assert((((x ^ y ^ z) >> n) & 1) == (((x >> n) & 1) + ((y >> n) & 1) + ((z >> n) & 1)) % 2)
        by (bit_vector)
        requires
            n < 32,
    ;
}

/// Bit by bit, the fourth-round function is set exactly when `y` differs from
/// "`x` or not `z`".
pub proof fn law_aux_i_bits(x: u32, y: u32, z: u32, n: u32)
    requires
        n < 32,
    ensures
        (bit(aux_i(x, y, z), n) == 1) == ((bit(y, n) == 1) != (bit(x, n) == 1 || bit(z, n) == 0)),
{
    assert(((((y ^ (x | !z)) >> n) & 1) == 1) == ((((y >> n) & 1) == 1) != (((x >> n) & 1) == 1
        || ((z >> n) & 1) == 0))) by (bit_vector)
        requires
            n < 32,
    ;
}

} // verus!
