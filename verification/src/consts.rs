//! The constant tables of the MD5 compression function (RFC 1321, section 3.4).
use vstd::prelude::*;

verus! {

/// Additive round constants: entry `i` is the integer part of
/// `2^32 * |sin(i + 1)|`, `i` in radians.
pub const RC: [u32; 64] = [
    0xd76aa478, 0xe8c7b756, 0x242070db, 0xc1bdceee,
    0xf57c0faf, 0x4787c62a, 0xa8304613, 0xfd469501,
    0x698098d8, 0x8b44f7af, 0xffff5bb1, 0x895cd7be,
    0x6b901122, 0xfd987193, 0xa679438e, 0x49b40821,
    0xf61e2562, 0xc040b340, 0x265e5a51, 0xe9b6c7aa,
    0xd62f105d, 0x02441453, 0xd8a1e681, 0xe7d3fbc8,
    0x21e1cde6, 0xc33707d6, 0xf4d50d87, 0x455a14ed,
    0xa9e3e905, 0xfcefa3f8, 0x676f02d9, 0x8d2a4c8a,
    0xfffa3942, 0x8771f681, 0x6d9d6122, 0xfde5380c,
    0xa4beea44, 0x4bdecfa9, 0xf6bb4b60, 0xbebfbc70,
    0x289b7ec6, 0xeaa127fa, 0xd4ef3085, 0x04881d05,
    0xd9d4d039, 0xe6db99e5, 0x1fa27cf8, 0xc4ac5665,
    0xf4292244, 0x432aff97, 0xab9423a7, 0xfc93a039,
    0x655b59c3, 0x8f0ccc92, 0xffeff47d, 0x85845dd1,
    0x6fa87e4f, 0xfe2ce6e0, 0xa3014314, 0x4e0811a1,
    0xf7537e82, 0xbd3af235, 0x2ad7d2bb, 0xeb86d391,
];

/// Left-rotation amounts of the 64 steps: four per round, repeated four times.
pub const SHIFTS: [u32; 64] = [
    7, 12, 17, 22, 7, 12, 17, 22, 7, 12, 17, 22, 7, 12, 17, 22,
    5, 9, 14, 20, 5, 9, 14, 20, 5, 9, 14, 20, 5, 9, 14, 20,
    4, 11, 16, 23, 4, 11, 16, 23, 4, 11, 16, 23, 4, 11, 16, 23,
    6, 10, 15, 21, 6, 10, 15, 21, 6, 10, 15, 21, 6, 10, 15, 21,
];

/// A step number in `0 .. 64` is one of the 64 literals, so that a table
/// entry at it can be read at a literal index.
pub proof fn lemma_step_cases(i: int)
    requires
        0 <= i < 64,
    ensures
            i == 0 || i == 1 || i == 2 || i == 3 || i == 4 || i == 5 || i == 6 || i == 7
                || i == 8 || i == 9 || i == 10 || i == 11 || i == 12 || i == 13 || i == 14 || i == 15
                || i == 16 || i == 17 || i == 18 || i == 19 || i == 20 || i == 21 || i == 22 || i == 23
                || i == 24 || i == 25 || i == 26 || i == 27 || i == 28 || i == 29 || i == 30 || i == 31
                || i == 32 || i == 33 || i == 34 || i == 35 || i == 36 || i == 37 || i == 38 || i == 39
                || i == 40 || i == 41 || i == 42 || i == 43 || i == 44 || i == 45 || i == 46 || i == 47
                || i == 48 || i == 49 || i == 50 || i == 51 || i == 52 || i == 53 || i == 54 || i == 55
                || i == 56 || i == 57 || i == 58 || i == 59 || i == 60 || i == 61 || i == 62 || i == 63,
{
}

/// Every rotation amount is a proper rotation of a 32-bit word.
pub proof fn lemma_shifts_in_range()
    ensures
        forall|i: int| 0 <= i < 64 ==> 1 <= #[trigger] SHIFTS@[i] < 32,
{
    assert forall|i: int| 0 <= i < 64 implies 1 <= #[trigger] SHIFTS@[i] < 32 by {
        lemma_step_cases(i);
    }
}

/// Each round rotates by its own four amounts, in turn, four times over:
/// 7, 12, 17, 22; then 5, 9, 14, 20; then 4, 11, 16, 23; then 6, 10, 15, 21.
pub proof fn law_shift_schedule(i: int)
    requires
        0 <= i < 64,
    ensures
        SHIFTS@[i] == seq![
            seq![7u32, 12, 17, 22],
            seq![5u32, 9, 14, 20],
            seq![4u32, 11, 16, 23],
            seq![6u32, 10, 15, 21],
        ][i / 16][i % 4],
{
    lemma_step_cases(i);
}

} // verus!
