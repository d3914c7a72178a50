use md5::compress;

const INIT: [u32; 4] = [0x67452301, 0xefcdab89, 0x98badcfe, 0x10325476];

/// Pads a message as MD5 does and splits it into 64-byte blocks.
fn padded_blocks(message: &[u8]) -> Vec<[u8; 64]> {
    let mut bytes = message.to_vec();
    let bit_len = (message.len() as u64).wrapping_mul(8);
    bytes.push(0x80);
    while bytes.len() % 64 != 56 {
        bytes.push(0);
    }
    bytes.extend_from_slice(&bit_len.to_le_bytes());
    bytes
        .chunks(64)
        .map(|chunk| {
            let mut block = [0u8; 64];
            block.copy_from_slice(chunk);
            block
        })
        .collect()
}

fn digest_state(message: &[u8]) -> [u32; 4] {
    let mut state = INIT;
    compress(&mut state, &padded_blocks(message));
    state
}

#[test]
fn digest_of_empty_message() {
    assert_eq!(digest_state(b""), [0xd98c1dd4, 0x04b2008f, 0x980980e9, 0x7e42f8ec]);
}

#[test]
fn digest_of_a() {
    assert_eq!(digest_state(b"a"), [0xb975c10c, 0xa8b6f1c0, 0xe299c331, 0x61267769]);
}

#[test]
fn digest_of_abc() {
    assert_eq!(digest_state(b"abc"), [0x98500190, 0xb04fd23c, 0x7d3f96d6, 0x727fe128]);
}

#[test]
fn digest_of_message_digest() {
    assert_eq!(
        digest_state(b"message digest"),
        [0x7d696bf9, 0x8d93b77c, 0x312f5a52, 0xd061f1aa]
    );
}

#[test]
fn digest_of_alphabet() {
    assert_eq!(
        digest_state(b"abcdefghijklmnopqrstuvwxyz"),
        [0xd7d3fcc3, 0x00e49261, 0x6c49fb7d, 0x3be167ca]
    );
}

#[test]
fn digest_of_alphanumerics() {
    assert_eq!(
        digest_state(b"ABCDEFGHIJKLMNOPQRSTUVWXYZabcdefghijklmnopqrstuvwxyz0123456789"),
        [0x98ab74d1, 0xf5d977d2, 0x2c1c61a5, 0x9f9d419f]
    );
}

#[test]
fn digest_of_two_block_message() {
    let message = b"12345678901234567890123456789012345678901234567890123456789012345678901234567890";
    assert_eq!(padded_blocks(message).len(), 2);
    assert_eq!(digest_state(message), [0xa2f4ed57, 0x55c9e32b, 0x2eda49ac, 0x7ab60721]);
}

#[test]
fn zero_block_into_zero_state() {
    let mut state = [0u32; 4];
    compress(&mut state, &[[0u8; 64]]);
    assert_eq!(state, [0xf7cd1c97, 0xa5483681, 0x2b68d832, 0xf90ca639]);
}

#[test]
fn all_ones_block_into_initial_state() {
    let mut state = INIT;
    compress(&mut state, &[[0xffu8; 64]]);
    assert_eq!(state, [0x561987b4, 0x493e9151, 0xbdc6554b, 0x015c40df]);
}

#[test]
fn counting_block_into_small_state() {
    let mut block = [0u8; 64];
    for (i, byte) in block.iter_mut().enumerate() {
        *byte = i as u8;
    }
    let mut state = [1, 2, 3, 4];
    compress(&mut state, &[block]);
    assert_eq!(state, [0xe486f210, 0xc99b66a2, 0x41f08e6f, 0x8e532fa1]);
}

#[test]
fn no_blocks_leave_state_unchanged() {
    let mut state = [0xdeadbeef, 1, 2, 3];
    compress(&mut state, &[]);
    assert_eq!(state, [0xdeadbeef, 1, 2, 3]);
}

#[test]
fn blocks_may_be_split_across_calls() {
    let blocks = padded_blocks(&[0x5a; 150]);
    assert_eq!(blocks.len(), 3);

    let mut at_once = INIT;
    compress(&mut at_once, &blocks);

    let mut in_parts = INIT;
    compress(&mut in_parts, &blocks[..1]);
    compress(&mut in_parts, &blocks[1..]);
    assert_eq!(at_once, in_parts);

    let mut one_by_one = INIT;
    for block in &blocks {
        compress(&mut one_by_one, core::slice::from_ref(block));
    }
    assert_eq!(at_once, one_by_one);
}

#[test]
fn block_order_matters() {
    let first = [0x11u8; 64];
    let second = [0x22u8; 64];
    let mut forward = INIT;
    compress(&mut forward, &[first, second]);
    let mut backward = INIT;
    compress(&mut backward, &[second, first]);
    assert_ne!(forward, backward);
}
