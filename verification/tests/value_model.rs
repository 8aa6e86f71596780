//! Tests for the pure value model: words, chunks and the XOR table rows.

use xor_gadget::gadget::xor::{table_rows, ChunkWord};
use xor_gadget::word::{Chunk, Word};

#[test]
fn round_trip_words() {
    let samples: Vec<u32> = vec![
        0,
        1,
        170,
        0b10101010,
        0x0000_FFFF,
        0xAABB_CCDD,
        0x8000_0001,
        u32::MAX,
    ];
    for w in samples {
        let word = Word::new(w);
        let bytes = word.decompose_4();
        let back = Word::compose(bytes);
        assert_eq!(back.value(), w);
    }
}

#[test]
fn decompose_byte_values() {
    // 0b10101010 == 170 is below 256, so it sits entirely in byte 0.
    let bytes = Word::new(0b10101010).decompose_4();
    assert_eq!(bytes[0], 170);
    assert_eq!(bytes[1], 0);
    assert_eq!(bytes[2], 0);
    assert_eq!(bytes[3], 0);

    // The largest word has every byte saturated.
    let bytes = Word::new(u32::MAX).decompose_4();
    assert_eq!(bytes, [255, 255, 255, 255]);

    // A word with four distinct bytes, little-endian.
    let bytes = Word::new(0xAABB_CCDD).decompose_4();
    assert_eq!(bytes, [0xDD, 0xCC, 0xBB, 0xAA]);

    // Byte 0 of the XOR of 0b10101010 and 0b01010101 is 0b11111111.
    let x = Word::new(0b10101010).decompose_4();
    let y = Word::new(0b01010101).decompose_4();
    assert_eq!(x[0] ^ y[0], 0b11111111);
    assert_eq!(x[0] ^ y[0], 255);
}

#[test]
fn compose_is_little_endian() {
    let w = Word::compose([0xDD, 0xCC, 0xBB, 0xAA]);
    assert_eq!(w.value(), 0xAABB_CCDD);
    let w = Word::compose([1, 0, 0, 0]);
    assert_eq!(w.value(), 1);
    let w = Word::compose([0, 0, 0, 1]);
    assert_eq!(w.value(), 0x0100_0000);
}

#[test]
fn xor_table_is_complete() {
    let rows = table_rows();
    assert_eq!(rows.len(), 65536);
    // Every pair (x, y) appears exactly once, at index x * 256 + y, with
    // z == x XOR y.
    for (i, row) in rows.iter().enumerate() {
        assert_eq!(row.x as usize, i / 256);
        assert_eq!(row.y as usize, i % 256);
        assert_eq!(row.z, row.x ^ row.y);
    }
    // Spot checks, including the end-to-end scenario's first row.
    assert_eq!(rows[170 * 256 + 85], ChunkWord::new(170, 85, 255));
    assert_eq!(rows[0], ChunkWord::new(0, 0, 0));
    assert_eq!(rows[65535], ChunkWord::new(255, 255, 0));
}

#[test]
fn chunk_and_word_accessors() {
    assert_eq!(Chunk::new(0x5A).value(), 0x5A);
    assert_eq!(Word::new(0xDEAD_BEEF).value(), 0xDEAD_BEEF);
    assert_eq!(Word::default().value(), 0);
    assert_eq!(Chunk::default().value(), 0);
    let cw = ChunkWord::new(3, 5, 6);
    assert_eq!(cw.x, 3);
    assert_eq!(cw.y, 5);
    assert_eq!(cw.z, 6);
}
