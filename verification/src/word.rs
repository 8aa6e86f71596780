//! The pure value model: 32-bit words, 8-bit chunks, and the little-endian
//! decomposition between them, together with the bound (cell-assigned)
//! variants used during synthesis.

use vstd::prelude::*;

use crate::backend::{
    region_assign_advice, region_cells, region_enabled, region_selector_count, AdviceColumn,
    RegionCtx,
};
use crate::error::GadgetError;
use halo2_proofs::circuit::Cell;
use halo2_proofs::plonk::Selector;

verus! {

/// Little-endian byte 0 of a 32-bit word.
pub open spec fn word_byte0(v: u32) -> u8 {
    (v % 0x100) as u8
}

/// Little-endian byte 1 of a 32-bit word.
pub open spec fn word_byte1(v: u32) -> u8 {
    ((v / 0x100) % 0x100) as u8
}

/// Little-endian byte 2 of a 32-bit word.
pub open spec fn word_byte2(v: u32) -> u8 {
    ((v / 0x10000) % 0x100) as u8
}

/// Little-endian byte 3 of a 32-bit word.
pub open spec fn word_byte3(v: u32) -> u8 {
    ((v / 0x1000000) % 0x100) as u8
}

/// The word denoted by four little-endian bytes:
/// `c0 + c1 * 2^8 + c2 * 2^16 + c3 * 2^24`, the same linear combination the
/// decompose gate constrains.
pub open spec fn word_of_bytes(c0: u8, c1: u8, c2: u8, c3: u8) -> u32 {
    ((c0 as int) + (c1 as int) * 0x100 + (c2 as int) * 0x10000 + (c3 as int) * 0x1000000) as u32
}

/// An opaque 32-bit word witness value.
#[derive(Clone, Copy, Debug)]
pub struct Word(u32);

impl View for Word {
    type V = u32;

    closed spec fn view(&self) -> u32 {
        self.0
    }
}

impl Word {
    /// Wraps a 32-bit value; total.
    pub fn new(x: u32) -> (r: Self)
        ensures
            r@ == x,
    {
        Word(x)
    }

    /// The underlying 32-bit value.
    pub fn value(&self) -> (r: u32)
        ensures
            r == self@,
    {
        self.0
    }

    /// Little-endian decomposition into exactly 4 bytes; total.
    pub fn decompose_4(&self) -> (r: [u8; 4])
        ensures
            r[0] == word_byte0(self@),
            r[1] == word_byte1(self@),
            r[2] == word_byte2(self@),
            r[3] == word_byte3(self@),
    {
        let v = self.0;
        proof {
            assert(v & 0xff == v % 0x100) by (bit_vector);
            assert((v >> 8) & 0xff == (v / 0x100) % 0x100) by (bit_vector);
            assert((v >> 16) & 0xff == (v / 0x10000) % 0x100) by (bit_vector);
            assert((v >> 24) & 0xff == (v / 0x1000000) % 0x100) by (bit_vector);
        }
        [(v & 0xff) as u8, ((v >> 8) & 0xff) as u8, ((v >> 16) & 0xff) as u8, ((v >> 24) & 0xff) as u8]
    }

    /// Recomposition from 4 little-endian bytes; the inverse of
    /// [`Word::decompose_4`]; total.
    pub fn compose(chunks: [u8; 4]) -> (r: Self)
        ensures
            r@ == word_of_bytes(chunks[0], chunks[1], chunks[2], chunks[3]),
    {
        let c0 = chunks[0] as u32;
        let c1 = chunks[1] as u32;
        let c2 = chunks[2] as u32;
        let c3 = chunks[3] as u32;
        Word(c0 + c1 * 0x100 + c2 * 0x10000 + c3 * 0x1000000)
    }
}

impl Default for Word {
    /// The zero word.
    fn default() -> (r: Self)
        ensures
            r@ == 0,
    {
        Word(0)
    }
}

/// Round-trip law: recomposing the four little-endian bytes of any 32-bit
/// word yields the word back.
pub proof fn lemma_compose_decompose(v: u32)
    ensures
        word_of_bytes(word_byte0(v), word_byte1(v), word_byte2(v), word_byte3(v)) == v,
{
    assert(v % 0x100 + ((v / 0x100) % 0x100) * 0x100 + ((v / 0x10000) % 0x100) * 0x10000 + ((v
        / 0x1000000) % 0x100) * 0x1000000 == v) by (bit_vector);
}

/// Bytewise XOR agrees with word XOR: each little-endian byte of `x ^ y` is
/// the XOR of the corresponding bytes of `x` and `y`. This is what lets the
/// circuit prove a 32-bit XOR with four 8-bit table lookups, one per byte
/// position.
pub proof fn lemma_xor_bytewise(x: u32, y: u32)
    ensures
        word_byte0(x ^ y) == word_byte0(x) ^ word_byte0(y),
        word_byte1(x ^ y) == word_byte1(x) ^ word_byte1(y),
        word_byte2(x ^ y) == word_byte2(x) ^ word_byte2(y),
        word_byte3(x ^ y) == word_byte3(x) ^ word_byte3(y),
{
    assert((((x ^ y) % 0x100) as u8) == ((x % 0x100) as u8) ^ ((y % 0x100) as u8))
        by (bit_vector);
    assert(((((x ^ y) / 0x100) % 0x100) as u8) == (((x / 0x100) % 0x100) as u8) ^ (((y / 0x100)
        % 0x100) as u8)) by (bit_vector);
    assert(((((x ^ y) / 0x10000) % 0x100) as u8) == (((x / 0x10000) % 0x100) as u8) ^ (((y
        / 0x10000) % 0x100) as u8)) by (bit_vector);
    assert(((((x ^ y) / 0x1000000) % 0x100) as u8) == (((x / 0x1000000) % 0x100) as u8) ^ (((y
        / 0x1000000) % 0x100) as u8)) by (bit_vector);
}

/// An opaque 8-bit chunk: one byte of a word.
#[derive(Clone, Copy, Debug)]
pub struct Chunk(u8);

impl View for Chunk {
    type V = u8;

    closed spec fn view(&self) -> u8 {
        self.0
    }
}

impl Chunk {
    /// Wraps an 8-bit value; total.
    pub fn new(x: u8) -> (r: Self)
        ensures
            r@ == x,
    {
        Chunk(x)
    }

    /// The underlying 8-bit value.
    pub fn value(&self) -> (r: u8)
        ensures
            r == self@,
    {
        self.0
    }
}

impl Default for Chunk {
    /// The zero chunk.
    fn default() -> (r: Self)
        ensures
            r@ == 0,
    {
        Chunk(0)
    }
}

/// A word bound to a cell of the constraint matrix, together with its
/// concrete value where one is known (witness generation) and `None` during
/// shape-only analysis.
#[derive(Clone, Copy, Debug)]
pub struct AssignedWord {
    pub(crate) cell: Cell,
    pub(crate) value: Option<Word>,
}

impl View for AssignedWord {
    type V = Option<u32>;

    closed spec fn view(&self) -> Option<u32> {
        match self.value {
            Some(w) => Some(w@),
            None => None,
        }
    }
}

impl AssignedWord {
    /// Binds a cell coordinate to an optional word value.
    pub fn new(cell: Cell, value: Option<Word>) -> (r: Self)
        ensures
            r@ == (match value {
                Some(w) => Some(w@),
                None => None::<u32>,
            }),
    {
        AssignedWord { cell, value }
    }

    /// The concrete word value, if one is known.
    pub fn value_word(&self) -> (r: Option<u32>)
        ensures
            r == self@,
    {
        match self.value {
            Some(w) => Some(w.value()),
            None => None,
        }
    }

    /// Witnesses a word at row 0 of the given advice column within a region.
    /// Fails with a `Synthesis` error exactly when a concrete value is
    /// demanded while the witness is absent, writing nothing on that path.
    pub fn assign_word(
        region: &mut RegionCtx<'_>,
        column: AdviceColumn,
        value: Option<Word>,
    ) -> (r: Result<AssignedWord, GadgetError>)
        ensures
            value is None <==> r matches Err(GadgetError::Synthesis),
            value is None ==> *final(region) == *old(region),
            r matches Ok(aw) ==> value is Some && aw@ == Some(value.unwrap()@),
            r is Ok ==> region_cells(*final(region), column) == region_cells(
                *old(region),
                column,
            ).insert(0, value.unwrap()@ as int),
            r is Ok ==> forall|c: AdviceColumn|
                c != column ==> #[trigger] region_cells(*final(region), c) == region_cells(
                    *old(region),
                    c,
                ),
            r is Ok ==> forall|s: Selector| #[trigger] region_enabled(*final(region), s)
                == region_enabled(*old(region), s),
            region_selector_count(*final(region)) == region_selector_count(*old(region)),
    {
        let w = match value {
            Some(w) => w,
            None => {
                return Err(GadgetError::Synthesis);
            },
        };
        let cell = match region_assign_advice(region, column, 0, w.value() as u64) {
            Ok(c) => c,
            Err(e) => {
                return Err(GadgetError::Backend(e));
            },
        };
        Ok(AssignedWord { cell, value: Some(w) })
    }
}

/// A chunk bound to a cell of the constraint matrix, with its concrete value
/// where one is known.
#[derive(Clone, Copy, Debug)]
pub struct AssignedChunk {
    pub(crate) cell: Cell,
    pub(crate) value: Option<Chunk>,
}

impl View for AssignedChunk {
    type V = Option<u8>;

    closed spec fn view(&self) -> Option<u8> {
        match self.value {
            Some(c) => Some(c@),
            None => None,
        }
    }
}

impl AssignedChunk {
    /// Binds a cell coordinate to an optional chunk value.
    pub fn new(cell: Cell, value: Option<Chunk>) -> (r: Self)
        ensures
            r@ == (match value {
                Some(c) => Some(c@),
                None => None::<u8>,
            }),
    {
        AssignedChunk { cell, value }
    }

    /// The concrete chunk value, if one is known.
    pub fn value_word(&self) -> (r: Option<u8>)
        ensures
            r == self@,
    {
        match self.value {
            Some(c) => Some(c.value()),
            None => None,
        }
    }

    /// Witnesses a chunk at row 0 of the given advice column within a region.
    /// Fails with a `Synthesis` error exactly when a concrete value is
    /// demanded while the witness is absent, writing nothing on that path.
    pub fn assign_chunk(
        region: &mut RegionCtx<'_>,
        column: AdviceColumn,
        value: Option<Chunk>,
    ) -> (r: Result<AssignedChunk, GadgetError>)
        ensures
            value is None <==> r matches Err(GadgetError::Synthesis),
            value is None ==> *final(region) == *old(region),
            r matches Ok(ac) ==> value is Some && ac@ == Some(value.unwrap()@),
            r is Ok ==> region_cells(*final(region), column) == region_cells(
                *old(region),
                column,
            ).insert(0, value.unwrap()@ as int),
            r is Ok ==> forall|c: AdviceColumn|
                c != column ==> #[trigger] region_cells(*final(region), c) == region_cells(
                    *old(region),
                    c,
                ),
            r is Ok ==> forall|s: Selector| #[trigger] region_enabled(*final(region), s)
                == region_enabled(*old(region), s),
            region_selector_count(*final(region)) == region_selector_count(*old(region)),
    {
        let ch = match value {
            Some(c) => c,
            None => {
                return Err(GadgetError::Synthesis);
            },
        };
        let cell = match region_assign_advice(region, column, 0, ch.value() as u64) {
            Ok(c) => c,
            Err(e) => {
                return Err(GadgetError::Backend(e));
            },
        };
        Ok(AssignedChunk { cell, value: Some(ch) })
    }
}

} // verus!
