//! The 16-bit word domain: classification of words into literals, register
//! references and invalid values, and the machine's arithmetic, which works
//! modulo 32768 or bitwise over the low 15 bits.

use vstd::prelude::*;

verus! {

/// Number of addressable memory words: the 15-bit address space.
pub const MEMORY_WORDS: u16 = 32768;

/// Number of general registers.
pub const REGISTER_COUNT: u16 = 8;

/// First word value that neither is a literal nor names a register.
pub const FIRST_INVALID_WORD: u16 = 32776;

/// What a raw word means when it is used as an operand.
#[derive(Clone, Copy, Debug, PartialEq, Eq, Structural)]
pub enum WordClass {
    /// A word below 32768: the value itself.
    Literal(u16),
    /// A word in `32768..32776`: a reference to register `word - 32768`.
    RegisterRef(u16),
    /// A word at or above 32776: no meaning; using one is fatal.
    Invalid,
}

/// A resolved addressing target: a memory cell or a register.
#[derive(Clone, Copy, Debug, PartialEq, Eq, Structural)]
pub enum Address {
    /// Memory cell `0..32768`.
    Mem(u16),
    /// Register `0..8`.
    Reg(u16),
}

/// Classify a raw word per the addressing rule of the instruction set.
pub fn classify(w: u16) -> (r: WordClass)
    ensures
        w < 32768 ==> r == WordClass::Literal(w),
        32768 <= w < 32776 ==> r == (WordClass::RegisterRef((w - 32768) as u16)),
        w >= 32776 ==> r == WordClass::Invalid,
{
    if w < MEMORY_WORDS {
        WordClass::Literal(w)
    } else if w < FIRST_INVALID_WORD {
        WordClass::RegisterRef(w - MEMORY_WORDS)
    } else {
        WordClass::Invalid
    }
}

/// Resolve a raw word to an addressing target: literals address memory,
/// register references address the register file, and invalid words
/// resolve to nothing.
pub fn get_addr(addr: u16) -> (r: Option<Address>)
    ensures
        addr < 32768 ==> r == Some(Address::Mem(addr)),
        32768 <= addr < 32776 ==> r == (Some(Address::Reg((addr - 32768) as u16))),
        addr >= 32776 ==> r is None,
{
    match classify(addr) {
        WordClass::Literal(v) => Some(Address::Mem(v)),
        WordClass::RegisterRef(i) => Some(Address::Reg(i)),
        WordClass::Invalid => None,
    }
}

/// The register named by a word used in a destination role, if any.
/// Destinations must name a register; a literal or invalid word does not.
pub open spec fn spec_dest_reg(w: u16) -> Option<u16> {
    if 32768 <= w < 32776 {
        Some((w - 32768) as u16)
    } else {
        None
    }
}

/// Exec counterpart of [`spec_dest_reg`].
pub fn dest_reg(w: u16) -> (r: Option<u16>)
    ensures
        r == spec_dest_reg(w),
{
    if MEMORY_WORDS <= w && w < FIRST_INVALID_WORD {
        Some(w - MEMORY_WORDS)
    } else {
        None
    }
}

/// Addition in the machine's arithmetic: modulo 32768.
pub open spec fn add_words(b: u16, c: u16) -> u16 {
    ((b + c) % 32768) as u16
}

/// Multiplication in the machine's arithmetic: modulo 32768.
pub open spec fn mult_words(b: u16, c: u16) -> u16 {
    ((b * c) % 32768) as u16
}

/// Remainder; the divisor must not be zero.
pub open spec fn mod_words(b: u16, c: u16) -> u16
    recommends
        c != 0,
{
    (b % c) as u16
}

/// Bitwise and.
pub open spec fn and_words(b: u16, c: u16) -> u16 {
    b & c
}

/// Bitwise or.
pub open spec fn or_words(b: u16, c: u16) -> u16 {
    b | c
}

/// Bitwise complement over the low 15 bits only.
pub open spec fn not_word(b: u16) -> u16 {
    b ^ 0x7fff
}

/// Arithmetic closure: whatever the operands, an `add` or `mult` result is
/// always below 32768, so it is a valid literal word.
pub proof fn lemma_arith_closure(b: u16, c: u16)
    ensures
        add_words(b, c) < 32768,
        mult_words(b, c) < 32768,
{
}

/// The 15-bit complement is its own inverse: applying `not` twice gives the
/// operand back unchanged.
pub proof fn lemma_not_involution(b: u16)
    ensures
        not_word(not_word(b)) == b,
{
    assert((b ^ 0x7fff) ^ 0x7fff == b) by (bit_vector);
}

} // verus!
