//! A verified interpreter for a little 16-bit-word virtual machine.
//!
//! The machine has a 15-bit address space of 32768 words, eight general
//! registers, and an unbounded call/data stack.  A word below 32768 is a
//! literal; a word in `32768..32776` names a register; anything larger is
//! invalid.  The interpreter decodes instructions straight out of memory on
//! every step (so self-modifying programs work), executes them, and produces
//! a byte stream of console output while consuming a byte stream of console
//! input.
//!
//! The crate is organised bottom-up:
//! - [`word`]: the word domain, operand classification, and the machine's
//!   modular/bitwise arithmetic;
//! - [`machine`]: the machine state, its mathematical view, and raw
//!   memory/register access;
//! - [`decode`]: the instruction set and the decoder;
//! - [`engine`]: the fetch-decode-execute step, the run loop, and program
//!   loading.

pub mod decode;
pub mod engine;
pub mod machine;
pub mod word;
