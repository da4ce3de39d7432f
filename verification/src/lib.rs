//! A two-pass assembler for the MOS 6502, aimed at the Commodore 64 family.
//!
//! The pipeline has three stages: a hand-written parser that lifts the
//! source text into a structured intermediate representation (`ast`,
//! `parser`), an addressing-mode classifier and opcode encoder over the fixed
//! opcode table (`opcodes`), and a multi-pass symbol resolver that sizes
//! instructions, places labels, emits bytes and patches forward references
//! (`assembler`).  Expression evaluation lives in `eval`, and the
//! assembler-wide laws (size preservation, monotone sizing, encoder
//! round-trip, branch range, idempotent origin changes, label uniqueness)
//! are stated and proved in `laws`.

pub mod assembler;
pub mod ast;
pub mod encode;
pub mod eval;
pub mod laws;
pub mod opcodes;
pub mod parser;
