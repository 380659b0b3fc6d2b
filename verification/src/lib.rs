//! Instruction-execution core of an 8-bit Game-Boy-class CPU: the register
//! file with its paired 16-bit views, the packed flag register, and the
//! arithmetic/logic and load instruction semantics with bit-exact flag
//! effects under wraparound arithmetic.

pub mod cpu;
pub mod flags;
pub mod registers;
