//! Lifting of ARM basic blocks into an intermediate language.
//!
//! A block is a run of instructions that ends at a branch or where the input
//! does. Lifting one turns each instruction into a small graph of operations
//! over registers and tells where execution goes after the block, and under
//! which conditions.
//!
//! - [`instruction`]: what a decoder says of one instruction.
//! - [`il`]: the intermediate language and what its expressions mean.
//! - [`semantics`]: the effects of each instruction the lifter knows.
//! - [`control`]: which instructions end a block, and the ways out of it.
//! - [`block`]: the steps that build a block.
//! - [`arm`]: the translator, which runs those steps against a decoder.
//! - [`laws`]: what holds of every block, with proof.
//! - [`error`]: how lifting fails.

pub mod arm;
pub mod block;
pub mod control;
pub mod error;
pub mod il;
pub mod instruction;
pub mod laws;
pub mod semantics;
