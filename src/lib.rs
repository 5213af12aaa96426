//! An interpreter for a small subset of x86: instructions decoded by
//! `iced_x86` are translated into a closed instruction set and executed one
//! step at a time against a register file with sub-register aliasing.

mod boot_sector;
mod bytes;
mod decoder;
mod engine;
mod ir;
mod registers;
mod translate;

pub use boot_sector::{assembly_of, boot_sector, fill, gen_mbr, ImageError};
pub use bytes::byte_list;
pub use decoder::{immediate_of, mnemonic_of, op_kind_of, op_register_of, register_kind_of};
pub use engine::Simulator;
pub use ir::{Insn, MnemonicKind, Operand, OperandKind, SimError};
pub use registers::{alias_of, Alias, Cell, RegisterKind, Registers};
pub use translate::{from_iced, insn_from_operands, operand_count, translate_program};
