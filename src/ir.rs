use crate::registers::RegisterKind;
use vstd::prelude::*;

verus! {

/// An operand: a register, as the register file lays it out, or an immediate
/// widened to 64 bits.
#[derive(Clone, Copy, Debug, PartialEq, Eq)]
pub enum Operand {
    Register(RegisterKind),
    Immediate(u64),
}

/// The supported instructions, each with its fixed operands.
#[derive(Clone, Copy, Debug, PartialEq, Eq)]
pub enum Insn {
    /// Copies the source's bytes into the destination.
    Mov(Operand, Operand),
    /// A BIOS-style service call; executing it is not supported.
    Int(Operand),
}

/// What the translator needs to know of a decoded mnemonic.
#[derive(Clone, Copy, Debug, PartialEq, Eq)]
pub enum MnemonicKind {
    Mov,
    Int,
    Unsupported(iced_x86::Mnemonic),
}

/// The kind of a decoded operand: a register, one of the decoder's immediate
/// kinds, or another kind, kept as the decoder names it.
#[allow(non_camel_case_types)]
#[derive(Clone, Copy, Debug, PartialEq, Eq)]
pub enum OperandKind {
    Register,
    Immediate8,
    Immediate8_2nd,
    Immediate16,
    Immediate32,
    Immediate64,
    Immediate8to16,
    Immediate8to32,
    Immediate8to64,
    Immediate32to64,
    Unsupported(iced_x86::OpKind),
}

/// Failures of translation and of execution.
#[derive(Clone, Copy, Debug, PartialEq, Eq)]
pub enum SimError {
    /// A mnemonic outside `mov` and `int`.
    UnsupportedInstruction(iced_x86::Mnemonic),
    /// An operand that is neither a register nor an immediate.
    UnsupportedOperand(iced_x86::OpKind),
    /// A register that the register file does not lay out.
    UnsupportedRegister(iced_x86::Register),
    /// An immediate used as a destination.
    InvalidDestination,
    /// An `int` instruction was reached.
    UnimplementedCapability,
    /// The instruction pointer is past the last instruction.
    OutOfRange,
}

} // verus!
