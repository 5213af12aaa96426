use crate::ir::{MnemonicKind, OperandKind};
use crate::translate::is_immediate;
use crate::registers::RegisterKind;
use iced_x86::{IcedError, Mnemonic, OpKind, Register};
use vstd::prelude::*;

verus! {

#[verifier::external_type_specification]
#[verifier::external_body]
pub struct ExInstruction(iced_x86::Instruction);

#[verifier::external_type_specification]
#[verifier::external_body]
pub struct ExRegister(iced_x86::Register);

#[verifier::external_type_specification]
#[verifier::external_body]
pub struct ExMnemonic(iced_x86::Mnemonic);

#[verifier::external_type_specification]
#[verifier::external_body]
pub struct ExOpKind(iced_x86::OpKind);

#[verifier::external_type_specification]
#[verifier::external_body]
pub struct ExIcedError(iced_x86::IcedError);

/// The kind of a decoded instruction's mnemonic.
pub uninterp spec fn mnemonic_of(i: iced_x86::Instruction) -> MnemonicKind;

/// The kind of operand `n` of a decoded instruction.
pub uninterp spec fn op_kind_of(i: iced_x86::Instruction, n: u32) -> OperandKind;

/// The register of operand `n` of a decoded instruction.
pub uninterp spec fn op_register_of(i: iced_x86::Instruction, n: u32) -> iced_x86::Register;

/// The immediate of operand `n` of a decoded instruction, widened to 64 bits.
pub uninterp spec fn immediate_of(i: iced_x86::Instruction, n: u32) -> u64;

/// A register of the decoder's naming, as the library names it.
pub uninterp spec fn register_kind_of(r: iced_x86::Register) -> RegisterKind;

/// Relies on `Instruction::mnemonic`, which depends on the instruction alone;
/// `mov` and `int` are told apart from every other mnemonic.
#[verifier::external_body]
pub(crate) fn mnemonic(i: &iced_x86::Instruction) -> (m: MnemonicKind)
    ensures
        m == mnemonic_of(*i),
{
    match i.mnemonic() {
        Mnemonic::Mov => MnemonicKind::Mov,
        Mnemonic::Int => MnemonicKind::Int,
        other => MnemonicKind::Unsupported(other),
    }
}

/// Relies on `Instruction::try_op_kind`, which fails only for an operand
/// number above 4; each kind that the library names is told apart, one for
/// one, and every other kind is passed on.
#[verifier::external_body]
pub(crate) fn operand_kind(i: &iced_x86::Instruction, n: u32) -> (r: Result<OperandKind, IcedError>)
    ensures
        r is Ok <==> n < 5,
        r is Ok ==> r->Ok_0 == op_kind_of(*i, n),
{
    match i.try_op_kind(n) {
        Ok(OpKind::Register) => Ok(OperandKind::Register),
        Ok(OpKind::Immediate8) => Ok(OperandKind::Immediate8),
        Ok(OpKind::Immediate8_2nd) => Ok(OperandKind::Immediate8_2nd),
        Ok(OpKind::Immediate16) => Ok(OperandKind::Immediate16),
        Ok(OpKind::Immediate32) => Ok(OperandKind::Immediate32),
        Ok(OpKind::Immediate64) => Ok(OperandKind::Immediate64),
        Ok(OpKind::Immediate8to16) => Ok(OperandKind::Immediate8to16),
        Ok(OpKind::Immediate8to32) => Ok(OperandKind::Immediate8to32),
        Ok(OpKind::Immediate8to64) => Ok(OperandKind::Immediate8to64),
        Ok(OpKind::Immediate32to64) => Ok(OperandKind::Immediate32to64),
        Ok(other) => Ok(OperandKind::Unsupported(other)),
        Err(e) => Err(e),
    }
}

/// Relies on `Instruction::try_op_register`, which fails only for an operand
/// number above 4.
#[verifier::external_body]
pub(crate) fn operand_register(i: &iced_x86::Instruction, n: u32) -> (r: Result<Register, IcedError>)
    ensures
        r is Ok <==> n < 5,
        r is Ok ==> r->Ok_0 == op_register_of(*i, n),
{
    i.try_op_register(n)
}

/// Relies on `Instruction::try_immediate`, which succeeds exactly on an
/// operand of one of the nine immediate kinds and widens its value to 64 bits.
#[verifier::external_body]
pub(crate) fn operand_immediate(i: &iced_x86::Instruction, n: u32) -> (r: Result<u64, IcedError>)
    ensures
        r is Ok <==> (n < 5 && is_immediate(op_kind_of(*i, n))),
        r is Ok ==> r->Ok_0 == immediate_of(*i, n),
{
    i.try_immediate(n)
}

/// Relies on the variants of `iced_x86::Register`: each register that the
/// library names is told apart, one for one, and every other register is
/// passed on.
#[verifier::external_body]
pub(crate) fn register_kind(r: Register) -> (k: RegisterKind)
    ensures
        k == register_kind_of(r),
{
    match r {
        Register::RAX => RegisterKind::Rax,
        Register::AH => RegisterKind::Ah,
        Register::AL => RegisterKind::Al,
        Register::RBX => RegisterKind::Rbx,
        Register::RCX => RegisterKind::Rcx,
        Register::RDX => RegisterKind::Rdx,
        Register::RSI => RegisterKind::Rsi,
        Register::RDI => RegisterKind::Rdi,
        Register::RSP => RegisterKind::Rsp,
        Register::RBP => RegisterKind::Rbp,
        other => RegisterKind::Unmapped(other),
    }
}

} // verus!
