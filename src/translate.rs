use crate::decoder::{
    immediate_of, register_kind, register_kind_of, mnemonic, mnemonic_of, op_kind_of, op_register_of, operand_immediate,
    operand_kind, operand_register,
};
use crate::ir::{Insn, MnemonicKind, Operand, OperandKind, SimError};
use vstd::pervasive::unreached;
use vstd::prelude::*;

verus! {

/// The immediate kinds, of every width and sign extension, that translate to
/// an immediate operand.
pub open spec fn is_immediate(k: OperandKind) -> bool {
    ||| k is Immediate8
    ||| k is Immediate8_2nd
    ||| k is Immediate16
    ||| k is Immediate32
    ||| k is Immediate64
    ||| k is Immediate8to16
    ||| k is Immediate8to32
    ||| k is Immediate8to64
    ||| k is Immediate32to64
}

/// The operand that a decoded operand of the given kind becomes.
pub open spec fn operand_spec(kind: OperandKind, reg: iced_x86::Register, imm: u64) -> Result<
    Operand,
    SimError,
> {
    match kind {
        OperandKind::Register => Ok(Operand::Register(register_kind_of(reg))),
        OperandKind::Unsupported(k) => Err(SimError::UnsupportedOperand(k)),
        _ => Ok(Operand::Immediate(imm)),
    }
}

/// The translation of operand `n` of a decoded instruction.
pub open spec fn decoded_operand(i: iced_x86::Instruction, n: u32) -> Result<Operand, SimError> {
    operand_spec(op_kind_of(i, n), op_register_of(i, n), immediate_of(i, n))
}

/// The translation of the first `count` operands, or the first failure.
pub open spec fn decoded_operands(i: iced_x86::Instruction, count: nat) -> Result<
    Seq<Operand>,
    SimError,
>
    decreases count,
{
    if count == 0 {
        Ok(Seq::empty())
    } else {
        match decoded_operands(i, (count - 1) as nat) {
            Err(e) => Err(e),
            Ok(ops) => match decoded_operand(i, (count - 1) as u32) {
                Ok(op) => Ok(ops.push(op)),
                Err(e) => Err(e),
            },
        }
    }
}

/// The translation of one decoded instruction.
pub open spec fn translation(i: iced_x86::Instruction) -> Result<Insn, SimError> {
    match mnemonic_of(i) {
        MnemonicKind::Mov => match decoded_operands(i, 2) {
            Ok(ops) => Ok(Insn::Mov(ops[0], ops[1])),
            Err(e) => Err(e),
        },
        MnemonicKind::Int => match decoded_operands(i, 1) {
            Ok(ops) => Ok(Insn::Int(ops[0])),
            Err(e) => Err(e),
        },
        MnemonicKind::Unsupported(m) => Err(SimError::UnsupportedInstruction(m)),
    }
}

/// The translation of a whole program, or the failure of its first
/// instruction that does not translate.
pub open spec fn program_translation(p: Seq<iced_x86::Instruction>) -> Result<Seq<Insn>, SimError>
    decreases p.len(),
{
    if p.len() == 0 {
        Ok(Seq::empty())
    } else {
        match program_translation(p.drop_last()) {
            Err(e) => Err(e),
            Ok(insns) => match translation(p.last()) {
                Ok(insn) => Ok(insns.push(insn)),
                Err(e) => Err(e),
            },
        }
    }
}

/// An operand kind that translates: a register or an immediate.
pub open spec fn supported_kind(k: OperandKind) -> bool {
    k is Register || is_immediate(k)
}

/// The number of operands that a mnemonic takes.
pub open spec fn arity(m: MnemonicKind) -> nat {
    match m {
        MnemonicKind::Mov => 2,
        MnemonicKind::Int => 1,
        MnemonicKind::Unsupported(_) => 0,
    }
}

/// A decoded instruction of a supported mnemonic whose operands are all of
/// supported kinds.
pub open spec fn supported(i: iced_x86::Instruction) -> bool {
    !(mnemonic_of(i) is Unsupported) && forall|n: u32|
        n < arity(mnemonic_of(i)) ==> supported_kind(#[trigger] op_kind_of(i, n))
}

/// An operand of the same category as a decoded operand kind.
pub open spec fn same_category(op: Operand, k: OperandKind) -> bool {
    (op is Register <==> k is Register) && (op is Immediate <==> is_immediate(k))
}

/// The first `count` operands, all of supported kinds, translate: operand `n`
/// comes from decoded operand `n` and keeps its category.
pub proof fn lemma_operands_total(i: iced_x86::Instruction, count: nat)
    requires
        count <= 5,
        forall|n: u32| n < count ==> supported_kind(#[trigger] op_kind_of(i, n)),
    ensures
        decoded_operands(i, count) matches Ok(ops) && ops.len() == count && forall|n: int|
            0 <= n < count ==> Ok::<Operand, SimError>(#[trigger] ops[n]) == decoded_operand(
                i,
                n as u32,
            ) && same_category(ops[n], op_kind_of(i, n as u32)),
    decreases count,
{
    if count > 0 {
        lemma_operands_total(i, (count - 1) as nat);
        assert(supported_kind(op_kind_of(i, (count - 1) as u32)));
    }
}

/// If one of the first `count` operands is of an unsupported kind, they do not
/// translate.
pub proof fn lemma_operands_reject(i: iced_x86::Instruction, count: nat, n: u32)
    requires
        count <= 5,
        n < count,
        !supported_kind(op_kind_of(i, n)),
    ensures
        decoded_operands(i, count) is Err,
    decreases count,
{
    if n < count - 1 {
        lemma_operands_reject(i, (count - 1) as nat, n);
    }
}

/// A supported decoded instruction translates, and each operand keeps its
/// category: a register stays a register, an immediate an immediate.
pub proof fn lemma_translation_total(i: iced_x86::Instruction)
    requires
        supported(i),
    ensures
        translation(i) is Ok,
        translation(i) matches Ok(Insn::Mov(a, b)) ==> mnemonic_of(i) is Mov && same_category(
            a,
            op_kind_of(i, 0),
        ) && same_category(b, op_kind_of(i, 1)),
        translation(i) matches Ok(Insn::Int(a)) ==> mnemonic_of(i) is Int && same_category(
            a,
            op_kind_of(i, 0),
        ),
{
    assert(supported_kind(op_kind_of(i, 0)));
    if mnemonic_of(i) is Mov {
        assert(supported_kind(op_kind_of(i, 1)));
    }
    reveal_with_fuel(decoded_operands, 3);
}

/// A decoded instruction that is not supported does not translate.
pub proof fn lemma_translation_rejects_one(i: iced_x86::Instruction)
    requires
        !supported(i),
    ensures
        translation(i) is Err,
{
    reveal_with_fuel(decoded_operands, 3);
    if !(mnemonic_of(i) is Unsupported) {
        let n = choose|n: u32|
            n < arity(mnemonic_of(i)) && !supported_kind(#[trigger] op_kind_of(i, n));
        assert(decoded_operand(i, n) is Err);
    }
}

/// A program with one decoded instruction that is not supported does not
/// translate at all.
pub proof fn lemma_translation_rejects(p: Seq<iced_x86::Instruction>, j: int)
    requires
        0 <= j < p.len(),
        !supported(p[j]),
    ensures
        program_translation(p) is Err,
{
    lemma_translation_rejects_one(p[j]);
    let q = p.take(j + 1);
    assert(q.drop_last() =~= p.take(j));
    assert(q.last() == p[j]);
    assert(program_translation(q) is Err);
    lemma_program_err_stays(p, j + 1);
}

/// A program of supported decoded instructions translates, one instruction
/// for each.
pub proof fn lemma_program_translation_total(p: Seq<iced_x86::Instruction>)
    requires
        forall|j: int| 0 <= j < p.len() ==> supported(#[trigger] p[j]),
    ensures
        program_translation(p) matches Ok(insns) && insns.len() == p.len(),
    decreases p.len(),
{
    if p.len() > 0 {
        lemma_program_translation_total(p.drop_last());
        lemma_translation_total(p.last());
    }
}

proof fn lemma_operands_err_stays(i: iced_x86::Instruction, k: nat, m: nat)
    requires
        k <= m,
        decoded_operands(i, k) is Err,
    ensures
        decoded_operands(i, m) == decoded_operands(i, k),
    decreases m - k,
{
    if k < m {
        lemma_operands_err_stays(i, k, (m - 1) as nat);
    }
}

proof fn lemma_program_err_stays(p: Seq<iced_x86::Instruction>, k: int)
    requires
        0 <= k <= p.len(),
        program_translation(p.take(k)) is Err,
    ensures
        program_translation(p) == program_translation(p.take(k)),
    decreases p.len() - k,
{
    if k < p.len() {
        assert(p.take(k + 1).drop_last() =~= p.take(k));
        lemma_program_err_stays(p, k + 1);
    } else {
        assert(p.take(k) =~= p);
    }
}

fn translate_operand(i: &iced_x86::Instruction, n: u32) -> (r: Result<Operand, SimError>)
    requires
        n < 5,
    ensures
        r == decoded_operand(*i, n),
{
    match operand_kind(i, n) {
        Ok(OperandKind::Register) => match operand_register(i, n) {
            Ok(reg) => Ok(Operand::Register(register_kind(reg))),
            Err(_) => unreached(),
        },
        Ok(OperandKind::Immediate8)
        | Ok(OperandKind::Immediate8_2nd)
        | Ok(OperandKind::Immediate16)
        | Ok(OperandKind::Immediate32)
        | Ok(OperandKind::Immediate64)
        | Ok(OperandKind::Immediate8to16)
        | Ok(OperandKind::Immediate8to32)
        | Ok(OperandKind::Immediate8to64)
        | Ok(OperandKind::Immediate32to64) => match operand_immediate(i, n) {
            Ok(imm) => Ok(Operand::Immediate(imm)),
            Err(_) => unreached(),
        },
        Ok(OperandKind::Unsupported(k)) => Err(SimError::UnsupportedOperand(k)),
        Err(_) => unreached(),
    }
}

/// Translates the first `count` operands of a decoded instruction, all of
/// them or none.
fn get_operands(i: &iced_x86::Instruction, count: u32) -> (r: Result<Vec<Operand>, SimError>)
    requires
        count <= 5,
    ensures
        match decoded_operands(*i, count as nat) {
            Ok(ops) => r is Ok && r->Ok_0@ == ops,
            Err(e) => r == Err::<Vec<Operand>, SimError>(e),
        },
        r matches Ok(v) ==> v@.len() == count,
{
    let mut ops: Vec<Operand> = Vec::new();
    let mut n: u32 = 0;
    while n < count
        invariant
            n <= count <= 5,
            ops@.len() == n,
            decoded_operands(*i, n as nat) == Ok::<Seq<Operand>, SimError>(ops@),
        decreases count - n,
    {
        match translate_operand(i, n) {
            Ok(op) => ops.push(op),
            Err(e) => {
                proof {
                    lemma_operands_err_stays(*i, (n + 1) as nat, count as nat);
                }
                return Err(e);
            },
        }
        n = n + 1;
    }
    Ok(ops)
}

/// The number of operands that a mnemonic takes, or the failure of one
/// outside `mov` and `int`.
pub fn operand_count(m: MnemonicKind) -> (r: Result<u32, SimError>)
    ensures
        r == match m {
            MnemonicKind::Unsupported(x) => Err(SimError::UnsupportedInstruction(x)),
            _ => Ok::<u32, SimError>(arity(m) as u32),
        },
{
    match m {
        MnemonicKind::Mov => Ok(2),
        MnemonicKind::Int => Ok(1),
        MnemonicKind::Unsupported(x) => Err(SimError::UnsupportedInstruction(x)),
    }
}

/// The instruction of a supported mnemonic with its translated operands.
pub fn insn_from_operands(m: MnemonicKind, ops: &Vec<Operand>) -> (r: Insn)
    requires
        !(m is Unsupported),
        ops@.len() == arity(m),
    ensures
        r == match m {
            MnemonicKind::Mov => Insn::Mov(ops@[0], ops@[1]),
            _ => Insn::Int(ops@[0]),
        },
{
    match m {
        MnemonicKind::Mov => Insn::Mov(ops[0], ops[1]),
        _ => Insn::Int(ops[0]),
    }
}

/// Translates one decoded instruction: `mov` with two operands, `int` with
/// one, each a register or an immediate.
pub fn from_iced(ii: &iced_x86::Instruction) -> (r: Result<Insn, SimError>)
    ensures
        r == translation(*ii),
{
    let m = mnemonic(ii);
    let count = operand_count(m)?;
    let ops = get_operands(ii, count)?;
    Ok(insn_from_operands(m, &ops))
}

/// Translates a whole program, all of it or none: the first instruction that
/// does not translate fails the program.
pub fn translate_program(instructions: &[iced_x86::Instruction]) -> (r: Result<Vec<Insn>, SimError>)
    ensures
        match program_translation(instructions@) {
            Ok(p) => r is Ok && r->Ok_0@ == p,
            Err(e) => r == Err::<Vec<Insn>, SimError>(e),
        },
{
    let mut insns: Vec<Insn> = Vec::new();
    let mut k: usize = 0;
    while k < instructions.len()
        invariant
            k <= instructions@.len(),
            program_translation(instructions@.take(k as int)) == Ok::<Seq<Insn>, SimError>(insns@),
        decreases instructions@.len() - k,
    {
        proof {
            assert(instructions@.take(k + 1).drop_last() =~= instructions@.take(k as int));
        }
        match from_iced(&instructions[k]) {
            Ok(insn) => insns.push(insn),
            Err(e) => {
                proof {
                    lemma_program_err_stays(instructions@, k + 1);
                }
                return Err(e);
            },
        }
        k = k + 1;
    }
    proof {
        assert(instructions@.take(k as int) =~= instructions@);
    }
    Ok(insns)
}

} // verus!
