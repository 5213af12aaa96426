use crate::bytes::{byte_list, bytes_from_array};
use crate::ir::{Insn, Operand, SimError};
use crate::registers::RegisterKind;
use crate::registers::{
    alias_of, alias_spec, cells_wf, read_alias, write_alias, Alias, Registers,
};
use arrayvec::ArrayVec;
use vstd::pervasive::unreached;
use vstd::prelude::*;

verus! {

/// The little-endian bytes of a 64-bit value.
pub open spec fn le_bytes(v: u64) -> Seq<u8> {
    Seq::new(8, |k: int| #[verifier::truncate] ((v >> (8 * k) as u64) as u8))
}

fn to_le_bytes(v: u64) -> (r: [u8; 8])
    ensures
        r@ == le_bytes(v),
{
    let r = [
        #[verifier::truncate] (v as u8),
        #[verifier::truncate] ((v >> 8u64) as u8),
        #[verifier::truncate] ((v >> 16u64) as u8),
        #[verifier::truncate] ((v >> 24u64) as u8),
        #[verifier::truncate] ((v >> 32u64) as u8),
        #[verifier::truncate] ((v >> 40u64) as u8),
        #[verifier::truncate] ((v >> 48u64) as u8),
        #[verifier::truncate] ((v >> 56u64) as u8),
    ];
    assert(v >> 0u64 == v) by (bit_vector);
    assert(r@ =~= le_bytes(v));
    r
}

/// The bytes that a source operand yields: an immediate's eight
/// little-endian bytes, or what a register's window holds.
pub open spec fn source_bytes(regs: Seq<Seq<u8>>, op: Operand) -> Result<Seq<u8>, SimError> {
    match op {
        Operand::Immediate(v) => Ok(le_bytes(v)),
        Operand::Register(RegisterKind::Unmapped(r)) => Err(SimError::UnsupportedRegister(r)),
        Operand::Register(r) => Ok(read_alias(regs, alias_spec(r)->Some_0)),
    }
}

/// The window that a destination operand names.
pub open spec fn destination(op: Operand) -> Result<Alias, SimError> {
    match op {
        Operand::Immediate(_) => Err(SimError::InvalidDestination),
        Operand::Register(RegisterKind::Unmapped(r)) => Err(SimError::UnsupportedRegister(r)),
        Operand::Register(r) => Ok(alias_spec(r)->Some_0),
    }
}

/// One step of the machine: the registers and the pointer after it, and its
/// outcome. A step that fails changes neither.
pub open spec fn step(regs: Seq<Seq<u8>>, program: Seq<Insn>, ip: int) -> (
    Seq<Seq<u8>>,
    int,
    Result<(), SimError>,
) {
    if !(0 <= ip < program.len()) {
        (regs, ip, Err(SimError::OutOfRange))
    } else {
        match program[ip] {
            Insn::Mov(dest, src) => match source_bytes(regs, src) {
                Err(e) => (regs, ip, Err(e)),
                Ok(bytes) => match destination(dest) {
                    Err(e) => (regs, ip, Err(e)),
                    Ok(a) => (write_alias(regs, a, bytes), ip + 1, Ok(())),
                },
            },
            Insn::Int(_) => (regs, ip, Err(SimError::UnimplementedCapability)),
        }
    }
}

/// The registers and the pointer after `n` steps.
pub open spec fn run(regs: Seq<Seq<u8>>, program: Seq<Insn>, ip: int, n: nat) -> (
    Seq<Seq<u8>>,
    int,
)
    decreases n,
{
    if n == 0 {
        (regs, ip)
    } else {
        let (next, next_ip, _) = step(regs, program, ip);
        run(next, program, next_ip, (n - 1) as nat)
    }
}

/// Runs from equal register state, program and pointer reach equal register
/// state and pointer after any number of steps.
pub proof fn lemma_run_deterministic(
    regs1: Seq<Seq<u8>>,
    regs2: Seq<Seq<u8>>,
    program: Seq<Insn>,
    ip: int,
    n: nat,
)
    requires
        regs1 == regs2,
    ensures
        run(regs1, program, ip, n) == run(regs2, program, ip, n),
{
}

/// With no instructions, a step reports that the pointer is out of range and
/// changes nothing.
pub proof fn lemma_empty_program_out_of_range(regs: Seq<Seq<u8>>)
    ensures
        step(regs, Seq::empty(), 0) == (regs, 0int, Err::<(), SimError>(SimError::OutOfRange)),
{
}

/// The machine: a register file, a fixed program, a pointer into it, and a
/// text buffer for the host to show.
pub struct Simulator {
    registers: Registers,
    text_buffer: String,
    instructions: Vec<Insn>,
    ip: usize,
}

impl Simulator {
    /// The register file's cells.
    pub closed spec fn registers_view(&self) -> Seq<Seq<u8>> {
        self.registers@
    }

    /// The program.
    pub closed spec fn program(&self) -> Seq<Insn> {
        self.instructions@
    }

    /// The instruction pointer.
    pub closed spec fn pc(&self) -> nat {
        self.ip as nat
    }

    /// The text buffer.
    pub closed spec fn text(&self) -> Seq<char> {
        self.text_buffer@
    }

    /// A machine at the program's first instruction, with every register
    /// zeroed and an empty text buffer.
    pub fn new(instructions: Vec<Insn>) -> (r: Self)
        ensures
            r.program() == instructions@,
            r.pc() == 0,
            r.text() == Seq::<char>::empty(),
            cells_wf(r.registers_view()),
            forall|c: int, k: int|
                0 <= c < 8 && 0 <= k < 8 ==> #[trigger] r.registers_view()[c][k] == 0u8,
    {
        Self { instructions, ip: 0, text_buffer: String::new(), registers: Registers::new() }
    }

    /// The register file.
    pub fn registers(&self) -> (r: &Registers)
        ensures
            r@ == self.registers_view(),
    {
        &self.registers
    }

    /// The instruction pointer.
    pub fn ip(&self) -> (r: usize)
        ensures
            r == self.pc(),
    {
        self.ip
    }

    /// The text buffer.
    pub fn text_buffer(&self) -> (r: &str)
        ensures
            r@ == self.text(),
    {
        self.text_buffer.as_str()
    }

    fn current_instruction(&self) -> (r: Insn)
        requires
            self.pc() < self.program().len(),
        ensures
            r == self.program()[self.pc() as int],
    {
        self.instructions[self.ip]
    }

    /// The window that a destination operand names.
    pub fn get_dest(&self, op: Operand) -> (r: Result<Alias, SimError>)
        ensures
            r == destination(op),
            r matches Ok(a) ==> a.wf(),
    {
        match op {
            Operand::Register(RegisterKind::Unmapped(r)) => Err(SimError::UnsupportedRegister(r)),
            Operand::Register(reg) => match alias_of(reg) {
                Some(a) => Ok(a),
                None => unreached(),
            },
            Operand::Immediate(_) => Err(SimError::InvalidDestination),
        }
    }

    /// The bytes that a source operand yields.
    pub fn get_src(&self, op: Operand) -> (r: Result<ArrayVec<u8, 8>, SimError>)
        ensures
            match source_bytes(self.registers_view(), op) {
                Ok(bytes) => r matches Ok(v) && byte_list(v) == bytes,
                Err(e) => r matches Err(x) && x == e,
            },
    {
        match op {
            Operand::Register(RegisterKind::Unmapped(r)) => Err(SimError::UnsupportedRegister(r)),
            Operand::Register(reg) => match alias_of(reg) {
                Some(a) => Ok(self.registers.read(a)),
                None => unreached(),
            },
            Operand::Immediate(imm) => Ok(bytes_from_array(to_le_bytes(imm))),
        }
    }

    /// Executes the instruction at the pointer. A `mov` copies as many source
    /// bytes as the destination's window holds and advances the pointer; any
    /// failure leaves the registers and the pointer as they were.
    pub fn simulate_one(&mut self) -> (r: Result<(), SimError>)
        ensures
            (final(self).registers_view(), final(self).pc() as int, r) == step(
                old(self).registers_view(),
                old(self).program(),
                old(self).pc() as int,
            ),
            final(self).program() == old(self).program(),
            final(self).text() == old(self).text(),
    {
        if self.ip >= self.instructions.len() {
            return Err(SimError::OutOfRange);
        }
        match self.current_instruction() {
            Insn::Mov(dest, src) => {
                let src = self.get_src(src)?;
                let dest = self.get_dest(dest)?;
                self.registers.write(dest, &src);
                self.ip = self.ip + 1;
                Ok(())
            },
            Insn::Int(_) => Err(SimError::UnimplementedCapability),
        }
    }
}

} // verus!
