use bios_sim::{Cell, Insn, Operand, RegisterKind, SimError, Simulator};
use iced_x86::Register;

fn mov(dest: Operand, src: Operand) -> Insn {
    Insn::Mov(dest, src)
}

fn reg(r: RegisterKind) -> Operand {
    Operand::Register(r)
}

fn imm(v: u64) -> Operand {
    Operand::Immediate(v)
}

fn rax(sim: &Simulator) -> [u8; 8] {
    sim.registers().cell(Cell::Rax)
}

#[test]
fn move_immediate_into_low_byte() {
    let mut sim = Simulator::new(vec![
        mov(reg(RegisterKind::Rax), imm(0x1122_3344_5566_7788)),
        mov(reg(RegisterKind::Al), imm(0x41)),
    ]);
    sim.simulate_one().unwrap();
    let before = rax(&sim);
    sim.simulate_one().unwrap();
    let after = rax(&sim);
    assert_eq!(after[6], 0x41);
    for k in 0..8 {
        if k != 6 {
            assert_eq!(after[k], before[k]);
        }
    }
    assert_eq!(sim.ip(), 2);
}

#[test]
fn bios_teletype_scenario() {
    let mut sim = Simulator::new(vec![
        mov(reg(RegisterKind::Ah), imm(0x0E)),
        mov(reg(RegisterKind::Al), imm(0x53)),
        Insn::Int(imm(0x10)),
    ]);
    sim.simulate_one().unwrap();
    assert_eq!(rax(&sim)[7], 0x0E);
    sim.simulate_one().unwrap();
    assert_eq!(rax(&sim)[6], 0x53);
    assert_eq!(rax(&sim)[7], 0x0E);
    assert_eq!(sim.simulate_one(), Err(SimError::UnimplementedCapability));
    assert_eq!(sim.ip(), 2);
    assert_eq!(sim.simulate_one(), Err(SimError::UnimplementedCapability));
    assert_eq!(sim.ip(), 2);
    assert_eq!(rax(&sim), [0, 0, 0, 0, 0, 0, 0x53, 0x0E]);
}

#[test]
fn empty_program_is_out_of_range() {
    let mut sim = Simulator::new(Vec::new());
    assert_eq!(sim.simulate_one(), Err(SimError::OutOfRange));
    assert_eq!(sim.ip(), 0);
    for c in [Cell::Rax, Cell::Rbx, Cell::Rcx, Cell::Rdx, Cell::Rsi, Cell::Rdi, Cell::Rsp, Cell::Rbp] {
        assert_eq!(sim.registers().cell(c), [0u8; 8]);
    }
}

#[test]
fn running_off_the_end_halts() {
    let mut sim = Simulator::new(vec![mov(reg(RegisterKind::Rbx), imm(7))]);
    sim.simulate_one().unwrap();
    assert_eq!(sim.simulate_one(), Err(SimError::OutOfRange));
    assert_eq!(sim.ip(), 1);
    assert_eq!(sim.registers().cell(Cell::Rbx), [7, 0, 0, 0, 0, 0, 0, 0]);
}

#[test]
fn full_register_move_writes_little_endian_bytes() {
    let mut sim = Simulator::new(vec![mov(reg(RegisterKind::Rdx), imm(0x0102_0304_0506_0708))]);
    sim.simulate_one().unwrap();
    assert_eq!(sim.registers().cell(Cell::Rdx), [8, 7, 6, 5, 4, 3, 2, 1]);
    assert_eq!(rax(&sim), [0u8; 8]);
}

#[test]
fn byte_alias_write_shows_in_full_register() {
    let mut sim = Simulator::new(vec![
        mov(reg(RegisterKind::Rax), imm(0xFFFF_FFFF_FFFF_FFFF)),
        mov(reg(RegisterKind::Ah), imm(0x12)),
        mov(reg(RegisterKind::Rcx), reg(RegisterKind::Rax)),
    ]);
    for _ in 0..3 {
        sim.simulate_one().unwrap();
    }
    let expected = [0xFF, 0xFF, 0xFF, 0xFF, 0xFF, 0xFF, 0xFF, 0x12];
    assert_eq!(rax(&sim), expected);
    assert_eq!(sim.registers().cell(Cell::Rcx), expected);
}

#[test]
fn full_write_shows_in_byte_aliases() {
    let mut sim = Simulator::new(vec![mov(reg(RegisterKind::Rax), imm(0xABCD_0000_0000_0000))]);
    sim.simulate_one().unwrap();
    let al = sim.get_src(reg(RegisterKind::Al)).unwrap();
    let ah = sim.get_src(reg(RegisterKind::Ah)).unwrap();
    assert_eq!(al.as_slice(), &[0xCDu8][..]);
    assert_eq!(ah.as_slice(), &[0xABu8][..]);
    let whole = sim.get_src(reg(RegisterKind::Rax)).unwrap();
    assert_eq!(whole.as_slice(), &[0, 0, 0, 0, 0, 0, 0xCD, 0xAB][..]);
}

#[test]
fn full_register_into_byte_alias_copies_first_byte() {
    let mut sim = Simulator::new(vec![
        mov(reg(RegisterKind::Rsi), imm(0x0000_0000_0000_3377)),
        mov(reg(RegisterKind::Al), reg(RegisterKind::Rsi)),
        mov(reg(RegisterKind::Rdi), reg(RegisterKind::Al)),
    ]);
    for _ in 0..3 {
        sim.simulate_one().unwrap();
    }
    assert_eq!(rax(&sim), [0, 0, 0, 0, 0, 0, 0x77, 0]);
    assert_eq!(sim.registers().cell(Cell::Rdi), [0x77, 0, 0, 0, 0, 0, 0, 0]);
}

#[test]
fn unsupported_register_fails_without_change() {
    let mut sim = Simulator::new(vec![mov(reg(RegisterKind::Unmapped(Register::BL)), imm(1))]);
    assert_eq!(sim.simulate_one(), Err(SimError::UnsupportedRegister(Register::BL)));
    assert_eq!(sim.ip(), 0);
    assert_eq!(sim.registers().cell(Cell::Rbx), [0u8; 8]);
    let mut sim = Simulator::new(vec![mov(reg(RegisterKind::Rax), reg(RegisterKind::Unmapped(Register::ECX)))]);
    assert_eq!(sim.simulate_one(), Err(SimError::UnsupportedRegister(Register::ECX)));
    assert_eq!(sim.ip(), 0);
}

#[test]
fn immediate_destination_is_invalid() {
    let mut sim = Simulator::new(vec![mov(imm(3), imm(4))]);
    assert_eq!(sim.simulate_one(), Err(SimError::InvalidDestination));
    assert_eq!(sim.ip(), 0);
    assert_eq!(sim.get_dest(imm(3)), Err(SimError::InvalidDestination));
}

#[test]
fn destination_windows() {
    let sim = Simulator::new(Vec::new());
    let al = sim.get_dest(reg(RegisterKind::Al)).unwrap();
    assert_eq!((al.cell, al.offset, al.width), (Cell::Rax, 6, 1));
    let ah = sim.get_dest(reg(RegisterKind::Ah)).unwrap();
    assert_eq!((ah.cell, ah.offset, ah.width), (Cell::Rax, 7, 1));
    let rbp = sim.get_dest(reg(RegisterKind::Rbp)).unwrap();
    assert_eq!((rbp.cell, rbp.offset, rbp.width), (Cell::Rbp, 0, 8));
}

#[test]
fn steps_are_deterministic() {
    let program = vec![
        mov(reg(RegisterKind::Rsp), imm(0x7C00)),
        mov(reg(RegisterKind::Rbp), reg(RegisterKind::Rsp)),
        mov(reg(RegisterKind::Al), imm(0x55)),
        mov(reg(RegisterKind::Rbx), reg(RegisterKind::Rax)),
        Insn::Int(imm(0x10)),
    ];
    let mut a = Simulator::new(program.clone());
    let mut b = Simulator::new(program);
    for _ in 0..6 {
        assert_eq!(a.simulate_one(), b.simulate_one());
        assert_eq!(a.ip(), b.ip());
        for c in [Cell::Rax, Cell::Rbx, Cell::Rcx, Cell::Rdx, Cell::Rsi, Cell::Rdi, Cell::Rsp, Cell::Rbp] {
            assert_eq!(a.registers().cell(c), b.registers().cell(c));
        }
    }
    assert_eq!(a.ip(), 4);
    assert_eq!(a.registers().cell(Cell::Rbp), [0x00, 0x7C, 0, 0, 0, 0, 0, 0]);
}

#[test]
fn text_buffer_starts_empty() {
    let sim = Simulator::new(Vec::new());
    assert_eq!(sim.text_buffer(), "");
}
