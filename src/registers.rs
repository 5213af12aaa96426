use crate::bytes::{byte_at, byte_count, byte_list, bytes_from_array, bytes_from_byte};
use arrayvec::ArrayVec;
use vstd::prelude::*;

verus! {

/// A register of the decoder's naming, as the register file sees it: a full
/// 64-bit register, one of the accumulator's byte aliases, or one that it
/// does not lay out.
#[derive(Clone, Copy, Debug, PartialEq, Eq)]
pub enum RegisterKind {
    Rax,
    Rbx,
    Rcx,
    Rdx,
    Rsi,
    Rdi,
    Rsp,
    Rbp,
    Ah,
    Al,
    Unmapped(iced_x86::Register),
}

/// One of the eight 8-byte storage cells.
#[derive(Clone, Copy, Debug, PartialEq, Eq)]
pub enum Cell {
    Rax,
    Rbx,
    Rcx,
    Rdx,
    Rsi,
    Rdi,
    Rsp,
    Rbp,
}

impl Cell {
    /// The cell's position in the register file's view.
    pub open spec fn index(self) -> int {
        match self {
            Cell::Rax => 0,
            Cell::Rbx => 1,
            Cell::Rcx => 2,
            Cell::Rdx => 3,
            Cell::Rsi => 4,
            Cell::Rdi => 5,
            Cell::Rsp => 6,
            Cell::Rbp => 7,
        }
    }
}

/// A window of a cell's bytes: `width` bytes from `offset`.
#[derive(Clone, Copy, Debug, PartialEq, Eq)]
pub struct Alias {
    pub cell: Cell,
    pub offset: usize,
    pub width: usize,
}

impl Alias {
    /// A whole cell, or a single byte of one.
    pub open spec fn wf(self) -> bool {
        (self.offset == 0 && self.width == 8) || (self.offset < 8 && self.width == 1)
    }
}

/// The layout table: the window that each register kind names.
pub open spec fn alias_spec(k: RegisterKind) -> Option<Alias> {
    match k {
        RegisterKind::Rax => Some(Alias { cell: Cell::Rax, offset: 0, width: 8 }),
        RegisterKind::Rbx => Some(Alias { cell: Cell::Rbx, offset: 0, width: 8 }),
        RegisterKind::Rcx => Some(Alias { cell: Cell::Rcx, offset: 0, width: 8 }),
        RegisterKind::Rdx => Some(Alias { cell: Cell::Rdx, offset: 0, width: 8 }),
        RegisterKind::Rsi => Some(Alias { cell: Cell::Rsi, offset: 0, width: 8 }),
        RegisterKind::Rdi => Some(Alias { cell: Cell::Rdi, offset: 0, width: 8 }),
        RegisterKind::Rsp => Some(Alias { cell: Cell::Rsp, offset: 0, width: 8 }),
        RegisterKind::Rbp => Some(Alias { cell: Cell::Rbp, offset: 0, width: 8 }),
        RegisterKind::Ah => Some(Alias { cell: Cell::Rax, offset: 7, width: 1 }),
        RegisterKind::Al => Some(Alias { cell: Cell::Rax, offset: 6, width: 1 }),
        RegisterKind::Unmapped(_) => None,
    }
}

/// Looks a register kind up in the layout table.
pub fn alias_of(k: RegisterKind) -> (r: Option<Alias>)
    ensures
        r == alias_spec(k),
        r matches Some(a) ==> a.wf(),
{
    match k {
        RegisterKind::Rax => Some(Alias { cell: Cell::Rax, offset: 0, width: 8 }),
        RegisterKind::Rbx => Some(Alias { cell: Cell::Rbx, offset: 0, width: 8 }),
        RegisterKind::Rcx => Some(Alias { cell: Cell::Rcx, offset: 0, width: 8 }),
        RegisterKind::Rdx => Some(Alias { cell: Cell::Rdx, offset: 0, width: 8 }),
        RegisterKind::Rsi => Some(Alias { cell: Cell::Rsi, offset: 0, width: 8 }),
        RegisterKind::Rdi => Some(Alias { cell: Cell::Rdi, offset: 0, width: 8 }),
        RegisterKind::Rsp => Some(Alias { cell: Cell::Rsp, offset: 0, width: 8 }),
        RegisterKind::Rbp => Some(Alias { cell: Cell::Rbp, offset: 0, width: 8 }),
        RegisterKind::Ah => Some(Alias { cell: Cell::Rax, offset: 7, width: 1 }),
        RegisterKind::Al => Some(Alias { cell: Cell::Rax, offset: 6, width: 1 }),
        RegisterKind::Unmapped(_) => None,
    }
}

/// `cell` with `bytes` written over it from `offset`; the bytes outside that
/// window are kept.
pub open spec fn overwrite(cell: Seq<u8>, offset: int, bytes: Seq<u8>) -> Seq<u8> {
    Seq::new(
        cell.len(),
        |k: int|
            if offset <= k < offset + bytes.len() {
                bytes[k - offset]
            } else {
                cell[k]
            },
    )
}

/// A register file of well-formed shape: eight cells of eight bytes.
pub open spec fn cells_wf(regs: Seq<Seq<u8>>) -> bool {
    regs.len() == 8 && forall|c: int| 0 <= c < 8 ==> (#[trigger] regs[c]).len() == 8
}

/// The bytes that an alias reads.
pub open spec fn read_alias(regs: Seq<Seq<u8>>, a: Alias) -> Seq<u8> {
    regs[a.cell.index()].subrange(a.offset as int, a.offset + a.width)
}

/// The register file after writing through an alias: as many leading bytes of
/// `bytes` as the window holds are copied into it.
pub open spec fn write_alias(regs: Seq<Seq<u8>>, a: Alias, bytes: Seq<u8>) -> Seq<Seq<u8>> {
    let n = if bytes.len() < a.width { bytes.len() } else { a.width as nat };
    regs.update(
        a.cell.index(),
        overwrite(regs[a.cell.index()], a.offset as int, bytes.take(n as int)),
    )
}

/// Writing one byte through a byte alias, then reading the whole register of
/// its cell, shows that byte at the alias's position and every other byte as
/// it was; the other cells are untouched.
pub proof fn lemma_byte_alias_write(regs: Seq<Seq<u8>>, k: RegisterKind, b: u8)
    requires
        cells_wf(regs),
        alias_spec(k) matches Some(a) && a.width == 1,
    ensures
        ({
            let a = alias_spec(k)->Some_0;
            let whole = Alias { cell: a.cell, offset: 0, width: 8 };
            let after = write_alias(regs, a, seq![b]);
            &&& read_alias(after, whole) == read_alias(regs, whole).update(a.offset as int, b)
            &&& forall|c: int| 0 <= c < 8 && c != a.cell.index() ==> after[c] == regs[c]
        }),
{
    let a = alias_spec(k)->Some_0;
    let whole = Alias { cell: a.cell, offset: 0, width: 8 };
    let after = write_alias(regs, a, seq![b]);
    assert(seq![b].take(1) =~= seq![b]);
    assert(read_alias(after, whole) =~= read_alias(regs, whole).update(a.offset as int, b));
}

/// Writing a whole register, then reading any alias of its cell, shows
/// exactly the written bytes of the alias's window.
pub proof fn lemma_full_write_alias_read(
    regs: Seq<Seq<u8>>,
    full: RegisterKind,
    bytes: Seq<u8>,
    k: RegisterKind,
)
    requires
        cells_wf(regs),
        alias_spec(full) matches Some(w) && w.width == 8,
        bytes.len() == 8,
        alias_spec(k) matches Some(a) && a.cell == alias_spec(full)->Some_0.cell,
    ensures
        ({
            let w = alias_spec(full)->Some_0;
            let a = alias_spec(k)->Some_0;
            read_alias(write_alias(regs, w, bytes), a) == bytes.subrange(
                a.offset as int,
                a.offset + a.width,
            )
        }),
{
    let w = alias_spec(full)->Some_0;
    let a = alias_spec(k)->Some_0;
    assert(bytes.take(8) =~= bytes);
    assert(read_alias(write_alias(regs, w, bytes), a) =~= bytes.subrange(
        a.offset as int,
        a.offset + a.width,
    ));
}

/// Eight general-purpose registers, each kept as eight bytes.
pub struct Registers {
    rax: [u8; 8],
    rbx: [u8; 8],
    rcx: [u8; 8],
    rdx: [u8; 8],
    rsi: [u8; 8],
    rdi: [u8; 8],
    rsp: [u8; 8],
    rbp: [u8; 8],
}

impl View for Registers {
    type V = Seq<Seq<u8>>;

    closed spec fn view(&self) -> Seq<Seq<u8>> {
        seq![self.rax@, self.rbx@, self.rcx@, self.rdx@, self.rsi@, self.rdi@, self.rsp@, self.rbp@]
    }
}

impl Registers {
    /// Every cell holds eight bytes.
    pub proof fn lemma_wf(&self)
        ensures
            cells_wf(self@),
    {
        assert(self.rax@.len() == 8 && self.rbx@.len() == 8 && self.rcx@.len() == 8);
        assert(self.rdx@.len() == 8 && self.rsi@.len() == 8 && self.rdi@.len() == 8);
        assert(self.rsp@.len() == 8 && self.rbp@.len() == 8);
    }

    /// Every cell zeroed.
    pub fn new() -> (r: Self)
        ensures
            cells_wf(r@),
            forall|c: int, k: int| 0 <= c < 8 && 0 <= k < 8 ==> #[trigger] r@[c][k] == 0u8,
    {
        Self {
            rax: [0; 8],
            rbx: [0; 8],
            rcx: [0; 8],
            rdx: [0; 8],
            rsi: [0; 8],
            rdi: [0; 8],
            rsp: [0; 8],
            rbp: [0; 8],
        }
    }

    /// The bytes of one cell.
    pub fn cell(&self, c: Cell) -> (r: [u8; 8])
        ensures
            r@ == self@[c.index()],
    {
        match c {
            Cell::Rax => self.rax,
            Cell::Rbx => self.rbx,
            Cell::Rcx => self.rcx,
            Cell::Rdx => self.rdx,
            Cell::Rsi => self.rsi,
            Cell::Rdi => self.rdi,
            Cell::Rsp => self.rsp,
            Cell::Rbp => self.rbp,
        }
    }

    fn set_byte(&mut self, c: Cell, k: usize, b: u8)
        requires
            k < 8,
        ensures
            final(self)@ == old(self)@.update(c.index(), old(self)@[c.index()].update(k as int, b)),
    {
        match c {
            Cell::Rax => self.rax[k] = b,
            Cell::Rbx => self.rbx[k] = b,
            Cell::Rcx => self.rcx[k] = b,
            Cell::Rdx => self.rdx[k] = b,
            Cell::Rsi => self.rsi[k] = b,
            Cell::Rdi => self.rdi[k] = b,
            Cell::Rsp => self.rsp[k] = b,
            Cell::Rbp => self.rbp[k] = b,
        }
        assert(final(self)@ =~= old(self)@.update(c.index(), old(self)@[c.index()].update(k as int, b)));
    }

    /// The bytes that an alias reads: the whole cell, or its one byte.
    pub fn read(&self, a: Alias) -> (r: ArrayVec<u8, 8>)
        requires
            a.wf(),
        ensures
            byte_list(r) == read_alias(self@, a),
    {
        let cell = self.cell(a.cell);
        if a.width == 8 {
            assert(cell@ =~= read_alias(self@, a));
            bytes_from_array(cell)
        } else {
            let r = bytes_from_byte(cell[a.offset]);
            assert(seq![cell@[a.offset as int]] =~= read_alias(self@, a));
            r
        }
    }

    /// Writes through an alias; every byte outside its window is kept.
    pub fn write(&mut self, a: Alias, src: &ArrayVec<u8, 8>)
        requires
            a.wf(),
        ensures
            final(self)@ == write_alias(old(self)@, a, byte_list(*src)),
    {
        let len = byte_count(src);
        let n = if len < a.width { len } else { a.width };
        let ghost bytes = byte_list(*src).take(n as int);
        let ghost start = old(self)@;
        proof {
            self.lemma_wf();
            assert(overwrite(start[a.cell.index()], a.offset as int, bytes.take(0)) =~= start[a.cell.index()]);
            assert(start.update(a.cell.index(), start[a.cell.index()]) =~= start);
        }
        let mut k: usize = 0;
        while k < n
            invariant
                a.wf(),
                n <= a.width,
                n <= byte_list(*src).len(),
                bytes == byte_list(*src).take(n as int),
                k <= n,
                cells_wf(start),
                self@ == start.update(
                    a.cell.index(),
                    overwrite(start[a.cell.index()], a.offset as int, bytes.take(k as int)),
                ),
            decreases n - k,
        {
            let b = byte_at(src, k);
            proof { self.lemma_wf(); }
            self.set_byte(a.cell, a.offset + k, b);
            assert(overwrite(start[a.cell.index()], a.offset as int, bytes.take(k as int)).update(
                a.offset + k,
                b,
            ) =~= overwrite(start[a.cell.index()], a.offset as int, bytes.take(k + 1)));
            k = k + 1;
        }
        assert(bytes.take(n as int) =~= bytes);
    }
}

} // verus!
