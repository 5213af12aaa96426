use iced_x86::code_asm::CodeAssembler;
use iced_x86::IcedError;
use vstd::prelude::*;

verus! {

#[verifier::external_type_specification]
#[verifier::external_body]
pub struct ExCodeAssembler(iced_x86::code_asm::CodeAssembler);

/// Why a boot image could not be made.
#[derive(Debug)]
pub enum ImageError {
    /// The assembler refused its instructions.
    Assembly(IcedError),
}

/// `v` extended with copies of `with` to length `n`; a `v` that is long
/// enough already is kept as it is.
pub open spec fn padded(v: Seq<u8>, n: nat, with: u8) -> Seq<u8> {
    if v.len() < n {
        v + Seq::new((n - v.len()) as nat, |k: int| with)
    } else {
        v
    }
}

/// The boot sector made of `code`: zero-padded to 512 bytes, with the boot
/// signature `0x55 0xAA` in its last two bytes.
pub open spec fn boot_image(code: Seq<u8>) -> Seq<u8> {
    padded(code, 512, 0).update(510, 0x55u8).update(511, 0xAAu8)
}

/// Pads `v` with `with` up to length `n`.
pub fn fill(v: &mut Vec<u8>, n: usize, with: u8)
    ensures
        final(v)@ == padded(old(v)@, n as nat, with),
{
    let ghost start = v@;
    while v.len() < n
        invariant
            start.len() <= v@.len(),
            start.len() < n ==> v@.len() <= n,
            start.len() >= n ==> v@ == start,
            v@ == padded(start, v@.len(), with),
        decreases n - v@.len(),
    {
        v.push(with);
        assert(v@ =~= padded(start, v@.len(), with));
    }
    proof {
        if start.len() < n {
            assert(v@ =~= padded(start, n as nat, with));
        }
    }
}

/// Makes a boot sector of assembled code.
pub fn boot_sector(code: Vec<u8>) -> (r: Vec<u8>)
    ensures
        r@ == boot_image(code@),
{
    let mut bs = code;
    fill(&mut bs, 512, 0);
    bs.set(510, 0x55);
    bs.set(511, 0xAA);
    bs
}

/// What an assembler's instructions assemble to from address `ip`: the
/// machine code, or the assembler's error.
pub uninterp spec fn assembly_of(a: CodeAssembler, ip: u64) -> Result<Seq<u8>, IcedError>;

/// Relies on `CodeAssembler::assemble`: the machine code of the instructions
/// added so far, laid out from address `ip`, or the assembler's error; either
/// depends on those instructions and `ip` alone.
#[verifier::external_body]
fn assemble(a: &mut CodeAssembler, ip: u64) -> (r: Result<Vec<u8>, IcedError>)
    ensures
        match assembly_of(*old(a), ip) {
            Ok(code) => r matches Ok(v) && v@ == code,
            Err(e) => r matches Err(x) && x == e,
        },
{
    a.assemble(ip)
}

/// Assembles the instructions from address 0 and makes a boot sector of them;
/// an assembler error is passed on.
pub fn gen_mbr(a: CodeAssembler) -> (r: Result<Vec<u8>, ImageError>)
    ensures
        match assembly_of(a, 0) {
            Ok(code) => r matches Ok(bs) && bs@ == boot_image(code),
            Err(e) => r matches Err(ImageError::Assembly(x)) && x == e,
        },
{
    let mut a = a;
    match assemble(&mut a, 0) {
        Ok(code) => Ok(boot_sector(code)),
        Err(e) => Err(ImageError::Assembly(e)),
    }
}

} // verus!
