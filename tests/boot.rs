use bios_sim::{boot_sector, fill, gen_mbr};
use iced_x86::code_asm::asm_traits::{CodeAsmInt, CodeAsmMov};
use bios_sim::ImageError;
use iced_x86::code_asm::{ah, al, CodeAssembler};

#[test]
fn fill_pads_short_vectors() {
    let mut v = vec![1u8, 2, 3];
    fill(&mut v, 6, 9);
    assert_eq!(v, vec![1, 2, 3, 9, 9, 9]);
}

#[test]
fn fill_keeps_long_vectors() {
    let mut v = vec![1u8, 2, 3];
    fill(&mut v, 2, 9);
    assert_eq!(v, vec![1, 2, 3]);
    fill(&mut v, 3, 9);
    assert_eq!(v, vec![1, 2, 3]);
}

#[test]
fn boot_sector_has_signature() {
    let bs = boot_sector(vec![0xB4, 0x0E]);
    assert_eq!(bs.len(), 512);
    assert_eq!(&bs[..2], &[0xB4, 0x0E]);
    assert!(bs[2..510].iter().all(|&b| b == 0));
    assert_eq!(bs[510], 0x55);
    assert_eq!(bs[511], 0xAA);
}

#[test]
fn gen_mbr_assembles_and_signs() {
    let mut a = CodeAssembler::new(16).unwrap();
    a.mov(ah, 0x0E).unwrap();
    a.mov(al, 0x53).unwrap();
    a.int(0x10).unwrap();
    let bs = gen_mbr(a).unwrap();
    assert_eq!(bs.len(), 512);
    assert_eq!(&bs[..6], &[0xB4, 0x0E, 0xB0, 0x53, 0xCD, 0x10]);
    assert_eq!(&bs[510..], &[0x55, 0xAA]);
}

#[test]
fn gen_mbr_passes_on_assembler_errors() {
    let mut a = CodeAssembler::new(16).unwrap();
    let mut label = a.create_label();
    a.set_label(&mut label).unwrap();
    // a label that never labels an instruction
    assert!(matches!(gen_mbr(a), Err(ImageError::Assembly(_))));
}

#[test]
fn gen_mbr_keeps_long_code() {
    let mut a = CodeAssembler::new(16).unwrap();
    for _ in 0..300 {
        a.mov(al, 0x53).unwrap();
    }
    let bs = gen_mbr(a).unwrap();
    assert_eq!(bs.len(), 600);
    assert_eq!(&bs[508..512], &[0xB0, 0x53, 0x55, 0xAA]);
    assert_eq!(&bs[512..514], &[0xB0, 0x53]);
}
