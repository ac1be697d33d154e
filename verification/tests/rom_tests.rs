use patina::cpu::CoreMemory;
use patina::mapper::is_supported;
use patina::ppu::NametableMirroring;
use patina::rom::{Rom, RomError};

fn image(prg_banks: u8, chr_banks: u8, flags6: u8, trainer: bool) -> Vec<u8> {
    let mut data = vec![0x4e, 0x45, 0x53, 0x1a, prg_banks, chr_banks, flags6, 0, 0, 1];
    data.resize(16, 0);
    if trainer {
        data.extend(std::iter::repeat(0xaa).take(512));
    }
    for i in 0..(prg_banks as usize * 16384) {
        data.push((i % 200) as u8);
    }
    for _ in 0..(chr_banks as usize * 8192) {
        data.push(0xcc);
    }
    data
}

#[test]
fn parse_reads_header_and_sections() {
    let mut data = image(1, 1, 0x01, false);
    data[7] = 0x10;
    let rom = Rom::parse(&data).unwrap();
    assert_eq!(rom.prg_data.len(), 16384);
    assert_eq!(rom.chr_data.len(), 8192);
    assert_eq!(rom.prg_data[199], 199);
    assert_eq!(rom.prg_data[200], 0);
    assert!(rom.chr_data.iter().all(|b| *b == 0xcc));
    assert_eq!(rom.byte_6_flags, 0x01);
    assert_eq!(rom.byte_7_flags, 0x10);
    assert_eq!(rom._tv_system, 1);
    assert!(rom._trainer.is_empty());
    assert_eq!(rom.nametable_mirroring(), NametableMirroring::Vertical);
    assert_eq!(rom.mapper_number(), 0x10);
}

#[test]
fn parse_skips_trainer() {
    let rom = Rom::parse(&image(2, 0, 0x04, true)).unwrap();
    assert_eq!(rom._trainer.len(), 512);
    assert!(rom._trainer.iter().all(|b| *b == 0xaa));
    assert_eq!(rom.prg_data.len(), 32768);
    assert_eq!(rom.prg_data[0], 0);
    assert_eq!(rom.prg_data[5], 5);
    assert!(rom.chr_data.is_empty());
}

#[test]
fn parse_ignores_trailing_bytes() {
    let mut data = image(1, 0, 0, false);
    data.extend([1, 2, 3]);
    let rom = Rom::parse(&data).unwrap();
    assert_eq!(rom.prg_data.len(), 16384);
}

#[test]
fn parse_rejects_short_input() {
    assert_eq!(Rom::parse(&[0x4e, 0x45, 0x53]).err(), Some(RomError::TooShort));
    assert_eq!(Rom::parse(&[]).err(), Some(RomError::TooShort));
}

#[test]
fn parse_rejects_wrong_signature() {
    let mut data = image(1, 1, 0, false);
    data[3] = 0x1b;
    assert_eq!(Rom::parse(&data).err(), Some(RomError::NotINes));
}

#[test]
fn parse_rejects_truncated_image() {
    let mut data = image(1, 1, 0, false);
    data.pop();
    assert_eq!(Rom::parse(&data).err(), Some(RomError::Truncated));
    /* a trainer announced but missing */
    let data = image(1, 0, 0x04, false);
    assert_eq!(Rom::parse(&data).err(), Some(RomError::Truncated));
}

#[test]
fn supported_images_load() {
    let rom = Rom::parse(&image(1, 1, 0, false)).unwrap();
    assert!(is_supported(0, &rom));
    assert!(is_supported(1, &rom));
    assert!(is_supported(2, &rom));
    assert!(!is_supported(3, &rom));
    /* NROM holds at most 32kb of program */
    let big = Rom::parse(&image(3, 1, 0, false)).unwrap();
    assert!(!is_supported(0, &big));
    assert!(is_supported(1, &big));
    let mut memory = CoreMemory::new(&rom);
    assert_eq!(memory.read(0x8005), 5);
    assert_eq!(memory.read(0xc005), 5);
}
