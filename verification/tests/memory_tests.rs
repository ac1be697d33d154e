use patina::cpu::{CoreMemory, Listener, CPU};
use patina::mapper::Mapper;
use patina::ppu::NametableMirroring;
use patina::rom::Rom;

/// Program memory from 0x8000 up, readable and writable; everything else reads 0.
pub struct TestMapper {
    memory: Vec<u8>,
}

impl TestMapper {
    pub fn new() -> Self {
        TestMapper { memory: vec![0; 0x8000] }
    }
}

impl Mapper for TestMapper {
    fn wf(&self) -> bool {
        self.memory.len() == 0x8000
    }

    fn prg_readable(&self, _address: u16) -> bool {
        true
    }

    fn prg_value(&self, address: u16) -> u8 {
        self.read_prg(address)
    }

    fn prg_writable(&self, address: u16, _value: u8) -> bool {
        address >= 0x8000
    }

    fn prg_write_result(&self, address: u16, value: u8, post: Self) -> bool {
        post.read_prg(address) == value
    }

    fn chr_readable(&self, _address: u16) -> bool {
        false
    }

    fn chr_value(&self, _address: u16) -> u8 {
        0
    }

    fn chr_writable(&self, _address: u16) -> bool {
        false
    }

    fn chr_write_result(&self, _address: u16, _value: u8, _post: Self) -> bool {
        false
    }

    fn mirroring(&self) -> NametableMirroring {
        NametableMirroring::Horizontal
    }

    fn read_prg(&self, address: u16) -> u8 {
        if address < 0x8000 {
            return 0;
        }
        self.memory[(address - 0x8000) as usize]
    }

    fn write_prg(&mut self, address: u16, value: u8) {
        if address >= 0x8000 {
            self.memory[(address - 0x8000) as usize] = value;
        } else {
            panic!("writing to address test mapper doesn't cover");
        }
    }

    fn read_chr(&self, _address: u16) -> u8 {
        panic!("should never be called")
    }

    fn write_chr(&mut self, _address: u16, _value: u8) {
        panic!("should never be called")
    }

    fn get_nametable_mirroring(&self) -> NametableMirroring {
        panic!("should never be called")
    }
}

fn memory_for_testing() -> CoreMemory<TestMapper> {
    CoreMemory::new_from_mapper(TestMapper::new())
}

fn cpu_for_testing() -> CPU<TestMapper> {
    CPU::new(memory_for_testing())
}

#[test]
fn test_memory() {
    let mut memory = memory_for_testing();

    /* TODO this isn't what open bus should actually do */
    assert_eq!(memory.open_bus(), 0);

    /* writing to the FDS ports has no effect; shouldn't try to go to the test mapper,
     * which will just return 0 on read
     */
    memory.write(0x4030, 0xff);
    assert_eq!(memory.read(0x4030), 0);

    /* test address mapping */
    /* PPU registers repeated up to 0x3fff */
    assert_eq!(memory.map_address(0x30ba), 0x2002);
}

#[test]
fn test_memory_listener() {
    let mut memory = memory_for_testing();

    /* test write: the PPU answers 0x2000 (PPUCTRL) */
    memory.register_listener(Listener::Ppu);
    memory.write(0x2000, 0x32);
    assert_eq!(memory.ppu.ppu_ctrl, 0x32);

    /* test read */
    memory.ppu.ppu_ctrl = 0x64;
    assert_eq!(memory.read(0x2000), 0x64);
}

#[test]
fn test_copy_from_slice() {
    let mut memory = memory_for_testing();

    for i in 0x100..0x200 {
        memory.write(i, (i % 0x100) as u8);
    }

    let mut destination: [u8; 0x100] = [0; 0x100];
    memory.copy_slice(0x0100, 0x0100, &mut destination);

    for i in 0x00..=0xff {
        assert_eq!(destination[i as usize], i);
    }

    /* test we can do this in the mapper, too */
    for i in 0x8000..0x8100 {
        memory.write(i, ((i % 0x100) as u8).wrapping_sub(5));
    }
    memory.copy_slice(0x8000, 0x0100, &mut destination);
    for i in 0x00..=0xffu8 {
        assert_eq!(destination[i as usize], i.wrapping_sub(5));
    }
}

#[test]
fn test_memory_from_rom() {
    let rom = basic_test_rom();
    let mut memory = CoreMemory::new(&rom);
    /* read PRG data */
    assert_eq!(memory.read(0xffff), 0x12);
    assert_eq!(memory.read(0xc000), 0x12);
    assert_eq!(memory.read(0x8000), 0x12);
}

fn basic_test_rom() -> Rom {
    /* simple test for basic NROM case */
    let mut prg_data = Vec::new();
    for _i in 0..(1 << 15) {
        prg_data.push(0x12);
    }
    let mut chr_data = Vec::new();
    for _i in 0..(1 << 13) {
        chr_data.push(0x34);
    }
    Rom {
        prg_data,
        chr_data,
        byte_6_flags: 0, /* NROM */
        byte_7_flags: 0,
        _trainer: vec![],
        _prg_ram: vec![],
        _tv_system: 0,
    }
}

/* a CPU over this memory sees the same bytes */
#[test]
fn cpu_reads_what_memory_holds() {
    let mut memory = memory_for_testing();
    memory.write(0x0042, 0x99);
    let mut cpu = CPU::new(memory);
    assert_eq!(cpu.read_mem(0x0042), 0x99);
    assert_eq!(cpu.read_mem(0x0842), 0x99); /* RAM repeats every 2kB */
}
