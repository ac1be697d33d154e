use patina::cpu::controller::CONTROLLER_ADDRESS;
use patina::cpu::{CoreMemory, Listener, CPU};
use patina::mapper::Mapper;
use patina::ppu::PPURegister;
use patina::ppu::PPURegister::OAMDMA;
use patina::ppu::NametableMirroring;

/// Program memory from 0x8000 up, readable and writable; everything else reads 0.
pub struct TestMapper {
    memory: Vec<u8>,
}

impl TestMapper {
    pub fn new() -> Self {
        TestMapper { memory: vec![0; 0x8000] }
    }
}

impl Mapper for TestMapper {
    fn wf(&self) -> bool {
        self.memory.len() == 0x8000
    }

    fn prg_readable(&self, _address: u16) -> bool {
        true
    }

    fn prg_value(&self, address: u16) -> u8 {
        self.read_prg(address)
    }

    fn prg_writable(&self, address: u16, _value: u8) -> bool {
        address >= 0x8000
    }

    fn prg_write_result(&self, address: u16, value: u8, post: Self) -> bool {
        post.read_prg(address) == value
    }

    fn chr_readable(&self, _address: u16) -> bool {
        false
    }

    fn chr_value(&self, _address: u16) -> u8 {
        0
    }

    fn chr_writable(&self, _address: u16) -> bool {
        false
    }

    fn chr_write_result(&self, _address: u16, _value: u8, _post: Self) -> bool {
        false
    }

    fn mirroring(&self) -> NametableMirroring {
        NametableMirroring::Horizontal
    }

    fn read_prg(&self, address: u16) -> u8 {
        if address < 0x8000 {
            return 0;
        }
        self.memory[(address - 0x8000) as usize]
    }

    fn write_prg(&mut self, address: u16, value: u8) {
        if address >= 0x8000 {
            self.memory[(address - 0x8000) as usize] = value;
        } else {
            panic!("writing to address test mapper doesn't cover");
        }
    }

    fn read_chr(&self, _address: u16) -> u8 {
        panic!("should never be called")
    }

    fn write_chr(&mut self, _address: u16, _value: u8) {
        panic!("should never be called")
    }

    fn get_nametable_mirroring(&self) -> NametableMirroring {
        panic!("should never be called")
    }
}

fn memory_for_testing() -> CoreMemory<TestMapper> {
    CoreMemory::new_from_mapper(TestMapper::new())
}

fn cpu_for_testing() -> CPU<TestMapper> {
    CPU::new(memory_for_testing())
}

#[test]
fn test_cpu() {
    let cpu = &mut cpu_for_testing();

    /* simple transition test: can we update via ADC, and a memory read? */
    cpu.accumulator = 0x05;
    cpu.write_mem(0x1234, 0x04); // value we will add
    cpu.index_x = 0x20;
    cpu.write_mem(0x1f, 0x34); // the address stored in zero page memory, lo
    cpu.write_mem(0x20, 0x12); // that address, hi
    cpu.program_counter = 0x8000;
    cpu.write_mem(0x8000, 0x61); // ADC, IndirectX
    cpu.write_mem(0x8001, 0xff); // wrapping add 0xff == subtract 1 from x
    let cycles = cpu.transition();
    assert_eq!(cpu.accumulator, 0x09); // added four to a
    assert_eq!(cycles, 6); // ADC IndirectX takes 6 cycles

    /* test nmi */
    cpu.set_nmi(true);
    assert_eq!(cpu.nmi_set(), true);
    cpu.status = 0;
    cpu.program_counter = 0x8000;
    cpu.s_register = 0x50; // so we can test how it affects stack
    cpu.write_mem(0x8000, 0xea); // NOP, but we won't run it
    cpu.write_mem(0xfffa, 0x00); // NMI handler lo byte
    cpu.write_mem(0xfffb, 0x90); // NMI handler hi byte
    cpu.write_mem(0x9000, 0x4e); // LSR absolute
    cpu.write_mem(0x9001, 0x05); // LSR absolute address to change lo
    cpu.write_mem(0x9002, 0x03); // LSR absolute address to change hi
    cpu.write_mem(0x0305, 0b0011_0011);
    let cycles = cpu.transition();
    assert_eq!(cycles, 6); // NOP takes two cycles, LSR Absolute takes 6
    assert_eq!(cpu.read_mem(0x0305), 0b0001_1001); // LSRed this value
    assert_eq!(cpu.program_counter, 0x9003); // next instruction in hypothetical NMI handler
    assert_eq!(cpu.s_register, 0x4d); // pushed 3 values onto stack
    assert_eq!(cpu.read_mem(0x0150), 0x80); // previous execution address hi byte
    assert_eq!(cpu.read_mem(0x014f), 0x00); // previous execution address lo byte
    assert_eq!(cpu.read_mem(0x014e), 0b0010_0000); // CPU status flags
    assert_eq!(cpu.nmi_set(), false); // when we're done, 'do nmi' flag is turned off

    /* test CPU as processor */
    assert_eq!(cpu.clock_speed(), 1_790_000); /* 1.79 MHz */
}

#[test]
fn test_set_key_source() {
    let mut cpu = cpu_for_testing();

    /* start (Enter) and B (z) held: bits 3 and 1 */
    cpu.set_key_source((1 << 3) | (1 << 1));
    cpu.write_mem(CONTROLLER_ADDRESS, 0x01);
    cpu.write_mem(CONTROLLER_ADDRESS, 0x00);
    assert_eq!(cpu.read_mem(CONTROLLER_ADDRESS), 0); // A
    assert_eq!(cpu.read_mem(CONTROLLER_ADDRESS), 1); // B -- on
    assert_eq!(cpu.read_mem(CONTROLLER_ADDRESS), 0); // select
    assert_eq!(cpu.read_mem(CONTROLLER_ADDRESS), 1); // start -- on
    assert_eq!(cpu.read_mem(CONTROLLER_ADDRESS), 0); // up
    assert_eq!(cpu.read_mem(CONTROLLER_ADDRESS), 0); // down
    assert_eq!(cpu.read_mem(CONTROLLER_ADDRESS), 0); // left
    assert_eq!(cpu.read_mem(CONTROLLER_ADDRESS), 0); // right
    assert_eq!(cpu.read_mem(CONTROLLER_ADDRESS), 1); // always report 1 now
    assert_eq!(cpu.read_mem(CONTROLLER_ADDRESS), 1); // always report 1 now
    assert_eq!(cpu.read_mem(CONTROLLER_ADDRESS), 1); // always report 1 now
}

/* when performing an OAMDMA operation, it should take extra cycles */
#[test]
fn test_oamdma() {
    let addr = PPURegister::address(&OAMDMA);

    let mut memory = memory_for_testing();
    memory.register_listener(Listener::Ppu);

    let mut cpu = CPU::new(memory);

    cpu.write_mem(addr, 0x10);
    cpu.program_counter = 0xfff0;
    cpu.write_mem(0xfff0, 0xe8); // perform the two cycle INX instruction
    assert_eq!(cpu.transition(), 2 + 513); // 513 extra cycles for OAMDMA
}
