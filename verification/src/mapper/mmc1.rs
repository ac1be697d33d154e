use crate::mapper::bank_array::{lemma_data_banks_positive, lemma_pow2_values, pow2, BankArray};
use crate::mapper::{chr_built_from, chr_image, chr_memory, lemma_window_covers, Mapper, SIZE_16_KB, SIZE_32_KB, SIZE_4_KB, SIZE_8_KB};
use crate::ppu::NametableMirroring;
use crate::rom::Rom;
use vstd::prelude::*;

verus! {

pub const SHIFT_REGISTER_INITIAL_VAL: u8 = 16;

/* TODO does not necessarily correctly handle consecutive cycle writes; this might become
 * an issue if we reach cycle accuracy
 */

/* TODO only implements default MMC1 behavior, does not handle SEROM, SHROM, SH1ROM, etc. */

#[derive(Debug, Clone, Copy, PartialEq, Eq, Structural)]
pub enum PrgRomBankMode {
    Mode32kb,  /* switch 32kb banks, ignoring low bit of bank number */
    Mode16KbFixLower,  /* 16kb banks, 0x8000 fixed to first bank, switch 0xc000 */
    Mode16KbFixUpper,  /* 16kb banks, switch 0x8000, 0xc000 fixed to last bank */
}

/// The MMC1's registers, as the serial port fills them.
#[derive(Debug, Clone, Copy)]
pub struct MMC1Registers {
    pub shift_register: u8,
    pub chr_bank_0: u8,
    pub chr_bank_1: u8,
    pub chr_bank_mode: bool,  /* true == switch two 4kb banks; false == switch single 8kb bank */
    pub prg_bank_mode: PrgRomBankMode,
    pub prg_bank_index: u8,
    pub nametable_mirroring: NametableMirroring,
}

/// The register that the fifth serial write lands in, chosen by the write's address.
pub open spec fn target_register(address: u16) -> int {
    if address < 0xa000 {
        0  /* control */
    } else if address < 0xc000 {
        1  /* CHR bank 0 */
    } else if address < 0xe000 {
        2  /* CHR bank 1 */
    } else {
        3  /* PRG bank */
    }
}

/// What a write of `value` at `address` (0x8000 or above) does to the registers: bit 7
/// resets the serial port and the PRG mode; otherwise bit 0 is shifted in, and the fifth
/// such write copies the five collected bits into the register that the address selects.
pub open spec fn register_write(regs: MMC1Registers, address: u16, value: u8) -> MMC1Registers {
    if value >= 0x80 {
        MMC1Registers {
            shift_register: SHIFT_REGISTER_INITIAL_VAL,
            prg_bank_mode: PrgRomBankMode::Mode16KbFixUpper,
            ..regs
        }
    } else {
        let full = regs.shift_register % 2 == 1;
        let shifted = (regs.shift_register / 2 + (value % 2) * 16) as u8;
        if !full {
            MMC1Registers { shift_register: shifted, ..regs }
        } else if target_register(address) == 0 {
            MMC1Registers {
                shift_register: SHIFT_REGISTER_INITIAL_VAL,
                nametable_mirroring: match shifted % 4 {
                    0 => NametableMirroring::SingleNametable0,
                    1 => NametableMirroring::SingleNametable1,
                    2 => NametableMirroring::Horizontal,
                    _ => NametableMirroring::Vertical,
                },
                prg_bank_mode: match (shifted / 4) % 4 {
                    2 => PrgRomBankMode::Mode16KbFixLower,
                    3 => PrgRomBankMode::Mode16KbFixUpper,
                    _ => PrgRomBankMode::Mode32kb,
                },
                chr_bank_mode: shifted >= 16,
                ..regs
            }
        } else if target_register(address) == 1 {
            MMC1Registers { shift_register: SHIFT_REGISTER_INITIAL_VAL, chr_bank_0: shifted, ..regs }
        } else if target_register(address) == 2 {
            MMC1Registers { shift_register: SHIFT_REGISTER_INITIAL_VAL, chr_bank_1: shifted, ..regs }
        } else {
            MMC1Registers {
                shift_register: SHIFT_REGISTER_INITIAL_VAL,
                prg_bank_index: shifted % 16,
                ..regs
            }
        }
    }
}

/// The serial port: from an empty shift register, four writes (bit 7 clear) change nothing
/// but the shift register, and the fifth loads the register that its address names with
/// bit 0 of the five values, the first value's bit lowest, and empties the shift register
/// again. A fifth write to 0xe000 or above selects PRG bank `v1 + 2 v2 + 4 v3 + 8 v4` (bit 0
/// of each value), dropping the fifth value's bit.
#[verifier::rlimit(30)]
pub proof fn lemma_five_writes(
    r0: MMC1Registers,
    a1: u16,
    v1: u8,
    a2: u16,
    v2: u8,
    a3: u16,
    v3: u8,
    a4: u16,
    v4: u8,
    a5: u16,
    v5: u8,
)
    requires
        r0.shift_register == SHIFT_REGISTER_INITIAL_VAL,
        v1 < 0x80 && v2 < 0x80 && v3 < 0x80 && v4 < 0x80 && v5 < 0x80,
    ensures
        ({
            let r4 = register_write(
                register_write(register_write(register_write(r0, a1, v1), a2, v2), a3, v3),
                a4,
                v4,
            );
            let r5 = register_write(r4, a5, v5);
            let bits = v1 % 2 + 2 * (v2 % 2) + 4 * (v3 % 2) + 8 * (v4 % 2);
            &&& r4 == MMC1Registers { shift_register: (1 + 2 * bits) as u8, ..r0 }
            &&& r5 == register_write(
                MMC1Registers { shift_register: (1 + 2 * bits) as u8, ..r0 },
                a5,
                v5,
            )
            &&& r5.shift_register == SHIFT_REGISTER_INITIAL_VAL
            &&& (a5 >= 0xe000 ==> r5 == MMC1Registers { prg_bank_index: bits as u8, ..r0 })
        }),
{
    let b1 = v1 % 2;
    let b2 = v2 % 2;
    let b3 = v3 % 2;
    let b4 = v4 % 2;
    let r1 = register_write(r0, a1, v1);
    assert(r1 == MMC1Registers { shift_register: (8 + 16 * b1) as u8, ..r0 });
    let r2 = register_write(r1, a2, v2);
    assert(r2 == MMC1Registers { shift_register: (4 + 8 * b1 + 16 * b2) as u8, ..r0 });
    let r3 = register_write(r2, a3, v3);
    assert(r3 == MMC1Registers { shift_register: (2 + 4 * b1 + 8 * b2 + 16 * b3) as u8, ..r0 });
    let r4 = register_write(r3, a4, v4);
    assert(r4 == MMC1Registers {
        shift_register: (1 + 2 * b1 + 4 * b2 + 8 * b3 + 16 * b4) as u8,
        ..r0
    });
}

/// Whether a write completes a register write that changes the PRG banking.
pub open spec fn updates_prg(regs: MMC1Registers, address: u16, value: u8) -> bool {
    value < 0x80 && regs.shift_register % 2 == 1 && (target_register(address) == 0
        || target_register(address) == 3)
}

/// Whether a write completes a register write that changes the CHR banking.
pub open spec fn updates_chr(regs: MMC1Registers, address: u16, value: u8) -> bool {
    value < 0x80 && regs.shift_register % 2 == 1 && target_register(address) <= 2
}

/// The bank size (as a log) and bank offsets that a PRG mode and bank number give over
/// `len` bytes of PRG-ROM.
pub open spec fn prg_layout(mode: PrgRomBankMode, index: u8, len: nat) -> (nat, Seq<usize>) {
    match mode {
        PrgRomBankMode::Mode32kb => (15, seq![((index / 2) as nat * 32768) as usize]),
        PrgRomBankMode::Mode16KbFixLower => (14, seq![0usize, (index as nat * 16384) as usize]),
        PrgRomBankMode::Mode16KbFixUpper => (
            14,
            seq![(index as nat * 16384) as usize, (len - 16384) as usize],
        ),
    }
}

/// The PRG bank that the registers select exists in `len` bytes of PRG-ROM.
pub open spec fn prg_fits(regs: MMC1Registers, len: nat) -> bool {
    match regs.prg_bank_mode {
        PrgRomBankMode::Mode32kb => len % 32768 == 0 && (regs.prg_bank_index / 2) as nat * 32768
            < len,
        _ => regs.prg_bank_index as nat * 16384 < len,
    }
}

/// The CHR banks that the registers select exist in `len` bytes of CHR memory.
pub open spec fn chr_fits(regs: MMC1Registers, len: nat) -> bool {
    if regs.chr_bank_mode {
        regs.chr_bank_0 as nat * 4096 < len && regs.chr_bank_1 as nat * 4096 < len
    } else {
        (regs.chr_bank_0 / 2) as nat * 8192 < len
    }
}

/// The CHR bank size (as a log) and offsets that the CHR registers give over `len` bytes.
pub open spec fn chr_layout(four_kb: bool, bank_0: u8, bank_1: u8, len: nat) -> (nat, Seq<usize>) {
    if four_kb {
        (12, seq![(bank_0 as nat * 4096) as usize, (bank_1 as nat * 4096) as usize])
    } else {
        (13, seq![((bank_0 / 2) as nat * 8192) as usize])
    }
}

/// Mapper 1: a serially loaded register file that selects PRG and CHR banks and the
/// nametable arrangement, plus 8kb of PRG-RAM at 0x6000.
pub struct MMC1 {
    regs: MMC1Registers,
    prg_ram: Vec<u8>,  /* optional RAM; TODO size can only be determined in NES 2.0 ROMs*/
    prg_banks: BankArray,
    chr_banks: BankArray,
}

impl MMC1 {
    pub closed spec fn registers(&self) -> MMC1Registers {
        self.regs
    }

    pub closed spec fn ram(&self) -> Seq<u8> {
        self.prg_ram@
    }

    pub closed spec fn prg(&self) -> BankArray {
        self.prg_banks
    }

    pub closed spec fn chr(&self) -> BankArray {
        self.chr_banks
    }

    /// A write of `value` to the serial port at `address` leaves banks that exist selected.
    pub open spec fn serial_write_fits(&self, address: u16, value: u8) -> bool {
        let regs = register_write(self.registers(), address, value);
        &&& updates_prg(self.registers(), address, value) ==> prg_fits(regs, self.prg().contents().len())
        &&& updates_chr(self.registers(), address, value) ==> chr_fits(regs, self.chr().contents().len())
    }

    pub open spec fn prg_matches_registers(&self) -> bool {
        let layout = prg_layout(
            self.registers().prg_bank_mode,
            self.registers().prg_bank_index,
            self.prg().contents().len(),
        );
        self.prg().size_log() == layout.0 && self.prg().bank_offsets() == layout.1
    }

    pub open spec fn chr_matches_registers(&self) -> bool {
        let layout = chr_layout(
            self.registers().chr_bank_mode,
            self.registers().chr_bank_0,
            self.registers().chr_bank_1,
            self.chr().contents().len(),
        );
        self.chr().size_log() == layout.0 && self.chr().bank_offsets() == layout.1
    }

    /// This is the mapper that `new` builds from `rom`: registers at their power-on values,
    /// the image's PRG data from 0x8000 in the banks they select, its CHR memory in the banks
    /// they select, and 32kb of zeroed PRG-RAM.
    pub open spec fn built_from(&self, rom: &Rom) -> bool {
        &&& self.registers() == (MMC1Registers {
            shift_register: SHIFT_REGISTER_INITIAL_VAL,
            chr_bank_0: 0,
            chr_bank_1: 1,
            chr_bank_mode: false,
            prg_bank_mode: PrgRomBankMode::Mode16KbFixUpper,
            prg_bank_index: 0,
            nametable_mirroring: NametableMirroring::Horizontal,
        })
        &&& self.prg_matches_registers()
        &&& self.chr_matches_registers()
        &&& self.prg().base() == 0x8000
        &&& self.prg().contents() == rom.prg_data@
        &&& self.chr().base() == 0
        &&& self.chr().contents() == chr_image(rom.chr_data@)
        &&& self.ram() == Seq::new(32768, |i: int| 0u8)
    }

    pub fn new(rom: &Rom) -> (r: MMC1)
        requires
            rom.prg_data@.len() > 0,
            rom.prg_data@.len() % pow2(SIZE_16_KB as nat) == 0,
            rom.chr_data@.len() % pow2(SIZE_8_KB as nat) == 0,
        ensures
            r.wf(),
            r.registers() == (MMC1Registers {
                shift_register: SHIFT_REGISTER_INITIAL_VAL,
                chr_bank_0: 0,
                chr_bank_1: 1,
                chr_bank_mode: false,
                prg_bank_mode: PrgRomBankMode::Mode16KbFixUpper,  /* empirically determined default mode */
                prg_bank_index: 0,
                nametable_mirroring: NametableMirroring::Horizontal,
            }),
            r.prg_matches_registers(),
            r.chr_matches_registers(),
            r.prg().contents() == rom.prg_data@,
            r.ram() == Seq::new(32768, |i: int| 0u8),
            r.built_from(rom),
    {
        proof {
            lemma_pow2_values();
        }
        let data = rom.prg_data.clone();
        assert(data@ =~= rom.prg_data@);
        let prg_banks = BankArray::new(0x8000, SIZE_16_KB, data, 2);
        let chr_banks = chr_memory(&rom.chr_data);
        let prg_ram = vec![0u8; 32768];
        assert(prg_ram@ =~= Seq::new(32768, |i: int| 0u8));

        let mut result = MMC1 {
            regs: MMC1Registers {
                shift_register: SHIFT_REGISTER_INITIAL_VAL,
                chr_bank_0: 0,
                chr_bank_1: 1,
                chr_bank_mode: false,
                prg_bank_mode: PrgRomBankMode::Mode16KbFixUpper,
                prg_bank_index: 0,
                nametable_mirroring: NametableMirroring::Horizontal,
            },
            prg_ram,
            prg_banks,
            chr_banks,
        };

        result.update_prg_banks();
        result.update_chr_banks();

        result
    }

    /// Routes a write at 0x8000 or above through the serial port.
    fn listen_for_state_change(&mut self, address: u16, value: u8)
        requires
            old(self).wf(),
            address >= 0x8000,
            old(self).serial_write_fits(address, value),
        ensures
            final(self).wf(),
            final(self).registers() == register_write(old(self).registers(), address, value),
            final(self).ram() == old(self).ram(),
            final(self).prg().contents() == old(self).prg().contents(),
            final(self).chr().contents() == old(self).chr().contents(),
            if updates_prg(old(self).registers(), address, value) {
                final(self).prg_matches_registers()
            } else {
                final(self).prg() == old(self).prg()
            },
            if updates_chr(old(self).registers(), address, value) {
                final(self).chr_matches_registers()
            } else {
                final(self).chr() == old(self).chr()
            },
    {
        proof {
            lemma_data_banks_positive(&self.prg_banks);
            lemma_data_banks_positive(&self.chr_banks);
        }
        /* a write with bit 7 set resets the mapper */
        if value & 0x80 != 0 {
            proof {
                lemma_mmc1_bits(value, 0, 0);
            }
            self.regs.shift_register = SHIFT_REGISTER_INITIAL_VAL;
            self.regs.prg_bank_mode = PrgRomBankMode::Mode16KbFixUpper;
        } else {
            proof {
                lemma_mmc1_bits(value, 0, 0);
            }
            /* the shift register is full when the initial 1 has reached the end */
            let shift_register_full = self.regs.shift_register & 1 != 0;

            /* shift it over, putting the lowest order bit from the write on it */
            let old_shift = self.regs.shift_register;
            proof {
                lemma_mmc1_bits(value, old_shift, 0);
            }
            self.regs.shift_register >>= 1;
            self.regs.shift_register |= (value & 1) << 4;

            /* if we're full, write to the appropriate register, based on where the fifth write
             * occurred, then empty the shift register
             */
            if shift_register_full {
                let shifted = self.regs.shift_register;
                proof {
                    lemma_mmc1_bits(0, 0, shifted);
                }
                /* control register */
                if address < 0xa000 {
                    self.regs.nametable_mirroring = match shifted & 3 {
                        0 => NametableMirroring::SingleNametable0,
                        1 => NametableMirroring::SingleNametable1,
                        2 => NametableMirroring::Horizontal,
                        _ => NametableMirroring::Vertical,
                    };
                    /* bits 2 and 3: PRG-ROM bank mode */
                    self.regs.prg_bank_mode = match (shifted >> 2) & 3 {
                        2 => PrgRomBankMode::Mode16KbFixLower,
                        3 => PrgRomBankMode::Mode16KbFixUpper,
                        _ => PrgRomBankMode::Mode32kb,  /* 0 or 1 */
                    };
                    /* bit 4: CHR-ROM bank mode: 1 == switch 4kb, 0 == switch 8kb */
                    self.regs.chr_bank_mode = shifted & 0x10 != 0;
                    self.regs.shift_register = SHIFT_REGISTER_INITIAL_VAL;
                    self.update_prg_banks();
                    self.update_chr_banks();
                /* CHR bank 0 */
                } else if address < 0xc000 {
                    self.regs.chr_bank_0 = shifted;
                    self.regs.shift_register = SHIFT_REGISTER_INITIAL_VAL;
                    self.update_chr_banks();
                /* CHR bank 1 */
                } else if address < 0xe000 {
                    self.regs.chr_bank_1 = shifted;
                    self.regs.shift_register = SHIFT_REGISTER_INITIAL_VAL;
                    self.update_chr_banks();
                /* PRG bank */
                } else {
                    self.regs.prg_bank_index = shifted & 0xf;
                    self.regs.shift_register = SHIFT_REGISTER_INITIAL_VAL;
                    self.update_prg_banks();
                    /* TODO: bit 4 disables the PRG-RAM chip. In practice, what does that mean? */
                }
            }
        }
    }

    fn update_prg_banks(&mut self)
        requires
            old(self).prg().wf(),
            old(self).prg().base() == 0x8000,
            old(self).prg().contents().len() > 0,
            old(self).prg().contents().len() % 16384 == 0,
            old(self).prg().size_log() == 15 ==> old(self).prg().contents().len() % 32768 == 0,
            old(self).prg().size_log() == 14 ==> old(self).prg().bank_offsets().len() == 2,
            old(self).prg().size_log() == 15 ==> old(self).prg().bank_offsets().len() == 1,
            old(self).prg().size_log() == 14 || old(self).prg().size_log() == 15,
            prg_fits(old(self).registers(), old(self).prg().contents().len()),
        ensures
            final(self).prg_matches_registers(),
            final(self).prg().wf(),
            final(self).prg().base() == 0x8000,
            final(self).prg().contents() == old(self).prg().contents(),
            final(self).registers() == old(self).registers(),
            final(self).ram() == old(self).ram(),
            final(self).chr() == old(self).chr(),
    {
        proof {
            lemma_pow2_values();
            vstd::arithmetic::div_mod::lemma_mod_breakdown(
                self.prg_banks.contents().len() as int,
                16384,
                2,
            );
        }
        let index = self.regs.prg_bank_index;
        match self.regs.prg_bank_mode {
            PrgRomBankMode::Mode32kb => {
                self.prg_banks.change_bank_size(SIZE_32_KB, 1);
                /* first bit ignored in 32kb mode */
                proof {
                    lemma_mmc1_bits(0, 0, index);
                }
                self.prg_banks.set_bank(0, index >> 1);
            },
            PrgRomBankMode::Mode16KbFixLower => {
                self.prg_banks.change_bank_size(SIZE_16_KB, 2);
                self.prg_banks.set_bank(0, 0);
                self.prg_banks.set_bank(1, index);
                proof {
                    vstd::arithmetic::div_mod::lemma_small_mod(
                        0,
                        self.prg_banks.data_banks(),
                    );
                }
            },
            PrgRomBankMode::Mode16KbFixUpper => {
                self.prg_banks.change_bank_size(SIZE_16_KB, 2);
                self.prg_banks.set_bank(0, index);
                proof {
                    lemma_data_banks_positive(&self.prg_banks);
                }
                self.prg_banks.set_bank_from_end(1, -1);
            },
        }
        assert(self.prg().bank_offsets() =~= prg_layout(
            self.registers().prg_bank_mode,
            self.registers().prg_bank_index,
            self.prg().contents().len(),
        ).1);
    }

    fn update_chr_banks(&mut self)
        requires
            old(self).chr().wf(),
            old(self).chr().base() == 0,
            old(self).chr().contents().len() > 0,
            old(self).chr().contents().len() % 8192 == 0,
            old(self).chr().size_log() == 12 ==> old(self).chr().bank_offsets().len() == 2,
            old(self).chr().size_log() == 13 ==> old(self).chr().bank_offsets().len() == 1,
            old(self).chr().size_log() == 12 || old(self).chr().size_log() == 13,
            chr_fits(old(self).registers(), old(self).chr().contents().len()),
        ensures
            final(self).chr_matches_registers(),
            final(self).chr().wf(),
            final(self).chr().base() == 0,
            final(self).chr().contents() == old(self).chr().contents(),
            final(self).registers() == old(self).registers(),
            final(self).ram() == old(self).ram(),
            final(self).prg() == old(self).prg(),
    {
        proof {
            lemma_pow2_values();
            vstd::arithmetic::div_mod::lemma_mod_breakdown(
                self.chr_banks.contents().len() as int,
                4096,
                2,
            );
        }
        if self.regs.chr_bank_mode {
            self.chr_banks.change_bank_size(SIZE_4_KB, 2);
            self.chr_banks.set_bank(0, self.regs.chr_bank_0);
            self.chr_banks.set_bank(1, self.regs.chr_bank_1);
        } else {
            self.chr_banks.change_bank_size(SIZE_8_KB, 1);
            proof {
                lemma_mmc1_bits(0, 0, self.regs.chr_bank_0);
            }
            self.chr_banks.set_bank(0, self.regs.chr_bank_0 >> 1);
        }
        assert(self.chr().bank_offsets() =~= chr_layout(
            self.registers().chr_bank_mode,
            self.registers().chr_bank_0,
            self.registers().chr_bank_1,
            self.chr().contents().len(),
        ).1);
    }

    fn prg_ram_index(&self, address: u16) -> (r: usize)
        requires
            0x6000 <= address < 0x8000,
        ensures
            r == address - 0x6000,
    {
        address as usize - 0x6000
    }
}

impl Mapper for MMC1 {
    closed spec fn wf(&self) -> bool {
        &&& self.prg_ram@.len() == 32768
        &&& self.prg_banks.wf()
        &&& self.prg_banks.base() == 0x8000
        &&& self.prg_banks.contents().len() % 16384 == 0
        &&& self.prg_banks.size_log() == 15 ==> self.prg_banks.contents().len() % 32768 == 0
        &&& (self.prg_banks.size_log() == 14 || self.prg_banks.size_log() == 15)
        &&& self.prg_banks.size_log() == 14 ==> self.prg_banks.bank_offsets().len() == 2
        &&& self.prg_banks.size_log() == 15 ==> self.prg_banks.bank_offsets().len() == 1
        &&& self.chr_banks.wf()
        &&& self.chr_banks.base() == 0
        &&& self.chr_banks.contents().len() % 8192 == 0
        &&& (self.chr_banks.size_log() == 12 || self.chr_banks.size_log() == 13)
        &&& self.chr_banks.size_log() == 12 ==> self.chr_banks.bank_offsets().len() == 2
        &&& self.chr_banks.size_log() == 13 ==> self.chr_banks.bank_offsets().len() == 1
        &&& self.regs.shift_register <= 31
    }

    /// PRG-RAM lies at 0x6000..0x8000, PRG-ROM from 0x8000.
    open spec fn prg_readable(&self, address: u16) -> bool {
        address >= 0x6000
    }

    open spec fn prg_value(&self, address: u16) -> u8 {
        if address < 0x8000 {
            self.ram()[address - 0x6000]
        } else {
            self.prg().value_at(address)
        }
    }

    /// PRG-RAM from 0x6000, the serial port from 0x8000; a write that completes a register
    /// write must leave the registers selecting banks that exist.
    open spec fn prg_writable(&self, address: u16, value: u8) -> bool {
        &&& address >= 0x6000
        &&& address >= 0x8000 ==> self.serial_write_fits(address, value)
    }

    /// Writes below 0x8000 store to PRG-RAM; writes above go to the serial port.
    open spec fn prg_write_result(&self, address: u16, value: u8, post: Self) -> bool {
        if address < 0x8000 {
            &&& post.ram() == self.ram().update(address - 0x6000, value)
            &&& post.registers() == self.registers()
            &&& post.prg() == self.prg()
            &&& post.chr() == self.chr()
        } else {
            &&& post.registers() == register_write(self.registers(), address, value)
            &&& post.ram() == self.ram()
            &&& post.prg().contents() == self.prg().contents()
            &&& post.chr().contents() == self.chr().contents()
            &&& if updates_prg(self.registers(), address, value) {
                post.prg_matches_registers()
            } else {
                post.prg() == self.prg()
            }
            &&& if updates_chr(self.registers(), address, value) {
                post.chr_matches_registers()
            } else {
                post.chr() == self.chr()
            }
        }
    }

    open spec fn chr_readable(&self, address: u16) -> bool {
        address < 0x2000
    }

    open spec fn chr_value(&self, address: u16) -> u8 {
        self.chr().value_at(address)
    }

    open spec fn chr_writable(&self, address: u16) -> bool {
        address < 0x2000
    }

    open spec fn chr_write_result(&self, address: u16, value: u8, post: Self) -> bool {
        &&& post.prg() == self.prg()
        &&& post.ram() == self.ram()
        &&& post.registers() == self.registers()
        &&& post.chr().contents() == self.chr().contents().update(
            self.chr().data_index(address),
            value,
        )
        &&& post.chr().bank_offsets() == self.chr().bank_offsets()
        &&& post.chr().size_log() == self.chr().size_log()
    }

    open spec fn mirroring(&self) -> NametableMirroring {
        self.registers().nametable_mirroring
    }

    fn read_prg(&self, address: u16) -> (r: u8) {
        if address < 0x8000 {
            self.prg_ram[self.prg_ram_index(address)]
        } else {
            proof {
                lemma_pow2_values();
                lemma_window_covers(&self.prg_banks, address);
            }
            self.prg_banks.read(address)
        }
    }

    fn write_prg(&mut self, address: u16, value: u8) {
        /* below 0x8000, it's writing to PRG-RAM, which we assume exists TODO update for NES 2.0 */
        if address < 0x8000 {
            let index = self.prg_ram_index(address);
            self.prg_ram[index] = value;
            assert(self.wf());
        /* otherwise, writing to an MMC1 register */
        } else {
            self.listen_for_state_change(address, value);
            assert(self.wf());
        }
    }

    fn read_chr(&self, address: u16) -> (r: u8) {
        proof {
            lemma_pow2_values();
            lemma_window_covers(&self.chr_banks, address);
        }
        self.chr_banks.read(address)
    }

    fn write_chr(&mut self, address: u16, value: u8) {
        proof {
            lemma_pow2_values();
            lemma_window_covers(&self.chr_banks, address);
        }
        proof {
            self.chr_banks.lemma_index_in_range(address);
        }
        self.chr_banks.write(address, value);
    }

    fn get_nametable_mirroring(&self) -> (r: NametableMirroring) {
        self.regs.nametable_mirroring
    }
}

/// The bit manipulations of the serial port, as arithmetic.
proof fn lemma_mmc1_bits(value: u8, shift: u8, b: u8)
    ensures
        (value & 0x80 != 0) == (value >= 0x80),
        (shift & 1 != 0) == (shift % 2 == 1),
        shift >> 1 == shift / 2,
        value & 1 == value % 2,
        shift <= 31 ==> ((shift >> 1) | ((value & 1) << 4)) == shift / 2 + (value % 2) * 16,
        b & 3 == b % 4,
        (b >> 2) & 3 == (b / 4) % 4,
        b <= 31 ==> (b & 0x10 != 0) == (b >= 16),
        b & 0xf == b % 16,
        b >> 1 == b / 2,
{
    assert(((value & 0x80 != 0) == (value >= 0x80)) && ((shift & 1 != 0) == (shift % 2 == 1)) && (
    shift >> 1 == shift / 2) && (value & 1 == value % 2) && (shift <= 31 ==> ((shift >> 1) | ((
    value & 1) << 4)) == shift / 2 + (value % 2) * 16) && (b & 3 == b % 4) && ((b >> 2) & 3 == (b
        / 4) % 4) && (b <= 31 ==> (b & 0x10 != 0) == (b >= 16)) && (b & 0xf == b % 16) && (b >> 1
        == b / 2)) by (bit_vector);
}

} // verus!
