use crate::mapper::bank_array::{lemma_data_banks_positive, lemma_pow2_values, pow2, BankArray};
use crate::mapper::{lemma_window_covers, Mapper, SIZE_1_KB, SIZE_8_KB};
use crate::ppu::NametableMirroring;
use crate::rom::Rom;
use vstd::prelude::*;

verus! {

/// Bit-level facts about the register writes.
proof fn lemma_mmc3_bits(address: u16, value: u8)
    ensures
        (address & 1 == 0) == (address % 2 == 0),
        (value & 1 != 0) == (value % 2 == 1),
        (value & 0x40 != 0) == ((value / 64) % 2 == 1),
        (value & 0x80 != 0) == (value >= 0x80),
        value & 0x7 == value % 8,
        value & !1u8 == value - value % 2,
{
    assert(((address & 1 == 0) == (address % 2 == 0))
        && ((value & 1 != 0) == (value % 2 == 1))
        && ((value & 0x40 != 0) == ((value / 64) % 2 == 1))
        && ((value & 0x80 != 0) == (value >= 0x80))
        && (value & 0x7 == value % 8)
        && (value & !1u8 == value - value % 2)) by (bit_vector);
}

/// One of the MMC3's eight bank registers: which memory it switches, whether it switches a
/// pair of banks, and which bank slot it controls in each inversion mode.
#[derive(Debug, Clone, Copy, PartialEq, Eq, Structural)]
pub struct NamedBank {
    pub is_chr: bool,
    pub is_double: bool,
    pub regular_mapping: u8,
    pub inverted_mapping: u8,
}

impl NamedBank {
    pub fn new(is_chr: bool, is_double: bool, regular_mapping: u8, inverted_mapping: u8) -> (r:
        NamedBank)
        ensures
            r == (NamedBank { is_chr, is_double, regular_mapping, inverted_mapping }),
    {
        Self { is_chr, is_double, regular_mapping, inverted_mapping }
    }

    pub fn bank_index(&self, invert: bool) -> (r: u8)
        ensures
            r == if invert {
                self.inverted_mapping
            } else {
                self.regular_mapping
            },
    {
        if invert {
            self.inverted_mapping
        } else {
            self.regular_mapping
        }
    }
}

/// The bank registers R0 to R7.
pub open spec fn named_bank_spec(index: u8) -> NamedBank {
    match index {
        0 => NamedBank { is_chr: true, is_double: true, regular_mapping: 0, inverted_mapping: 4 },
        1 => NamedBank { is_chr: true, is_double: true, regular_mapping: 2, inverted_mapping: 6 },
        2 => NamedBank { is_chr: true, is_double: false, regular_mapping: 4, inverted_mapping: 0 },
        3 => NamedBank { is_chr: true, is_double: false, regular_mapping: 5, inverted_mapping: 1 },
        4 => NamedBank { is_chr: true, is_double: false, regular_mapping: 6, inverted_mapping: 2 },
        5 => NamedBank { is_chr: true, is_double: false, regular_mapping: 7, inverted_mapping: 3 },
        6 => NamedBank { is_chr: false, is_double: false, regular_mapping: 0, inverted_mapping: 2 },
        _ => NamedBank { is_chr: false, is_double: false, regular_mapping: 1, inverted_mapping: 1 },
    }
}

pub fn named_bank(index: u8) -> (r: NamedBank)
    requires
        index < 8,
    ensures
        r == named_bank_spec(index),
{
    match index {
        0 => NamedBank::new(true, true, 0, 4),
        1 => NamedBank::new(true, true, 2, 6),
        2 => NamedBank::new(true, false, 4, 0),
        3 => NamedBank::new(true, false, 5, 1),
        4 => NamedBank::new(true, false, 6, 2),
        5 => NamedBank::new(true, false, 7, 3),
        6 => NamedBank::new(false, false, 0, 2),
        _ => NamedBank::new(false, false, 1, 1),
    }
}

/// The MMC3's registers.
#[derive(Debug, Clone, Copy)]
pub struct MMC3Registers {
    pub mirroring: NametableMirroring,
    pub irq_counter: u8,
    pub irq_reload: u8,
    pub irq_enabled: bool,
    pub prg_bank_mode: bool,
    pub chr_a12_inversion: bool,
    pub prg_ram_write_protect: bool,
    pub prg_ram_enabled: bool,
    pub selected_bank: Option<NamedBank>,
}

/// What a write at 0x8000 or above does to the registers; even and odd addresses in each
/// 8kb window reach different registers.
pub open spec fn register_write(regs: MMC3Registers, address: u16, value: u8) -> MMC3Registers {
    let is_even = address % 2 == 0;
    if address < 0xa000 {
        if is_even {
            MMC3Registers {
                chr_a12_inversion: value >= 0x80,
                prg_bank_mode: (value / 64) % 2 == 1,
                selected_bank: Some(named_bank_spec(value % 8)),
                ..regs
            }
        } else {
            regs
        }
    } else if address < 0xc000 {
        if is_even {
            MMC3Registers {
                mirroring: if value % 2 == 1 {
                    NametableMirroring::Vertical
                } else {
                    NametableMirroring::Horizontal
                },
                ..regs
            }
        } else {
            MMC3Registers {
                prg_ram_enabled: (value / 64) % 2 == 1,
                prg_ram_write_protect: value >= 0x80,
                ..regs
            }
        }
    } else if address < 0xe000 {
        if is_even {
            MMC3Registers { irq_reload: value, ..regs }
        } else {
            MMC3Registers { irq_counter: 0, ..regs }
        }
    } else {
        MMC3Registers { irq_enabled: !is_even, ..regs }
    }
}

/// The offset that bank number `value` selects.
pub open spec fn bank_offset(b: BankArray, value: u8) -> usize {
    (value as nat * b.size()) as usize
}

/// A bank-data write of `value` selects banks that exist.
pub open spec fn bank_data_fits(pre: MMC3, value: u8) -> bool {
    match pre.registers().selected_bank {
        None => true,
        Some(nb) => if nb.is_chr {
            if nb.is_double {
                (value - value % 2 + 1) as nat * pre.chr().size() < pre.chr().contents().len()
            } else {
                value as nat * pre.chr().size() < pre.chr().contents().len()
            }
        } else {
            value as nat * pre.prg().size() < pre.prg().contents().len()
        },
    }
}

/// Mapper 4: eight bank registers switching 8kb PRG banks and 1kb/2kb CHR banks, an
/// arrangement register, PRG-RAM protection and a scanline IRQ counter.
pub struct MMC3 {
    prg_ram: Vec<u8>,  /* TODO: optional */
    prg_banks: BankArray,
    chr_banks: BankArray,
    regs: MMC3Registers,
}

pub open spec fn initial_nametable_mirroring_spec(byte_6_flags: u8) -> NametableMirroring {
    if byte_6_flags & 0x8 != 0 {
        NametableMirroring::FourScreen
    } else {
        NametableMirroring::Horizontal
    }
}

pub fn initial_nametable_mirroring(rom: &Rom) -> (r: NametableMirroring)
    ensures
        r == initial_nametable_mirroring_spec(rom.byte_6_flags),
{
    if rom.byte_6_flags & 0x8 != 0 {
        NametableMirroring::FourScreen
    } else {
        NametableMirroring::Horizontal
    }
}

impl MMC3 {
    pub closed spec fn registers(&self) -> MMC3Registers {
        self.regs
    }

    pub closed spec fn ram(&self) -> Seq<u8> {
        self.prg_ram@
    }

    pub closed spec fn prg(&self) -> BankArray {
        self.prg_banks
    }

    pub closed spec fn chr(&self) -> BankArray {
        self.chr_banks
    }

    pub fn new(rom: &Rom) -> (r: Self)
        requires
            rom.prg_data@.len() >= 16384,
            rom.prg_data@.len() % pow2(SIZE_8_KB as nat) == 0,
            rom.chr_data@.len() % pow2(SIZE_1_KB as nat) == 0,
        ensures
            r.wf(),
            r.registers() == (MMC3Registers {
                mirroring: initial_nametable_mirroring_spec(rom.byte_6_flags),
                irq_counter: 0,
                irq_reload: 0,
                irq_enabled: false,
                prg_bank_mode: false,
                chr_a12_inversion: false,
                prg_ram_write_protect: false,
                prg_ram_enabled: true,
                selected_bank: None,
            }),
            r.prg().contents() == rom.prg_data@,
            r.prg().bank_offsets() == seq![
                0usize,
                0usize,
                (rom.prg_data@.len() - 16384) as usize,
                (rom.prg_data@.len() - 8192) as usize,
            ],
            r.ram() == Seq::new(32768, |i: int| 0u8),
    {
        proof {
            lemma_pow2_values();
        }
        let data = rom.prg_data.clone();
        assert(data@ =~= rom.prg_data@);
        let mut prg_banks = BankArray::new(0x8000, SIZE_8_KB, data, 4);
        proof {
            lemma_data_banks_positive(&prg_banks);
            vstd::arithmetic::div_mod::lemma_div_is_ordered(16384, rom.prg_data@.len() as int, 8192);
        }
        prg_banks.set_bank_from_end(2, -2);
        prg_banks.set_bank_from_end(3, -1);
        assert(prg_banks.bank_offsets() =~= seq![
            0usize,
            0usize,
            (rom.prg_data@.len() - 16384) as usize,
            (rom.prg_data@.len() - 8192) as usize,
        ]);

        /* TODO */
        let chr_banks = if rom.chr_data.len() == 0 {
            BankArray::new_ram(0, SIZE_1_KB, SIZE_8_KB, 8)
        } else {
            let chr = rom.chr_data.clone();
            BankArray::new(0, SIZE_1_KB, chr, 8)
        };
        let prg_ram = vec![0u8; 32768];
        assert(prg_ram@ =~= Seq::new(32768, |i: int| 0u8));

        MMC3 {
            prg_ram,
            prg_banks,
            chr_banks,
            regs: MMC3Registers {
                mirroring: initial_nametable_mirroring(&rom),
                irq_counter: 0,
                irq_reload: 0,
                irq_enabled: false,
                prg_bank_mode: false,
                chr_a12_inversion: false,
                selected_bank: None,
                prg_ram_write_protect: false,
                prg_ram_enabled: true,
            },
        }
    }

    fn prg_ram_index(&self, address: u16) -> (r: usize)
        requires
            0x6000 <= address < 0x8000,
        ensures
            r == address - 0x6000,
    {
        address as usize - 0x6000
    }

    fn listen_for_state_change(&mut self, address: u16, value: u8)
        requires
            old(self).wf(),
            address >= 0x8000,
            address < 0xa000 && address % 2 == 1 ==> bank_data_fits(*old(self), value),
        ensures
            final(self).wf(),
            final(self).registers() == register_write(old(self).registers(), address, value),
            final(self).ram() == old(self).ram(),
            bank_data_result(*old(self), address, value, *final(self)),
    {
        let is_even = address & 1 == 0;
        proof {
            lemma_mmc3_bits(address, 0);
        }
        if address >= 0x8000 && address < 0xa000 {
            /* 0x8000-0x9fff even: bank select */
            if is_even {
                self.bank_select(value);
            /* 0x8000-0x9fff odd: bank data */
            } else {
                self.bank_data(value);
            }
        } else if address < 0xc000 {
            /* 0xa000-0xbfff even: nametable arrangement */
            if is_even {
                proof {
                    lemma_mmc3_bits(0, value);
                }
                self.regs.mirroring = if value & 1 != 0 {
                    NametableMirroring::Vertical
                } else {
                    NametableMirroring::Horizontal
                };
            /* 0xa000-0xbfff odd: prg ram protect */
            } else {
                proof {
                    lemma_mmc3_bits(0, value);
                }
                self.regs.prg_ram_enabled = value & 0x40 != 0;
                self.regs.prg_ram_write_protect = value & 0x80 != 0;
            }
        } else if address < 0xe000 {
            /* 0xc000-0xdfff even: irq latch */
            if is_even {
                self.regs.irq_reload = value;
            /* 0xc000-0xdfff odd: irq reload */
            } else {
                self.regs.irq_counter = 0;
            }
        } else {
            /* 0xe000-0xffff even: irq disable */
            /* 0xe000-0xffff odd: irq enable */
            self.regs.irq_enabled = !is_even;
        }
    }

    fn bank_select(&mut self, value: u8)
        ensures
            final(self).registers() == (MMC3Registers {
                chr_a12_inversion: value >= 0x80,
                prg_bank_mode: (value / 64) % 2 == 1,
                selected_bank: Some(named_bank_spec(value % 8)),
                ..old(self).registers()
            }),
            final(self).ram() == old(self).ram(),
            final(self).prg() == old(self).prg(),
            final(self).chr() == old(self).chr(),
    {
        proof {
            lemma_mmc3_bits(0, value);
        }
        let chr_a12_inversion = value & 0x80 != 0;
        if chr_a12_inversion != self.regs.chr_a12_inversion {
            self.regs.chr_a12_inversion = chr_a12_inversion;
        }

        let prg_bank_mode = value & 0x40 != 0;
        if prg_bank_mode != self.regs.prg_bank_mode {
            self.regs.prg_bank_mode = prg_bank_mode;
        }

        /* TODO: if we switch between modes, does everything work correctly? */

        self.regs.selected_bank = Some(named_bank(value & 0x7));
    }

    fn bank_data(&mut self, value: u8)
        requires
            old(self).wf(),
            bank_data_fits(*old(self), value),
        ensures
            final(self).wf(),
            final(self).registers() == old(self).registers(),
            final(self).ram() == old(self).ram(),
            bank_data_effect(*old(self), value, *final(self)),
    {
        proof {
            lemma_data_banks_positive(&self.prg_banks);
            lemma_data_banks_positive(&self.chr_banks);
        }
        if let Some(named_bank) = self.regs.selected_bank {
            if named_bank.is_chr {
                if named_bank.is_double {
                    proof {
                        lemma_mmc3_bits(0, value);
                    }
                    let even_value = value & !1;
                    let index = named_bank.bank_index(self.regs.chr_a12_inversion);
                    proof {
                        let sz = self.chr_banks.size() as int;
                        vstd::arithmetic::mul::lemma_mul_is_distributive_add_other_way(
                            sz,
                            even_value as int,
                            1,
                        );
                    }
                    self.chr_banks.set_bank(index, even_value);
                    self.chr_banks.set_bank(index + 1, even_value + 1);
                } else {
                    self.chr_banks.set_bank(
                        named_bank.bank_index(self.regs.chr_a12_inversion),
                        value,
                    );
                }
            } else {
                self.prg_banks.set_bank(named_bank.bank_index(self.regs.prg_bank_mode), value);
            }
        }
    }

    /// Clocks the scanline counter (on a rising edge of PPU address line 12). Returns whether
    /// the counter reached zero with interrupts enabled, which raises an IRQ.
    pub fn listen_ppu_a12(&mut self) -> (irq: bool)
        ensures
            final(self).registers() == (MMC3Registers {
                irq_counter: if old(self).registers().irq_counter == 0 {
                    old(self).registers().irq_reload
                } else {
                    (old(self).registers().irq_counter - 1) as u8
                },
                ..old(self).registers()
            }),
            irq == (old(self).registers().irq_counter == 1 && old(self).registers().irq_enabled),
            final(self).ram() == old(self).ram(),
            final(self).prg() == old(self).prg(),
            final(self).chr() == old(self).chr(),
    {
        if self.regs.irq_counter == 0 {
            self.regs.irq_counter = self.regs.irq_reload;
            false
        } else {
            self.regs.irq_counter = self.regs.irq_counter - 1;

            self.regs.irq_counter == 0 && self.regs.irq_enabled
        }
    }
}

/// The banks that a bank-data write with `value` switches: the selected register's slot
/// (and the slot after it, for a 2kb CHR register) in the current inversion mode.
pub open spec fn bank_data_effect(pre: MMC3, value: u8, post: MMC3) -> bool {
    &&& post.prg().contents() == pre.prg().contents()
    &&& post.chr().contents() == pre.chr().contents()
    &&& match pre.registers().selected_bank {
        None => post.prg() == pre.prg() && post.chr() == pre.chr(),
        Some(nb) => if nb.is_chr {
            let slot = if pre.registers().chr_a12_inversion {
                nb.inverted_mapping
            } else {
                nb.regular_mapping
            };
            &&& post.prg() == pre.prg()
            &&& post.chr().bank_offsets() == if nb.is_double {
                pre.chr().bank_offsets().update(
                    slot as int,
                    bank_offset(pre.chr(), (value - value % 2) as u8),
                ).update(slot + 1, bank_offset(pre.chr(), (value - value % 2 + 1) as u8))
            } else {
                pre.chr().bank_offsets().update(slot as int, bank_offset(pre.chr(), value))
            }
        } else {
            let slot = if pre.registers().prg_bank_mode {
                nb.inverted_mapping
            } else {
                nb.regular_mapping
            };
            &&& post.chr() == pre.chr()
            &&& post.prg().bank_offsets() == pre.prg().bank_offsets().update(
                slot as int,
                bank_offset(pre.prg(), value),
            )
        },
    }
}

/// Only a bank-data write (odd address in 0x8000..0xa000) switches banks.
pub open spec fn bank_data_result(pre: MMC3, address: u16, value: u8, post: MMC3) -> bool {
    if address < 0xa000 && address % 2 == 1 {
        bank_data_effect(pre, value, post)
    } else {
        post.prg() == pre.prg() && post.chr() == pre.chr()
    }
}

impl Mapper for MMC3 {
    closed spec fn wf(&self) -> bool {
        &&& self.prg_ram@.len() == 32768
        &&& self.prg_banks.wf()
        &&& self.prg_banks.base() == 0x8000
        &&& self.prg_banks.bank_offsets().len() == 4
        &&& self.prg_banks.size_log() == SIZE_8_KB
        &&& self.chr_banks.wf()
        &&& self.chr_banks.base() == 0
        &&& self.chr_banks.bank_offsets().len() == 8
        &&& self.chr_banks.size_log() == SIZE_1_KB
        &&& (self.regs.selected_bank matches Some(nb) ==> {
            &&& nb.regular_mapping < 8
            &&& nb.inverted_mapping < 8
            &&& (nb.is_double ==> nb.regular_mapping < 7 && nb.inverted_mapping < 7)
            &&& (!nb.is_chr ==> nb.regular_mapping < 4 && nb.inverted_mapping < 4)
        })
    }

    /// Reads below 0x6000 return 0; PRG-RAM reads return 0 while the RAM is disabled.
    open spec fn prg_readable(&self, address: u16) -> bool {
        true
    }

    open spec fn prg_value(&self, address: u16) -> u8 {
        if address < 0x6000 {
            0
        } else if address < 0x8000 {
            if self.registers().prg_ram_enabled {
                self.ram()[address - 0x6000]
            } else {
                0
            }
        } else {
            self.prg().value_at(address)
        }
    }

    /// PRG-RAM from 0x6000, the registers from 0x8000; a bank-data write must select banks
    /// that exist.
    open spec fn prg_writable(&self, address: u16, value: u8) -> bool {
        &&& address >= 0x6000
        &&& 0x8000 <= address < 0xa000 && address % 2 == 1 ==> bank_data_fits(*self, value)
    }

    /// PRG-RAM writes are dropped while the RAM is write protected; writes at 0x8000 and
    /// above reach the registers.
    open spec fn prg_write_result(&self, address: u16, value: u8, post: Self) -> bool {
        if address < 0x8000 {
            &&& post.ram() == if self.registers().prg_ram_write_protect {
                self.ram()
            } else {
                self.ram().update(address - 0x6000, value)
            }
            &&& post.registers() == self.registers()
            &&& post.prg() == self.prg()
            &&& post.chr() == self.chr()
        } else {
            &&& post.registers() == register_write(self.registers(), address, value)
            &&& post.ram() == self.ram()
            &&& bank_data_result(*self, address, value, post)
        }
    }

    open spec fn chr_readable(&self, address: u16) -> bool {
        address < 0x2000
    }

    open spec fn chr_value(&self, address: u16) -> u8 {
        self.chr().value_at(address)
    }

    open spec fn chr_writable(&self, address: u16) -> bool {
        address < 0x2000
    }

    open spec fn chr_write_result(&self, address: u16, value: u8, post: Self) -> bool {
        &&& post.prg() == self.prg()
        &&& post.ram() == self.ram()
        &&& post.registers() == self.registers()
        &&& post.chr().contents() == self.chr().contents().update(
            self.chr().data_index(address),
            value,
        )
        &&& post.chr().bank_offsets() == self.chr().bank_offsets()
    }

    open spec fn mirroring(&self) -> NametableMirroring {
        self.registers().mirroring
    }

    fn read_prg(&self, address: u16) -> (r: u8) {
        if address < 0x6000 {
            return 0;
        }
        /* TODO later: seriously clean this up, prg_ram should be split out better */
        if address < 0x8000 {
            if self.regs.prg_ram_enabled {
                self.prg_ram[self.prg_ram_index(address)]
            } else {
                0  /* TODO open bus */
            }
        } else {
            proof {
                lemma_pow2_values();
                lemma_window_covers(&self.prg_banks, address);
            }
            self.prg_banks.read(address)
        }
    }

    fn write_prg(&mut self, address: u16, value: u8) {
        if address < 0x8000 {
            if !self.regs.prg_ram_write_protect {
                let index = self.prg_ram_index(address);
                self.prg_ram[index] = value;
            }
        } else {
            self.listen_for_state_change(address, value);
        }
    }

    fn read_chr(&self, address: u16) -> (r: u8) {
        proof {
            lemma_pow2_values();
            lemma_window_covers(&self.chr_banks, address);
        }
        self.chr_banks.read(address)
    }

    fn write_chr(&mut self, address: u16, value: u8) {
        proof {
            lemma_pow2_values();
            lemma_window_covers(&self.chr_banks, address);
            self.chr_banks.lemma_index_in_range(address);
        }
        self.chr_banks.write(address, value);
        assert(self.chr().contents().len() == old(self).chr().contents().len());
        assert(self.chr().size() == old(self).chr().size());
    }

    fn get_nametable_mirroring(&self) -> (r: NametableMirroring) {
        self.regs.mirroring
    }

    fn get_save_data(&self) -> (r: Option<Vec<u8>>)
        ensures
            r matches Some(data) && data@ == self.ram(),
    {
        let data = self.prg_ram.clone();
        assert(data@ =~= self.prg_ram@);
        Some(data)
    }

    fn set_save_data(&mut self, data: &Vec<u8>)
        ensures
            final(self).ram() == data@ + old(self).ram().subrange(
                data@.len() as int,
                old(self).ram().len() as int,
            ),
            final(self).registers() == old(self).registers(),
            final(self).prg() == old(self).prg(),
            final(self).chr() == old(self).chr(),
    {
        let n = data.len();
        let mut i: usize = 0;
        while i < n
            invariant
                n == data@.len(),
                n <= self.prg_ram@.len(),
                i <= n,
                self.prg_ram@.len() == old(self).prg_ram@.len(),
                forall|j: int| 0 <= j < i ==> self.prg_ram@[j] == data@[j],
                forall|j: int| i <= j < self.prg_ram@.len() ==> self.prg_ram@[j] == old(
                    self,
                ).prg_ram@[j],
                self.regs == old(self).regs,
                self.prg_banks == old(self).prg_banks,
                self.chr_banks == old(self).chr_banks,
            decreases n - i,
        {
            self.prg_ram[i] = data[i];
            i = i + 1;
        }
        assert(self.ram() =~= data@ + old(self).ram().subrange(
            data@.len() as int,
            old(self).ram().len() as int,
        ));
    }
}


/// Selecting a bank register with a write of `sel` to 0x8000 and then writing bank number
/// `b` to 0x8001 switches, for register `k = sel % 8`:
/// - R0 and R1: a 2kb CHR pair, the 1kb slots 0-1 and 2-3 (PPU 0x0000 and 0x0800), or
///   4-5 and 6-7 when CHR inversion (bit 7 of `sel`) is on, to banks `b` and `b + 1` with
///   the low bit of `b` ignored;
/// - R2 to R5: the 1kb CHR slot 4 to 7 (PPU 0x1000, 0x1400, 0x1800, 0x1c00), or 0 to 3 with
///   inversion on, to bank `b`, so that PPU reads there return that bank's bytes;
/// - R6: the 8kb PRG slot at 0x8000, or at 0xc000 when bit 6 of `sel` is set;
/// - R7: the 8kb PRG slot at 0xa000.
pub proof fn lemma_bank_registers(pre: MMC3, sel: u8, mid: MMC3, b: u8, post: MMC3)
    requires
        pre.wf(),
        mid.wf(),
        post.wf(),
        pre.prg_write_result(0x8000, sel, mid),
        mid.prg_writable(0x8001, b),
        mid.prg_write_result(0x8001, b, post),
    ensures
        ({
            let k = (sel % 8) as int;
            let inv = sel >= 0x80;
            let e = (b - b % 2) as int;
            &&& post.chr().contents() == pre.chr().contents()
            &&& post.prg().contents() == pre.prg().contents()
            &&& k <= 1 ==> post.chr().bank_offsets()[if inv {
                4 + 2 * k
            } else {
                2 * k
            }] == e * 1024 && post.chr().bank_offsets()[if inv {
                5 + 2 * k
            } else {
                1 + 2 * k
            }] == (e + 1) * 1024
            &&& 2 <= k <= 5 ==> post.chr().bank_offsets()[if inv {
                k - 2
            } else {
                k + 2
            }] == b * 1024
            &&& (2 <= k <= 5 && !inv) ==> forall|i: int|
                0 <= i < 1024 ==> #[trigger] post.chr_value((0x1000 + 0x400 * (k - 2) + i) as u16)
                    == pre.chr().contents()[b * 1024 + i]
            &&& k == 6 ==> post.prg().bank_offsets()[if (sel / 64) % 2 == 1 {
                2int
            } else {
                0int
            }] == b * 8192
            &&& k == 7 ==> post.prg().bank_offsets()[1] == b * 8192
        }),
{
    lemma_pow2_values();
    let k = (sel % 8) as int;
    assert(mid.registers().selected_bank == Some(named_bank_spec(sel % 8)));
    assert(mid.chr() == pre.chr() && mid.prg() == pre.prg());
    assert(pre.chr().size() == 1024 && mid.chr().size() == 1024 && post.chr().size() == 1024);
    assert(pre.prg().size() == 8192 && mid.prg().size() == 8192);
    assert(post.chr().base() == 0);
    if 2 <= k <= 5 && sel < 0x80 {
        assert(post.chr().bank_offsets()[k + 2] == b * 1024);
        assert forall|i: int| 0 <= i < 1024 implies #[trigger] post.chr_value(
            (0x1000 + 0x400 * (k - 2) + i) as u16,
        ) == pre.chr().contents()[b * 1024 + i] by {
            let a = (0x1000 + 0x400 * (k - 2) + i) as u16;
            assert(a as int == 0x1000 + 0x400 * (k - 2) + i);
            assert(a / 1024 == k + 2);
            assert(a % 1024 == i);
            assert(post.chr().data_index(a) == b * 1024 + i);
        }
    }
}

} // verus!
