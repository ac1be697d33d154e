use crate::mapper::bank_array::{lemma_pow2_values, pow2, BankArray};
use crate::mapper::{chr_built_from, chr_memory, lemma_single_bank_covers, lemma_window_covers, Mapper, SIZE_16_KB, SIZE_8_KB};
use crate::ppu::NametableMirroring;
use crate::rom::{header_mirroring, Rom};
use vstd::prelude::*;

verus! {

/// Mapper 2: a switchable 16kb PRG bank at 0x8000, the last 16kb bank fixed at 0xc000.
pub struct UxROM {
    prg_banks: BankArray,
    chr_bank: BankArray,
    nametable_mirroring: NametableMirroring,
}

impl UxROM {
    pub closed spec fn prg(&self) -> BankArray {
        self.prg_banks
    }

    pub closed spec fn chr(&self) -> BankArray {
        self.chr_bank
    }

    pub closed spec fn mirroring_mode(&self) -> NametableMirroring {
        self.nametable_mirroring
    }

    /// This is the mapper that `new` builds from `rom`: the image's PRG data in 16kb banks
    /// from 0x8000, the first bank switchable and the last fixed at 0xc000, its CHR memory,
    /// and the header's nametable arrangement.
    pub open spec fn built_from(&self, rom: &Rom) -> bool {
        &&& self.prg().base() == 0x8000
        &&& self.prg().size_log() == SIZE_16_KB
        &&& self.prg().contents() == rom.prg_data@
        &&& self.prg().bank_offsets() == seq![0usize, (rom.prg_data@.len() - 16384) as usize]
        &&& self.mirroring_mode() == header_mirroring(rom.byte_6_flags)
        &&& chr_built_from(self.chr(), rom.chr_data@)
    }

    pub fn new(rom: &Rom) -> (r: Self)
        requires
            rom.prg_data@.len() > 0,
            rom.prg_data@.len() % pow2(SIZE_16_KB as nat) == 0,
            rom.chr_data@.len() % pow2(SIZE_8_KB as nat) == 0,
        ensures
            r.wf(),
            r.prg().contents() == rom.prg_data@,
            r.prg().bank_offsets() == seq![0usize, (rom.prg_data@.len() - 16384) as usize],
            r.mirroring_mode() == header_mirroring(rom.byte_6_flags),
            r.built_from(rom),
    {
        proof {
            lemma_pow2_values();
        }
        let chr_bank = chr_memory(&rom.chr_data);
        let data = rom.prg_data.clone();
        assert(data@ =~= rom.prg_data@);
        let mut prg_banks = BankArray::new(0x8000, SIZE_16_KB, data, 2);
        proof {
            crate::mapper::bank_array::lemma_data_banks_positive(&prg_banks);
        }
        prg_banks.set_bank_from_end(1, -1);
        assert(prg_banks.bank_offsets() =~= seq![0usize, (rom.prg_data@.len() - 16384) as usize]);
        UxROM { nametable_mirroring: rom.nametable_mirroring(), chr_bank, prg_banks }
    }
}

impl Mapper for UxROM {
    closed spec fn wf(&self) -> bool {
        &&& self.prg_banks.wf()
        &&& self.prg_banks.base() == 0x8000
        &&& self.prg_banks.bank_offsets().len() == 2
        &&& self.prg_banks.size_log() == SIZE_16_KB
        &&& self.chr_bank.wf()
        &&& self.chr_bank.base() == 0
        &&& self.chr_bank.bank_offsets().len() == 1
        &&& self.chr_bank.size_log() == SIZE_8_KB
    }

    open spec fn prg_readable(&self, address: u16) -> bool {
        true
    }

    /// Addresses below 0x8000 read as 0.
    open spec fn prg_value(&self, address: u16) -> u8 {
        self.prg().value_at(address)
    }

    /// A write at 0x8000 or above must select a bank that the PRG data has.
    open spec fn prg_writable(&self, address: u16, value: u8) -> bool {
        address >= 0x8000 ==> ((value % 16) as nat) * self.prg().size() < self.prg().contents().len()
    }

    /// A write at 0x8000 or above selects the PRG bank at 0x8000 from the low four bits;
    /// writes to RAM addresses are ignored.
    open spec fn prg_write_result(&self, address: u16, value: u8, post: Self) -> bool {
        &&& post.prg().contents() == self.prg().contents()
        &&& post.prg().bank_offsets() == if address >= 0x8000 {
            self.prg().bank_offsets().update(
                0,
                (((value % 16) as nat) * self.prg().size()) as usize,
            )
        } else {
            self.prg().bank_offsets()
        }
        &&& post.chr() == self.chr()
        &&& post.mirroring_mode() == self.mirroring_mode()
    }

    open spec fn chr_readable(&self, address: u16) -> bool {
        address < 0x2000
    }

    open spec fn chr_value(&self, address: u16) -> u8 {
        self.chr().value_at(address)
    }

    open spec fn chr_writable(&self, address: u16) -> bool {
        address < 0x2000
    }

    open spec fn chr_write_result(&self, address: u16, value: u8, post: Self) -> bool {
        &&& post.prg() == self.prg()
        &&& post.mirroring_mode() == self.mirroring_mode()
        &&& post.chr().contents() == self.chr().contents().update(
            self.chr().data_index(address),
            value,
        )
        &&& post.chr().bank_offsets() == self.chr().bank_offsets()
    }

    open spec fn mirroring(&self) -> NametableMirroring {
        self.mirroring_mode()
    }

    fn read_prg(&self, address: u16) -> (r: u8) {
        proof {
            lemma_pow2_values();
            if address >= 0x8000 {
                lemma_window_covers(&self.prg_banks, address);
            }
        }
        self.prg_banks.read(address)
    }

    fn write_prg(&mut self, address: u16, value: u8) {
        if address >= 0x8000 {
            proof {
                assert(value & 0xf == value % 16) by (bit_vector);
            }
            self.prg_banks.set_bank(0, value & 0xf);
        }
        /* ignore writes to ram for UxROM */
    }

    fn read_chr(&self, address: u16) -> (r: u8) {
        proof {
            lemma_pow2_values();
            lemma_single_bank_covers(&self.chr_bank, address);
        }
        self.chr_bank.read(address)
    }

    fn write_chr(&mut self, address: u16, value: u8) {
        proof {
            lemma_pow2_values();
            lemma_single_bank_covers(&self.chr_bank, address);
        }
        self.chr_bank.write(address, value);
    }

    fn get_nametable_mirroring(&self) -> (r: NametableMirroring) {
        self.nametable_mirroring
    }
}

} // verus!
