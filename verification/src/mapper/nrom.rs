use crate::mapper::bank_array::{pow2, BankArray};
use crate::mapper::{chr_built_from, chr_memory, Mapper, SIZE_8_KB};
use crate::ppu::NametableMirroring;
use crate::rom::{header_mirroring, Rom};
use vstd::prelude::*;

verus! {

pub const PRG_BANK_SIZE: usize = 32768;

/// Mapper 0: up to 32kb of fixed PRG-ROM (16kb images are mirrored) and 8kb of CHR.
pub struct NROM {
    memory: Vec<u8>,
    is_32_kb: bool,  /* NROM can be either 32kb or 16kb mirrored */
    chr_bank: BankArray,
    nametable_mirroring: NametableMirroring,
}

/// Where a PRG address lands in NROM's program memory: 16kb images repeat at 0xc000.
pub open spec fn nrom_index(is_32_kb: bool, address: u16) -> int {
    if is_32_kb {
        address - 0x8000
    } else {
        (address as int % 0x4000)
    }
}

impl NROM {
    pub closed spec fn program(&self) -> Seq<u8> {
        self.memory@
    }

    pub closed spec fn full_size(&self) -> bool {
        self.is_32_kb
    }

    pub closed spec fn chr(&self) -> BankArray {
        self.chr_bank
    }

    pub closed spec fn mirroring_mode(&self) -> NametableMirroring {
        self.nametable_mirroring
    }

    /// This is the mapper that `new` builds from `rom`: 32kb of program memory starting with
    /// the image's PRG data (16kb images repeat at 0xc000), its CHR memory, and the header's
    /// nametable arrangement.
    pub open spec fn built_from(&self, rom: &Rom) -> bool {
        &&& self.full_size() == (rom.prg_data@.len() == 32768)
        &&& self.program().len() == PRG_BANK_SIZE
        &&& self.program().subrange(0, rom.prg_data@.len() as int) == rom.prg_data@
        &&& self.mirroring_mode() == header_mirroring(rom.byte_6_flags)
        &&& chr_built_from(self.chr(), rom.chr_data@)
    }

    pub fn new(rom: &Rom) -> (r: NROM)
        requires
            rom.prg_data@.len() <= 32768,
            rom.chr_data@.len() % pow2(SIZE_8_KB as nat) == 0,
        ensures
            r.wf(),
            r.full_size() == (rom.prg_data@.len() == 32768),
            r.program().subrange(0, rom.prg_data@.len() as int) == rom.prg_data@,
            r.mirroring_mode() == header_mirroring(rom.byte_6_flags),
            rom.chr_data@.len() > 0 ==> r.chr().contents() == rom.chr_data@,
            r.program().len() == PRG_BANK_SIZE,
            r.built_from(rom),
    {
        let mut memory = vec![0u8; PRG_BANK_SIZE];
        let is_32_kb = rom.prg_data.len() == PRG_BANK_SIZE;
        let n = rom.prg_data.len();
        let mut i: usize = 0;
        while i < n
            invariant
                n == rom.prg_data@.len(),
                n <= PRG_BANK_SIZE,
                memory@.len() == PRG_BANK_SIZE,
                i <= n,
                forall|j: int| 0 <= j < i ==> memory@[j] == rom.prg_data@[j],
            decreases n - i,
        {
            memory[i] = rom.prg_data[i];
            i = i + 1;
        }
        assert(memory@.subrange(0, n as int) =~= rom.prg_data@);
        NROM {
            memory,
            is_32_kb,
            chr_bank: chr_memory(&rom.chr_data),
            nametable_mirroring: rom.nametable_mirroring(),
        }
    }

    fn map_address(&self, address: u16) -> (r: usize)
        requires
            address >= 0x8000,
        ensures
            r == nrom_index(self.is_32_kb, address),
            r < 32768,
    {
        /* mapper is assigned 0x8000 to 0xffff; subtract 0x8000 to turn into an array index */
        if self.is_32_kb {
            (address - 0x8000) as usize
        /* if there's 16 kb of ram, 0xc000-0xffff are mirrors of 0x8000-0xbffff */
        } else {
            proof {
                assert((address & !0x4000u16) - 0x8000 == address % 0x4000) by (bit_vector)
                    requires
                        address >= 0x8000,
                ;
            }
            ((address & !0x4000) - 0x8000) as usize
        }
    }
}

impl Mapper for NROM {
    closed spec fn wf(&self) -> bool {
        &&& self.memory@.len() == PRG_BANK_SIZE
        &&& self.chr_bank.wf()
        &&& self.chr_bank.base() == 0
        &&& self.chr_bank.bank_offsets().len() == 1
        &&& self.chr_bank.size_log() == SIZE_8_KB
    }

    /// PRG-ROM starts at 0x8000; NROM has no PRG-RAM.
    open spec fn prg_readable(&self, address: u16) -> bool {
        address >= 0x8000
    }

    open spec fn prg_value(&self, address: u16) -> u8 {
        self.program()[nrom_index(self.full_size(), address)]
    }

    /// PRG is read-only.
    open spec fn prg_writable(&self, address: u16, value: u8) -> bool {
        false
    }

    open spec fn prg_write_result(&self, address: u16, value: u8, post: Self) -> bool {
        post == *self
    }

    open spec fn chr_readable(&self, address: u16) -> bool {
        address < 0x2000
    }

    open spec fn chr_value(&self, address: u16) -> u8 {
        self.chr().value_at(address)
    }

    open spec fn chr_writable(&self, address: u16) -> bool {
        address < 0x2000
    }

    open spec fn chr_write_result(&self, address: u16, value: u8, post: Self) -> bool {
        &&& post.program() == self.program()
        &&& post.full_size() == self.full_size()
        &&& post.mirroring_mode() == self.mirroring_mode()
        &&& post.chr().contents() == self.chr().contents().update(
            self.chr().data_index(address),
            value,
        )
        &&& post.chr().bank_offsets() == self.chr().bank_offsets()
    }

    open spec fn mirroring(&self) -> NametableMirroring {
        self.mirroring_mode()
    }

    fn read_prg(&self, address: u16) -> (r: u8) {
        self.memory[self.map_address(address)]
    }

    fn write_prg(&mut self, address: u16, value: u8) {
        /* NROM: ATTEMPTED TO WRITE TO PRG-ROM; excluded by prg_writable */
    }

    fn read_chr(&self, address: u16) -> (r: u8) {
        proof {
            crate::mapper::bank_array::lemma_pow2_values();
            crate::mapper::lemma_single_bank_covers(&self.chr_bank, address);
        }
        self.chr_bank.read(address)
    }

    fn write_chr(&mut self, address: u16, value: u8) {
        proof {
            crate::mapper::bank_array::lemma_pow2_values();
            crate::mapper::lemma_single_bank_covers(&self.chr_bank, address);
        }
        self.chr_bank.write(address, value);
    }

    fn get_nametable_mirroring(&self) -> (r: NametableMirroring) {
        self.nametable_mirroring
    }
}


/// A 16kB program appears twice: the addresses from 0xc000 up read as those 16kB lower.
pub proof fn lemma_small_program_mirrored(n: &NROM, address: u16)
    requires
        !n.full_size(),
        0x8000 <= address < 0xc000,
    ensures
        n.prg_value(address) == n.prg_value((address + 0x4000) as u16),
{
}

} // verus!
