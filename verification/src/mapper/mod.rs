pub mod bank_array;
pub mod cartridge;
pub mod mapper;
pub mod nrom;
pub mod uxrom;
pub mod axrom;
pub mod mmc1;
pub mod mmc3;

use crate::mapper::bank_array::{pow2, BankArray};
use vstd::prelude::*;

pub use cartridge::{is_supported, load_mapper, Cartridge};
pub use mapper::Mapper;
pub use nrom::NROM;
pub use uxrom::UxROM;
pub use axrom::AxROM;
pub use mmc1::MMC1;
pub use mmc3::MMC3;

verus! {

/* common bank sizes, as the log of the size in bytes */
pub const SIZE_1_KB: usize = 10;
pub const SIZE_4_KB: usize = 12;
pub const SIZE_8_KB: usize = 13;
pub const SIZE_16_KB: usize = 14;
pub const SIZE_32_KB: usize = 15;

/// What a cartridge's CHR memory starts as: its CHR-ROM, or 8kb of zeroed CHR-RAM when the
/// image has none.
pub open spec fn chr_image(chr_data: Seq<u8>) -> Seq<u8> {
    if chr_data.len() > 0 {
        chr_data
    } else {
        Seq::new(8192, |i: int| 0u8)
    }
}

/// The CHR memory that `chr_memory` builds: one 8kb bank at address 0 over `chr_image`.
pub open spec fn chr_built_from(b: BankArray, chr_data: Seq<u8>) -> bool {
    &&& b.base() == 0
    &&& b.size_log() == SIZE_8_KB
    &&& b.bank_offsets() == seq![0usize]
    &&& b.contents() == chr_image(chr_data)
}

/// A single 8kb CHR bank at address 0 over the cartridge's CHR-ROM, or over 8kb of zeroed
/// CHR-RAM when the cartridge has none.
pub fn chr_memory(chr_data: &Vec<u8>) -> (r: BankArray)
    requires
        chr_data@.len() % pow2(SIZE_8_KB as nat) == 0,
    ensures
        r.wf(),
        r.base() == 0,
        r.size_log() == SIZE_8_KB,
        r.bank_offsets() == seq![0usize],
        chr_data@.len() > 0 ==> r.contents() == chr_data@,
        chr_data@.len() == 0 ==> r.contents() == Seq::new(8192, |i: int| 0u8),
        chr_built_from(r, chr_data@),
{
    proof {
        crate::mapper::bank_array::lemma_pow2_values();
    }
    let r = if chr_data.len() == 0 {
        BankArray::new_ram(0, SIZE_8_KB, SIZE_8_KB, 1)
    } else {
        let data = chr_data.clone();
        assert(data@ =~= chr_data@);
        BankArray::new(0, SIZE_8_KB, data, 1)
    };
    assert(r.bank_offsets() =~= seq![0usize]);
    r
}

/// With a single bank at address 0, every address below the bank size is covered.
pub proof fn lemma_single_bank_covers(b: &BankArray, address: u16)
    requires
        b.wf(),
        b.base() == 0,
        b.bank_offsets().len() == 1,
        (address as nat) < pow2(b.size_log()),
    ensures
        b.covers(address),
        b.readable(address),
        b.data_index(address) == b.bank_offsets()[0] + address,
{
    vstd::arithmetic::div_mod::lemma_basic_div(address as int, b.size() as int);
    vstd::arithmetic::div_mod::lemma_small_mod(address as nat, b.size());
}

/// Addresses inside the window of banks are covered.
pub proof fn lemma_window_covers(b: &BankArray, address: u16)
    requires
        b.wf(),
        b.base() <= address,
        address - b.base() < b.bank_offsets().len() * b.size(),
    ensures
        b.covers(address),
        b.readable(address),
{
    crate::mapper::bank_array::lemma_size_positive(b);
    vstd::arithmetic::div_mod::lemma_multiply_divide_lt(
        address - b.base(),
        b.size() as int,
        b.bank_offsets().len() as int,
    );
    vstd::arithmetic::mul::lemma_mul_is_commutative(
        b.size() as int,
        b.bank_offsets().len() as int,
    );
}

} // verus!
