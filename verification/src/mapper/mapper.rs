use crate::ppu::NametableMirroring;
use vstd::prelude::*;

verus! {

/// A cartridge's memory manager: it answers the CPU's reads and writes of program memory
/// (PRG) and the PPU's reads and writes of character memory (CHR).
///
/// Implementations describe their behaviour through the spec functions below; the CPU and
/// the PPU are verified against them.
pub trait Mapper: Sized {
    /// The implementation's internal invariant.
    spec fn wf(&self) -> bool;

    /// Reading this PRG address is defined (does not panic).
    spec fn prg_readable(&self, address: u16) -> bool;

    /// The byte a read of this PRG address returns.
    spec fn prg_value(&self, address: u16) -> u8;

    /// Writing `value` to this PRG address is defined: it does not panic, and any bank it
    /// selects exists.
    spec fn prg_writable(&self, address: u16, value: u8) -> bool;

    /// `post` is the mapper's state after `value` is written to PRG `address`.
    spec fn prg_write_result(&self, address: u16, value: u8, post: Self) -> bool;

    spec fn chr_readable(&self, address: u16) -> bool;

    spec fn chr_value(&self, address: u16) -> u8;

    spec fn chr_writable(&self, address: u16) -> bool;

    spec fn chr_write_result(&self, address: u16, value: u8, post: Self) -> bool;

    spec fn mirroring(&self) -> NametableMirroring;

    fn read_prg(&self, address: u16) -> (r: u8)
        requires
            self.wf(),
            self.prg_readable(address),
        ensures
            r == self.prg_value(address),
    ;

    fn write_prg(&mut self, address: u16, value: u8)
        requires
            old(self).wf(),
            old(self).prg_writable(address, value),
        ensures
            final(self).wf(),
            old(self).prg_write_result(address, value, *final(self)),
            forall|a: u16| #[trigger] final(self).prg_readable(a) == old(self).prg_readable(a),
            forall|a: u16| #[trigger] final(self).chr_readable(a) == old(self).chr_readable(a),
            forall|a: u16| #[trigger] final(self).chr_writable(a) == old(self).chr_writable(a),
    ;

    fn read_chr(&self, address: u16) -> (r: u8)
        requires
            self.wf(),
            self.chr_readable(address),
        ensures
            r == self.chr_value(address),
    ;

    fn write_chr(&mut self, address: u16, value: u8)
        requires
            old(self).wf(),
            old(self).chr_writable(address),
        ensures
            final(self).wf(),
            old(self).chr_write_result(address, value, *final(self)),
            forall|a: u16| #[trigger] final(self).prg_readable(a) == old(self).prg_readable(a),
            forall|a: u16, v: u8| #[trigger] final(self).prg_writable(a, v) == old(self).prg_writable(
                a,
                v,
            ),
            forall|a: u16| #[trigger] final(self).chr_readable(a) == old(self).chr_readable(a),
            forall|a: u16| #[trigger] final(self).chr_writable(a) == old(self).chr_writable(a),
    ;

    fn get_nametable_mirroring(&self) -> (r: NametableMirroring)
        requires
            self.wf(),
        ensures
            r == self.mirroring(),
    ;

    /**
     * Returns the current value of the data that would be saved in RAM, if it exists,
     * or None if this mapper doesn't support it.
     */
    fn get_save_data(&self) -> (r: Option<Vec<u8>>)
        requires
            self.wf(),
        default_ensures
            r is None,
    {
        None
    }

    /**
     * Sets the current save RAM data. If the mapper does not support save RAM,
     * this has no effect.
     */
    fn set_save_data(&mut self, _data: &Vec<u8>)
        requires
            old(self).wf(),
            _data@.len() <= 32768,
        ensures
            final(self).wf(),
    {
    }
}

} // verus!
