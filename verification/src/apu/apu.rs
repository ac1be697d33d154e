use crate::apu::dmc::DMC;
use crate::apu::noise::Noise;
use crate::apu::pulse::Pulse;
use crate::apu::triangle::Triangle;
use crate::processor::APU_CLOCK_SPEED;
use vstd::prelude::*;

verus! {

pub const PULSE_1_FIRST_ADDR: u16 = 0x4000;

pub const PULSE_2_FIRST_ADDR: u16 = 0x4004;

/// The frame counter runs through this many APU cycles.
pub const FRAME_LENGTH: u16 = 14915;

/// The addresses the APU answers: the channels' registers 0x4000 to 0x4013, the status
/// register 0x4015 and the frame counter 0x4017.
pub open spec fn is_apu_address(address: u16) -> bool {
    (0x4000 <= address <= 0x4013) || address == 0x4015 || address == 0x4017
}

/// The audio processing unit: two pulse channels, a triangle, noise and the delta
/// modulation channel, stepped by a frame counter. Mixing the channels' levels into
/// samples is left to the caller.
#[derive(Debug, Clone, Copy)]
pub struct APU {
    pub apu_counter: u16,
    pub pulse1: Pulse,
    pub pulse2: Pulse,
    pub triangle: Triangle,
    pub noise: Noise,
    pub dmc: DMC,
    pub status: u8,
}

impl APU {
    pub open spec fn wf(&self) -> bool {
        &&& self.pulse1.wf()
        &&& self.pulse2.wf()
        &&& self.triangle.wf()
        &&& self.pulse1.first_address == PULSE_1_FIRST_ADDR
        &&& self.pulse2.first_address == PULSE_2_FIRST_ADDR
        &&& self.apu_counter < FRAME_LENGTH
    }

    /// A silent APU; the first pulse channel's sweep subtracts in ones' complement.
    pub fn new() -> (r: APU)
        ensures
            r.wf(),
            r.apu_counter == 0,
            r.status == 0,
            !r.pulse1.enabled && r.pulse1.sweep.ones_complement,
            !r.pulse2.enabled && !r.pulse2.sweep.ones_complement,
            !r.triangle.enabled && !r.noise.enabled && !r.dmc.enabled,
    {
        let pulse1 = Pulse::new(PULSE_1_FIRST_ADDR, true);
        let pulse2 = Pulse::new(PULSE_2_FIRST_ADDR, false);
        let triangle = Triangle::new();
        let noise = Noise::new();
        let dmc = DMC::new();
        APU { apu_counter: 0, pulse1, pulse2, triangle, noise, dmc, status: 0 }
    }

    /// One APU cycle: the frame counter advances (wrapping at `FRAME_LENGTH`) and every
    /// channel ticks with the new count; `dmc_byte` is the sample byte the DMC asked for,
    /// if it did.
    pub open spec fn ticked(self, dmc_byte: u8) -> APU {
        let c = ((self.apu_counter + 1) % (FRAME_LENGTH as int)) as u16;
        APU {
            apu_counter: c,
            pulse1: self.pulse1.ticked(c),
            pulse2: self.pulse2.ticked(c),
            triangle: self.triangle.ticked(c),
            noise: self.noise.ticked(c),
            dmc: if self.dmc.enabled {
                self.dmc.after_fetch(dmc_byte).after_output()
            } else {
                self.dmc
            },
            ..self
        }
    }

    /// Steps the APU (see `ticked`) and returns whether a mixed sample is due (every 20th
    /// cycle).
    pub fn apu_tick(&mut self, dmc_byte: u8) -> (sample_due: bool)
        requires
            old(self).wf(),
        ensures
            final(self).wf(),
            *final(self) == old(self).ticked(dmc_byte),
            sample_due == (final(self).apu_counter % 20 == 0),
    {
        self.apu_counter = (self.apu_counter + 1) % FRAME_LENGTH;

        self.pulse1.tick(self.apu_counter);
        self.pulse2.tick(self.apu_counter);
        self.triangle.tick(self.apu_counter);
        self.noise.tick(self.apu_counter);
        self.dmc.tick(self.apu_counter, dmc_byte);

        self.apu_counter % 20 == 0
    }

    /// The APU after writing `value` to `address`: the channel registers go to their
    /// channel; a status write enables or disables each channel by one bit (pulse 1, pulse
    /// 2, triangle, noise, DMC, from bit 0); the frame counter register is ignored.
    pub open spec fn written(self, address: u16, value: u8) -> APU {
        if address < 0x4004 {
            APU { pulse1: self.pulse1.written(address - 0x4000, value), ..self }
        } else if address < 0x4008 {
            APU { pulse2: self.pulse2.written(address - 0x4004, value), ..self }
        } else if address < 0x400c {
            APU { triangle: self.triangle.written(address, value), ..self }
        } else if address < 0x4010 {
            APU { noise: self.noise.written(address, value), ..self }
        } else if address < 0x4014 {
            APU { dmc: self.dmc.written(address, value), ..self }
        } else if address == 0x4015 {
            APU {
                status: value,
                pulse1: self.pulse1.enabled_as(value & 0x1 != 0),
                pulse2: self.pulse2.enabled_as(value & 0x2 != 0),
                triangle: self.triangle.enabled_as(value & 0x4 != 0),
                noise: self.noise.enabled_as(value & 0x8 != 0),
                dmc: DMC { enabled: value & 0x10 != 0, ..self.dmc },
                ..self
            }
        } else {
            self
        }
    }

    pub fn write(&mut self, address: u16, value: u8)
        requires
            old(self).wf(),
            is_apu_address(address),
        ensures
            final(self).wf(),
            *final(self) == old(self).written(address, value),
    {
        let a = address;
        proof {
            assert(is_apu_address(a) ==> (
                (a < 0x4004 ==> a & 0x001c == 0x00)
                && (0x4004 <= a < 0x4008 ==> a & 0x001c == 0x04)
                && (0x4008 <= a < 0x400c ==> a & 0x001c == 0x08)
                && (0x400c <= a < 0x4010 ==> a & 0x001c == 0x0c)
                && (0x4010 <= a < 0x4014 ==> a & 0x001c == 0x10)
                && (a >= 0x4014 ==> a & 0x001c == 0x14))) by (bit_vector);
        }
        match address & 0x001c {
            /* pulse 1:  xxx0 00xx */
            0x00 => self.pulse1.write(address, value),
            /* pulse 2:  xxx0 01xx */
            0x04 => self.pulse2.write(address, value),
            /* triangle: xxx0 10xx */
            0x08 => self.triangle.write(address, value),
            /* noise:    xxx0 11xx */
            0x0c => self.noise.write(address, value),
            /* dmc:      xxx1 00xx */
            0x10 => self.dmc.write(address, value),
            _ => {
                if address == 0x4015 {
                    self.status = value;
                    self.pulse1.set_enabled(value & 0x1 != 0);
                    self.pulse2.set_enabled(value & 0x2 != 0);
                    self.triangle.set_enabled(value & 0x4 != 0);
                    self.noise.set_enabled(value & 0x8 != 0);
                    self.dmc.set_enabled(value & 0x10 != 0);
                }
            },
        }
    }

    /// Reads see the open bus, which reads as 0.
    pub fn read(&self, _address: u16) -> (r: u8)
        ensures
            r == 0,
    {
        0
    }

    pub fn clock_speed(&self) -> (r: u64)
        ensures
            r == APU_CLOCK_SPEED,
    {
        APU_CLOCK_SPEED
    }

    /// The last value written to the status register.
    pub fn get_status(&self) -> (r: u8)
        ensures
            r == self.status,
    {
        self.status
    }

    /// The addresses the APU answers, in order.
    pub fn get_addresses(&self) -> (r: Vec<u16>)
        ensures
            forall|a: u16| r@.contains(a) <==> is_apu_address(a),
            r@.len() == 22,
    {
        let mut addrs: Vec<u16> = Vec::new();
        let mut a: u16 = 0x4000;
        while a < 0x4014
            invariant
                0x4000 <= a <= 0x4014,
                addrs@.len() == a - 0x4000,
                forall|i: int| 0 <= i < addrs@.len() ==> addrs@[i] == 0x4000 + i,
            decreases 0x4014 - a,
        {
            addrs.push(a);
            a += 1;
        }
        addrs.push(0x4015);
        addrs.push(0x4017);
        proof {
            assert forall|x: u16| addrs@.contains(x) <==> is_apu_address(x) by {
                if is_apu_address(x) {
                    if x < 0x4014 {
                        assert(addrs@[x - 0x4000] == x);
                    } else if x == 0x4015 {
                        assert(addrs@[20] == x);
                    } else {
                        assert(addrs@[21] == x);
                    }
                }
            }
        }
        addrs
    }
}

} // verus!
