# patina

A Nintendo Entertainment System emulator whose core is verified with Verus.

- `src/` is the library. Its functions are verified, except four small trusted wrappers
  around outside calls (the device table's hash map and a byte's bit reversal):
  - `cpu/`: the 6502 (instruction decoding and semantics, addressing modes, status flags,
    the stack, interrupts), the memory bus with its RAM mirrors and device registers, and the
    controller.
  - `ppu/`: the picture processing unit: VRAM and palette mirroring, the CPU-visible
    registers and the scroll registers, sprite evaluation and the per-dot renderer.
  - `apu/`: the audio channels (pulse, triangle, noise, DMC) with their timers, envelopes,
    sweeps and length counters.
  - `mapper/`: the cartridge mappers NROM, UxROM, AxROM, MMC1 and MMC3, over bank arrays.
  - `rom.rs`: the iNES image format.
- `app/` is the program around it: argument handling, file I/O, the window and keyboard,
  screenshots, and the audio mixer, which works in floating point.
- `tests/` runs the library on concrete values.

The contracts describe each operation over spec functions (`read_result`,
`write_result`, `register_write`, `vram_write_result`, `effect`, ...), and public proof
functions state the laws that relate several operations, such as a RAM byte reading back
at every mirror after a write, a pop undoing a push, the ADC and compare flags, and a byte
written through PPUDATA coming back through PPUDATA.
