pub mod palette;
pub mod ppu;
pub mod ppu_listener;
pub mod ppu_internal_registers;
pub mod ppu_registers;
pub mod render;
pub mod sprite_info;
pub mod tile;

pub use ppu::{NametableMirroring, PPU, DISPLAY_HEIGHT, DISPLAY_WIDTH, OAM_SIZE, WRITE_BUFFER_SIZE};
pub use ppu_listener::PPUListener;
pub use ppu_internal_registers::PPUInternalRegisters;
pub use ppu_registers::PPURegister;
pub use tile::Tile;
