pub mod apu;
pub mod dmc;
pub mod envelope;
pub mod length_counter;
pub mod noise;
pub mod pulse;
pub mod sweep;
pub mod timer;
pub mod triangle;

pub use apu::APU;
