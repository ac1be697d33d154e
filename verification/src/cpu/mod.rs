pub mod addressing_mode;
pub mod controller;
pub mod core_memory;
pub mod cpu;
pub mod instruction;
pub mod listener_table;
pub mod operation;
pub mod status_flag;

pub use addressing_mode::AddressingMode;
pub use controller::Controller;
pub use core_memory::CoreMemory;
pub use cpu::CPU;
pub use listener_table::Listener;
pub use status_flag::StatusFlag;
pub use instruction::{from_opcode, is_known_opcode, RealizedInstruction};
pub use operation::Operation;
