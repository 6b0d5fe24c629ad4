pub mod cpu;
pub mod emulator;
pub mod isa;
pub mod laws;
pub mod utils;
