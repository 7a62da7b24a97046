pub mod disassembler;
pub mod memory_viewer;
pub mod windows;
