//! A small fantasy-console virtual machine: a stack-machine instruction set,
//! a 64 KiB address space with memory-mapped registers, and a timer and
//! vertical-blank interrupt model.

pub mod isa;
pub mod vm;
pub mod laws;
pub mod input;
pub mod renderer;
