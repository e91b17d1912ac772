//! An interpreter for the Sharp SM83, the processor of the Game Boy.
//!
//! [`cpu`] holds the register file, the flat 64 KiB memory, the opcode
//! decoder, the cycle table and the execution engine, each verified against
//! a mathematical description of the machine, and the laws that follow from
//! that description. [`ppu`] holds the registers of the picture processing
//! unit and the test pattern that a host paints into its frame.

pub mod cpu;
pub mod ppu;
