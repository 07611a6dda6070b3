//! A verified interpreter for the MOS 6502 CPU core of a Nintendo
//! Entertainment System emulator.
//!
//! The crate models the official instruction set (56 mnemonics over 13
//! addressing modes) with exact status-flag semantics, stack discipline and
//! per-instruction base cycle counts.  All memory traffic goes through the
//! [`Bus`] trait; the CPU itself owns nothing but its registers.
//!
//! The behaviour of one instruction step is pinned down by a mathematical
//! model ([`model::step_spec`]); the executable interpreter is proved to
//! compute exactly that model, and the laws in [`laws`] are proved of the
//! model itself.

pub mod cpu;
pub mod flags;
pub mod joypad;
pub mod laws;
pub mod memory;
pub mod model;
pub mod nes_bus;
pub mod op;
pub mod regs;
pub mod rom;

pub use cpu::{
    operand_absolute, operand_absolute_x, operand_absolute_y, operand_immediate,
    operand_zero_page, operand_zero_page_x, operand_zero_page_y, Bus, Cpu, Effects,
};
pub use flags::Flags;
pub use joypad::Joypad;
pub use memory::FlatMemory;
pub use model::{is_negative, is_signed_overflow, is_zero};
pub use regs::Regs;
