//! Tick-driven fetch/decode/execute core of a classic 8-bit handheld console
//! processor, together with its address-space router, the two memory-mapped
//! devices it owns, and a pure diagnostic disassembler.
//!
//! Every machine cycle ("tick") performs at most one memory transaction; a
//! multi-cycle instruction is spread across ticks by two queues of pending
//! micro-operations (bus transactions and internal execution steps).
use vstd::prelude::*;

pub mod apu;
pub mod bus;
pub mod cpu;
pub mod debug;
pub mod ppu;

verus! {

/// The unrecoverable failure conditions of the engine. Each carries what the
/// driver needs to report for diagnosis.
#[derive(Clone, Copy, Debug, PartialEq, Eq, Structural)]
pub enum EmuError {
    /// An address routed to no device, or to a device that does not support
    /// the requested operation; carries the offending address.
    InvalidAddress(u16),
    /// The decoder saw a byte outside its supported table, or a decoded
    /// instruction has no expansion yet; carries the offending opcode byte.
    UnimplementedOpcode(u8),
    /// An execution step or register accessor was invoked with an operand it
    /// does not recognize; an internal-consistency fault.
    InvalidOperand,
}

} // verus!
