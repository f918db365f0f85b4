//! Address-space routing and interrupt-control core of a RISC-V system
//! emulator.
//!
//! The [`bus::Bus`] owns flat RAM ([`memory::Memory`]) and three
//! memory-mapped devices: a serial console ([`uart::Uart`]), a core-local
//! interruptor ([`clint::Clint`]) and a platform-level interrupt controller
//! ([`plic::Plic`]). Every access of the execution core goes through the bus,
//! which dispatches by address window and width, or reports an
//! [`exception::Exception`].

pub mod bus;
pub mod clint;
pub mod exception;
pub mod memory;
pub mod plic;
pub mod uart;
