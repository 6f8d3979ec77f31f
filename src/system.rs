//! The emulated machine around the hart: address map, RAM and UART.
pub mod bus;
pub mod ram;
pub mod rv32;
pub mod uart;
