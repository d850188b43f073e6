//! Control layer for the SPIRIT1 sub-1GHz transceiver: conversion of radio
//! parameters into register values, the register codec, and the sequencer
//! that brings the chip up and runs blocking transmit and receive cycles
//! over an abstract bus.
use vstd::prelude::*;

pub mod band;
pub mod calc;
pub mod constants;
pub mod driver;
pub mod gpio;
pub mod packet;
pub mod registers;

verus! {

/// Errors reported by the driver.
#[derive(Clone, Copy, Debug, PartialEq, Eq, Structural)]
pub enum RadioError {
    /// A bus transaction failed.
    Spi,
    /// The chip is in an unexpected condition.
    Invalid,
    /// A parameter or a value read from the chip is outside its range.
    ParameterError,
    /// The requested packet format has no implementation.
    NotImplemented,
    /// A poll loop ran out of attempts before the awaited event.
    Timeout,
}

/// Result of a driver operation.
pub type RadioResult<T> = Result<T, RadioError>;

/// Word size of the bus.
pub type WORD = u8;

/// Operation selector of a register write.
pub const WRITE: u8 = 0;

/// Operation selector of a register read.
pub const READ: u8 = 1;

/// Operation selector of a command.
pub const COMMAND: u8 = 0x80;

} // verus!
