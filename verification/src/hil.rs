//! The hardware-interface types and traits that the drivers and capsules
//! share.
use vstd::prelude::*;
use crate::returncode::ReturnCode;

verus! {

/// Pull-up or pull-down configuration of an input pin.
#[derive(Clone, Copy, Debug, PartialEq, Eq, Structural)]
pub enum InputMode {
    PullUp,
    PullDown,
    PullNone,
}

/// Which edges of an input pin raise an interrupt.
#[derive(Clone, Copy, Debug, PartialEq, Eq, Structural)]
pub enum InterruptMode {
    RisingEdge,
    FallingEdge,
    EitherEdge,
}

/// Number of stop bits of a UART frame.
#[derive(Clone, Copy, Debug, PartialEq, Eq, Structural)]
pub enum StopBits {
    One,
    Two,
}

/// Parity of a UART frame (`Off`: no parity bit).
#[derive(Clone, Copy, Debug, PartialEq, Eq, Structural)]
pub enum Parity {
    Off,
    Odd,
    Even,
}

/// Configuration of a UART.
#[derive(Clone, Copy, Debug, PartialEq, Eq, Structural)]
pub struct UARTParams {
    pub baud_rate: u32,
    pub stop_bits: StopBits,
    pub parity: Parity,
    pub hw_flow_control: bool,
}

/// An analog-to-digital converter, implemented by a chip's ADC driver.
pub trait Adc {
    /// A channel of the converter.
    type Channel;

    /// Starts a single sample of `channel`; the result arrives later.
    fn sample(&self, channel: &Self::Channel) -> ReturnCode;
}

/// An analog comparator peripheral, implemented by a chip's driver.
pub trait AnalogComparator {
    /// Enables the comparators.
    fn enable(&self) -> ReturnCode;

    /// Compares the inputs of comparator `ac`.
    fn comparison(&self, ac: usize) -> bool;

    /// Compares in window `window` (a pair of comparators).
    fn window_comparison(&self, window: usize) -> bool;

    /// Enables the interrupts of comparator `ac`.
    fn enable_interrupts(&self, ac: usize) -> ReturnCode;
}

} // verus!
