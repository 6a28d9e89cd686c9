//! The OpenMote board: its drivers, its LEDs, its console and the debug
//! writer used when the kernel panics.
use vstd::prelude::*;
use crate::gpio::Pin;
use crate::hil::{Parity, StopBits, UARTParams};

verus! {

/// Number of concurrent processes the board supports.
pub const NUM_PROCS: usize = 2;

/// Bytes of RAM dedicated to processes: half of it.
pub const APP_MEMORY_SIZE: usize = 0x4000;

/// Words reserved for the kernel's stack.
pub const STACK_MEMORY_WORDS: usize = 256;

/// System-call driver number of the console capsule.
pub const CONSOLE_DRIVER_NUM: usize = 0x00000001;

/// System-call driver number of the LED capsule.
pub const LED_DRIVER_NUM: usize = 0x00000002;

/// Baud rate of the console.
pub const CONSOLE_BAUD_RATE: u32 = 115200;

/// How the kernel responds when a process faults.
#[derive(Clone, Copy, Debug, PartialEq, Eq, Structural)]
pub enum FaultResponse {
    Panic,
    Restart,
}

/// The board's response to a faulting process: panic.
pub const FAULT_RESPONSE: FaultResponse = FaultResponse::Panic;

/// Whether an LED is lit by driving its pin high or low.
#[derive(Clone, Copy, Debug, PartialEq, Eq, Structural)]
pub enum ActivationMode {
    ActiveHigh,
    ActiveLow,
}

/// The board's LEDs, red, orange, yellow and green, with their pins.
pub fn led_pins() -> (r: [(Pin, ActivationMode); 4])
    ensures
        r@ == seq![
            (Pin::PC04, ActivationMode::ActiveHigh),
            (Pin::PC05, ActivationMode::ActiveLow),
            (Pin::PC06, ActivationMode::ActiveLow),
            (Pin::PC07, ActivationMode::ActiveHigh),
        ],
{
    let r = [
        (Pin::PC04, ActivationMode::ActiveHigh),
        (Pin::PC05, ActivationMode::ActiveLow),
        (Pin::PC06, ActivationMode::ActiveLow),
        (Pin::PC07, ActivationMode::ActiveHigh),
    ];
    assert(r@ =~= seq![
        (Pin::PC04, ActivationMode::ActiveHigh),
        (Pin::PC05, ActivationMode::ActiveLow),
        (Pin::PC06, ActivationMode::ActiveLow),
        (Pin::PC07, ActivationMode::ActiveHigh),
    ]);
    r
}

/// The transmit and receive pin numbers of the console's UART0: PA1 and PA0.
pub fn console_uart_pins() -> (r: (u8, u8))
    ensures
        r == (1u8, 0u8),
{
    (Pin::PA01.index() as u8, Pin::PA00.index() as u8)
}

/// The console's UART configuration: 115200 baud, one stop bit, no parity,
/// no hardware flow control.
pub fn console_params() -> (r: UARTParams)
    ensures
        r.baud_rate == 115200,
        r == (UARTParams {
            baud_rate: CONSOLE_BAUD_RATE,
            stop_bits: StopBits::One,
            parity: Parity::Off,
            hw_flow_control: false,
        }),
{
    UARTParams {
        baud_rate: CONSOLE_BAUD_RATE,
        stop_bits: StopBits::One,
        parity: Parity::Off,
        hw_flow_control: false,
    }
}

/// A driver the board offers processes.
pub enum PlatformDriver<'a, L, C> {
    Led(&'a L),
    Console(&'a C),
}

/// The board's drivers: the LEDs and the console.
pub struct Platform<'a, L, C> {
    led: &'a L,
    console: &'a C,
}

impl<'a, L, C> Platform<'a, L, C> {
    /// The driver with system-call number `driver_num`, if the board has it.
    pub closed spec fn driver(&self, driver_num: usize) -> Option<PlatformDriver<'a, L, C>> {
        if driver_num == LED_DRIVER_NUM {
            Some(PlatformDriver::Led(self.led))
        } else if driver_num == CONSOLE_DRIVER_NUM {
            Some(PlatformDriver::Console(self.console))
        } else {
            None
        }
    }

    pub closed spec fn led_value(&self) -> &'a L {
        self.led
    }

    pub closed spec fn console_value(&self) -> &'a C {
        self.console
    }

    /// The LED driver answers to `LED_DRIVER_NUM`, the console to
    /// `CONSOLE_DRIVER_NUM`, and no driver to any other number.
    pub proof fn law_driver_selection(&self, driver_num: usize)
        ensures
            driver_num == LED_DRIVER_NUM ==> self.driver(driver_num) == Some(
                PlatformDriver::<'a, L, C>::Led(self.led_value()),
            ),
            driver_num == CONSOLE_DRIVER_NUM ==> self.driver(driver_num) == Some(
                PlatformDriver::<'a, L, C>::Console(self.console_value()),
            ),
            driver_num != LED_DRIVER_NUM && driver_num != CONSOLE_DRIVER_NUM ==> self.driver(
                driver_num,
            ) is None,
            self.driver(2) == Some(PlatformDriver::<'a, L, C>::Led(self.led_value())),
            self.driver(1) == Some(PlatformDriver::<'a, L, C>::Console(self.console_value())),
            self.driver(0) is None,
    {
    }

    pub fn new(led: &'a L, console: &'a C) -> (r: Platform<'a, L, C>)
        ensures
            r.led_value() == led,
            r.console_value() == console,
    {
        Platform { led, console }
    }

    /// Calls `f` with the driver numbered `driver_num`, or with nothing when
    /// the board has no such driver.
    pub fn with_driver<F, R>(&self, driver_num: usize, f: F) -> (r: R) where
        F: FnOnce(Option<PlatformDriver<'a, L, C>>) -> R,

        requires
            f.requires((self.driver(driver_num),)),
        ensures
            f.ensures((self.driver(driver_num),), r),
    {
        match driver_num {
            LED_DRIVER_NUM => f(Some(PlatformDriver::Led(self.led))),
            CONSOLE_DRIVER_NUM => f(Some(PlatformDriver::Console(self.console))),
            _ => f(None),
        }
    }
}

/// The writer of the kernel's debug and panic output to the console UART.
pub struct Writer {
    initialized: bool,
}

impl Writer {
    pub closed spec fn is_initialized(&self) -> bool {
        self.initialized
    }

    /// A writer that has not yet configured its UART.
    pub fn new() -> (r: Writer)
        ensures
            !r.is_initialized(),
    {
        Writer { initialized: false }
    }

    /// The start of writing a string: whether the UART must first be
    /// configured (with `console_params`), which is so on the first write
    /// only.  The bytes are then sent one by one, waiting after each.
    pub fn begin_write(&mut self) -> (needs_init: bool)
        ensures
            needs_init == !old(self).is_initialized(),
            final(self).is_initialized(),
    {
        if !self.initialized {
            self.initialized = true;
            true
        } else {
            false
        }
    }
}


} // verus!
