//! System control: clock gating of the peripherals.  The register block is
//! modelled by its values.
use vstd::prelude::*;

verus! {

/// Address of the system-control register block.
pub const SYS_CTRL_BASEADDR: usize = 0x400D2000;

/// `RCGCUART` bit that runs UART0's clock.
pub const UART0_CLOCK_ENABLED: u32 = 0x1;

/// `RCGCUART` bit that runs UART1's clock.
pub const UART1_CLOCK_ENABLED: u32 = 0x2;

/// A model of the system-control register block: the value of each register.
pub struct SYSCTRLRegisters {
    pub clock_ctrl: u32,
    pub clock_sta: u32,
    pub rcgc_gpt: u32,
    pub scgc_gpt: u32,
    pub dcgc_gpt: u32,
    pub sr_gpt: u32,
    pub rcgc_ssi: u32,
    pub scgc_ssi: u32,
    pub dcgc_ssi: u32,
    pub sr_ssi: u32,
    pub rcgc_uart: u32,
    pub scgc_uart: u32,
    pub dcgc_uart: u32,
    pub sr_uart: u32,
}

/// `RCGCUART` after `enable_rcgc_uart(uart)`: the register is written
/// whole with the bit of UART0 or UART1; for any other number it is left.
pub open spec fn rcgc_uart_after(uart: usize, rcgc_uart: u32) -> u32 {
    if uart == 0 {
        UART0_CLOCK_ENABLED
    } else if uart == 1 {
        UART1_CLOCK_ENABLED
    } else {
        rcgc_uart
    }
}

/// Runs the clock of UART number `uart` in run mode.
pub fn enable_rcgc_uart(regs: &mut SYSCTRLRegisters, uart: usize)
    ensures
        *final(regs) == (SYSCTRLRegisters {
            rcgc_uart: rcgc_uart_after(uart, old(regs).rcgc_uart),
            ..*old(regs)
        }),
{
    if uart == 0 {
        regs.rcgc_uart = UART0_CLOCK_ENABLED;
    } else if uart == 1 {
        regs.rcgc_uart = UART1_CLOCK_ENABLED;
    }
}


/// Enabling UART0's clock writes `RCGCUART` with bit 0 alone, UART1's with
/// bit 1 alone; any other UART number leaves the register.
pub proof fn law_rcgc_uart_bits(uart: usize, rcgc_uart: u32)
    ensures
        uart == 0 ==> forall|j: u32|
            j < 32 ==> ((#[trigger] ((rcgc_uart_after(uart, rcgc_uart) >> j) & 1u32) == 1u32)
                <==> j == 0),
        uart == 1 ==> forall|j: u32|
            j < 32 ==> ((#[trigger] ((rcgc_uart_after(uart, rcgc_uart) >> j) & 1u32) == 1u32)
                <==> j == 1),
        uart > 1 ==> rcgc_uart_after(uart, rcgc_uart) == rcgc_uart,
{
    assert forall|j: u32| j < 32 implies ((#[trigger] ((1u32 >> j) & 1u32) == 1u32) <==> j == 0) by {
        assert(j < 32u32 ==> (((1u32 >> j) & 1u32) == 1u32) == (j == 0u32)) by (bit_vector);
    }
    assert forall|j: u32| j < 32 implies ((#[trigger] ((2u32 >> j) & 1u32) == 1u32) <==> j == 1) by {
        assert(j < 32u32 ==> (((2u32 >> j) & 1u32) == 1u32) == (j == 1u32)) by (bit_vector);
    }
}

} // verus!
