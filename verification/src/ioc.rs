//! The I/O controller (IOC): which peripheral signal drives each pin, which
//! pin feeds each peripheral input, and each pin's override configuration
//! (output enable, analog, pull-up and pull-down).  The registers are
//! modelled by their values; reading or writing the device is the board's
//! part.
use vstd::prelude::*;
use crate::hil::InputMode;

verus! {

/// Address of the pin-select registers `IOC_PXX_SEL`.
pub const SEL_BASE: usize = 0x400D4000;

/// Address of the override registers `IOC_PXX_OVER`.
pub const OVER_BASE: usize = 0x400D4080;

/// Address of the peripheral-input registers.
pub const PERIPHERAL_BASE: usize = 0x400D4100;

/// `IOC_PXX_SEL`: for each of the 32 pins, the peripheral output driving it.
pub struct SelRegisters {
    pub selpins: Vec<u32>,
}

/// `IOC_PXX_OVER`: for each of the 32 pins, its override configuration.
pub struct OverRegisters {
    pub overpins: Vec<u32>,
}

/// For each of the 14 peripheral inputs, the pin that feeds it.
pub struct PeripheralRegisters {
    pub peripheralregs: Vec<u32>,
}

impl SelRegisters {
    pub open spec fn wf(&self) -> bool {
        self.selpins@.len() == 32
    }
}

impl OverRegisters {
    pub open spec fn wf(&self) -> bool {
        self.overpins@.len() == 32
    }
}

impl PeripheralRegisters {
    pub open spec fn wf(&self) -> bool {
        self.peripheralregs@.len() == 14
    }
}

/// The override value `set_input_mode` writes for a pin whose override
/// register holds `current`: pull-down and pull-up set `PDE` (bit 1) or
/// `PUE` (bit 2) alone; no pull clears both and keeps `OE` and `ANA`.
pub open spec fn input_mode_value(mode: InputMode, current: u32) -> u32 {
    match mode {
        InputMode::PullDown => 0x2,
        InputMode::PullUp => 0x4,
        InputMode::PullNone => current & 0x9,
    }
}

/// Routes peripheral output `peripheral` to pin `pin` (`IOC_PXX_SEL`).
pub fn select_peripheral_output(sel_regs: &mut SelRegisters, pin: usize, peripheral: usize)
    requires
        old(sel_regs).wf(),
        pin < 32,
    ensures
        final(sel_regs).selpins@ == old(sel_regs).selpins@.update(pin as int, peripheral as u32),
{
    sel_regs.selpins.set(pin, peripheral as u32);
}

/// Writes `mode` to the override register of pin `pin`; used only to set
/// the output-enable and analog bits.
pub fn override_config(over_regs: &mut OverRegisters, pin: usize, mode: usize)
    requires
        old(over_regs).wf(),
        pin < 32,
    ensures
        final(over_regs).overpins@ == old(over_regs).overpins@.update(pin as int, mode as u32),
{
    over_regs.overpins.set(pin, mode as u32);
}

/// Sets the pull-up and pull-down bits of pin `pin` for `mode`.
pub fn set_input_mode(over_regs: &mut OverRegisters, pin: usize, mode: InputMode)
    requires
        old(over_regs).wf(),
        pin < 32,
    ensures
        final(over_regs).overpins@ == old(over_regs).overpins@.update(
            pin as int,
            input_mode_value(mode, old(over_regs).overpins@[pin as int]),
        ),
{
    let in_mode: u32 = match mode {
        InputMode::PullDown => 0x2,
        InputMode::PullUp => 0x4,
        // AND with 0x9 (1001) clears the bits for PDE and PUE
        InputMode::PullNone => over_regs.overpins[pin] & 0x9,
    };
    over_regs.overpins.set(pin, in_mode);
}

/// Feeds peripheral input `peripheral` from pin `pin`.
pub fn select_peripheral_input(
    peripheral_regs: &mut PeripheralRegisters,
    peripheral: usize,
    pin: usize,
)
    requires
        old(peripheral_regs).wf(),
        peripheral < 14,
    ensures
        final(peripheral_regs).peripheralregs@ == old(peripheral_regs).peripheralregs@.update(
            peripheral as int,
            pin as u32,
        ),
{
    peripheral_regs.peripheralregs.set(peripheral, pin as u32);
}


/// Pull-down sets exactly the `PDE` bit (1), pull-up exactly the `PUE` bit
/// (2); no pull clears both and every bit but `OE` (3) and `ANA` (0), which
/// it keeps.
pub proof fn law_input_mode_bits(current: u32)
    ensures
        forall|j: u32|
            j < 32 ==> ((#[trigger] ((input_mode_value(InputMode::PullDown, current) >> j) & 1u32)
                == 1u32) <==> j == 1),
        forall|j: u32|
            j < 32 ==> ((#[trigger] ((input_mode_value(InputMode::PullUp, current) >> j) & 1u32)
                == 1u32) <==> j == 2),
        forall|j: u32|
            j < 32 ==> (#[trigger] ((input_mode_value(InputMode::PullNone, current) >> j) & 1u32)
                == if j == 0 || j == 3 {
                (current >> j) & 1u32
            } else {
                0u32
            }),
{
    assert forall|j: u32| j < 32 implies ((#[trigger] ((2u32 >> j) & 1u32) == 1u32) <==> j == 1) by {
        assert(j < 32u32 ==> (((2u32 >> j) & 1u32) == 1u32) == (j == 1u32)) by (bit_vector);
    }
    assert forall|j: u32| j < 32 implies ((#[trigger] ((4u32 >> j) & 1u32) == 1u32) <==> j == 2) by {
        assert(j < 32u32 ==> (((4u32 >> j) & 1u32) == 1u32) == (j == 2u32)) by (bit_vector);
    }
    assert forall|j: u32| j < 32 implies #[trigger] (((current & 0x9u32) >> j) & 1u32) == if j
        == 0 || j == 3 {
        (current >> j) & 1u32
    } else {
        0u32
    } by {
        assert(j < 32u32 ==> ((current & 0x9u32) >> j) & 1u32 == if j == 0u32 || j == 3u32 {
            (current >> j) & 1u32
        } else {
            0u32
        }) by (bit_vector);
    }
}

} // verus!
