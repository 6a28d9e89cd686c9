//! General-purpose I/O on the CC2538: the pins, the pin driver over a model
//! of a port's register block, and the ports.
use vstd::prelude::*;
use crate::hil::{InputMode, InterruptMode};
use crate::ioc::{self, OverRegisters, PeripheralRegisters, SelRegisters};

verus! {

/// Number of pins on a port.
pub const PORT_PINS: usize = 8;

/// Address of port A's register block.
pub const BASE_ADDRESS: usize = 0x400D9000;

/// Distance between the register blocks of consecutive ports.
pub const PORT_OFFSET: usize = 0x1000;

/// The 32 GPIO pins: eight on each of the ports A to D.
#[derive(Clone, Copy, Debug, PartialEq, Eq, Structural)]
pub enum Pin {
    PA00, PA01, PA02, PA03, PA04, PA05, PA06, PA07,
    PB00, PB01, PB02, PB03, PB04, PB05, PB06, PB07,
    PC00, PC01, PC02, PC03, PC04, PC05, PC06, PC07,
    PD00, PD01, PD02, PD03, PD04, PD05, PD06, PD07,
}

impl Pin {
    /// The pin's number, 0 to 31: eight times its port plus its place on the port.
    pub open spec fn spec_index(self) -> usize {
        match self {
            Pin::PA00 => 0,
            Pin::PA01 => 1,
            Pin::PA02 => 2,
            Pin::PA03 => 3,
            Pin::PA04 => 4,
            Pin::PA05 => 5,
            Pin::PA06 => 6,
            Pin::PA07 => 7,
            Pin::PB00 => 8,
            Pin::PB01 => 9,
            Pin::PB02 => 10,
            Pin::PB03 => 11,
            Pin::PB04 => 12,
            Pin::PB05 => 13,
            Pin::PB06 => 14,
            Pin::PB07 => 15,
            Pin::PC00 => 16,
            Pin::PC01 => 17,
            Pin::PC02 => 18,
            Pin::PC03 => 19,
            Pin::PC04 => 20,
            Pin::PC05 => 21,
            Pin::PC06 => 22,
            Pin::PC07 => 23,
            Pin::PD00 => 24,
            Pin::PD01 => 25,
            Pin::PD02 => 26,
            Pin::PD03 => 27,
            Pin::PD04 => 28,
            Pin::PD05 => 29,
            Pin::PD06 => 30,
            Pin::PD07 => 31,
        }
    }

    /// The pin's number, 0 to 31.
    pub fn index(self) -> (r: usize)
        ensures
            r == self.spec_index(),
            r < 32,
    {
        match self {
            Pin::PA00 => 0,
            Pin::PA01 => 1,
            Pin::PA02 => 2,
            Pin::PA03 => 3,
            Pin::PA04 => 4,
            Pin::PA05 => 5,
            Pin::PA06 => 6,
            Pin::PA07 => 7,
            Pin::PB00 => 8,
            Pin::PB01 => 9,
            Pin::PB02 => 10,
            Pin::PB03 => 11,
            Pin::PB04 => 12,
            Pin::PB05 => 13,
            Pin::PB06 => 14,
            Pin::PB07 => 15,
            Pin::PC00 => 16,
            Pin::PC01 => 17,
            Pin::PC02 => 18,
            Pin::PC03 => 19,
            Pin::PC04 => 20,
            Pin::PC05 => 21,
            Pin::PC06 => 22,
            Pin::PC07 => 23,
            Pin::PD00 => 24,
            Pin::PD01 => 25,
            Pin::PD02 => 26,
            Pin::PD03 => 27,
            Pin::PD04 => 28,
            Pin::PD05 => 29,
            Pin::PD06 => 30,
            Pin::PD07 => 31,
        }
    }
}

/// A model of one port's GPIO register block: the value of each register.
/// `data` is the address-masked data window (`0x400` bytes): a byte
/// written at offset `mask << 2` reaches the pins in `mask`.
pub struct GPIORegisters {
    pub data: Vec<u8>,
    pub dir: u32,
    pub is: u32,
    pub ibe: u32,
    pub iev: u32,
    pub ie: u32,
    pub ris: u32,
    pub mis: u32,
    pub ic: u32,
    pub afsel: u32,
    pub gpiolock: u32,
    pub gpiocr: u32,
    pub pmux: u32,
    pub p_edge_ctrl: u32,
    pub pi_ien: u32,
    pub irq_detect_ack: u32,
    pub usb_irq_ack: u32,
    pub irq_detect_unmask: u32,
}

impl GPIORegisters {
    pub open spec fn wf(&self) -> bool {
        self.data@.len() == 0x400
    }
}

/// Whether bit `j` of `v` is set.
pub open spec fn bit_set(v: u32, j: u32) -> bool {
    (v >> j) & 1u32 == 1u32
}

/// The mask of the pin with number `index` within its port's registers.
pub open spec fn pin_mask_of(index: usize) -> u32 {
    1u32 << ((index % 8) as u32)
}

/// The offset in the data window that addresses exactly the pins in `mask`.
pub open spec fn data_offset(mask: u32) -> usize {
    (mask as usize) << 2usize
}

/// The interrupt-both-edges and interrupt-event registers after enabling
/// the interrupt of the pins in `mask` for `mode`: both edges set the `ibe`
/// bit; a single edge selects falling (clear) or rising (set) in `iev`.
pub open spec fn edge_config(mode: InterruptMode, ibe: u32, iev: u32, mask: u32) -> (u32, u32) {
    match mode {
        InterruptMode::EitherEdge => (ibe | mask, iev),
        InterruptMode::FallingEdge => (ibe, iev & !mask),
        InterruptMode::RisingEdge => (ibe, iev | mask),
    }
}

proof fn lemma_mask_facts(index: usize)
    requires
        index < 32,
    ensures
        pin_mask_of(index) != 0,
        data_offset(pin_mask_of(index)) < 0x400,
{
    let k: u32 = (index % 8) as u32;
    assert(k < 8);
    assert((1u32 << k) != 0u32) by (bit_vector)
        requires
            k < 8u32,
    ;
    assert((((1u32 << k) as usize) << 2usize) < 0x400usize) by (bit_vector)
        requires
            k < 8u32,
    ;
}

/// A GPIO pin: its number, its mask within its port's registers, the
/// address of those registers, and the client to notify of its interrupts
/// with the word given when the interrupt was enabled.
pub struct GPIOPin<C> {
    regs: usize,
    pin: usize,
    pin_mask: u32,
    client_data: usize,
    client: Option<C>,
}

impl<C> GPIOPin<C> {
    /// The pin's number, 0 to 31.
    pub closed spec fn pin_number(&self) -> usize {
        self.pin
    }

    /// The pin's bit in its port's registers.
    pub closed spec fn mask(&self) -> u32 {
        self.pin_mask
    }

    /// The address of the port's register block.
    pub closed spec fn regs_address(&self) -> usize {
        self.regs
    }

    /// The word handed to the client when the interrupt fires.
    pub closed spec fn client_data_value(&self) -> usize {
        self.client_data
    }

    /// The client notified of interrupts, if any.
    pub closed spec fn client_value(&self) -> Option<C> {
        self.client
    }

    pub open spec fn wf(&self) -> bool {
        &&& self.pin_number() < 32
        &&& self.mask() == pin_mask_of(self.pin_number())
        &&& self.regs_address() == BASE_ADDRESS + (self.pin_number() / 8) * PORT_OFFSET
    }

    /// The same pin with the same configuration, except perhaps the
    /// client and its word.
    pub open spec fn same_pin(&self, other: &GPIOPin<C>) -> bool {
        &&& self.pin_number() == other.pin_number()
        &&& self.mask() == other.mask()
        &&& self.regs_address() == other.regs_address()
    }

    /// The driver of `pin`, with no client and a zero word.
    pub fn new(pin: Pin) -> (r: GPIOPin<C>)
        ensures
            r.wf(),
            r.pin_number() == pin.spec_index(),
            r.client_data_value() == 0,
            r.client_value() is None,
    {
        let index = pin.index();
        GPIOPin {
            regs: BASE_ADDRESS + (index / 8) * PORT_OFFSET,
            pin: index,
            pin_mask: 1u32 << ((index as u32) % 8),
            client_data: 0,
            client: None,
        }
    }

    /// Hands the pin back to the GPIO module: clears its bit in `AFSEL`.
    pub fn enable_gpio(&self, regs: &mut GPIORegisters)
        requires
            self.wf(),
        ensures
            *final(regs) == (GPIORegisters { afsel: old(regs).afsel & !self.mask(), ..*old(regs) }),
    {
        regs.afsel = regs.afsel & !self.pin_mask;
    }

    /// Sets the client to notify of this pin's interrupts.
    pub fn set_client(&mut self, client: C)
        ensures
            final(self).same_pin(old(self)),
            final(self).client_data_value() == old(self).client_data_value(),
            final(self).client_value() == Some(client),
    {
        self.client = Some(client);
    }

    /// The client to notify of an interrupt on this pin, with its word;
    /// nothing when no client is set.
    pub fn handle_interrupt(&self) -> (r: Option<(&C, usize)>)
        ensures
            match r {
                Some((c, d)) => self.client_value() == Some(*c) && d == self.client_data_value(),
                None => self.client_value() is None,
            },
    {
        match &self.client {
            Some(c) => Some((c, self.client_data)),
            None => None,
        }
    }

    /// Gives the pin to the peripheral output `peripheral`: sets its bit in
    /// `AFSEL` and routes the peripheral to it.
    pub fn select_hardware_output(
        &self,
        regs: &mut GPIORegisters,
        sel_regs: &mut SelRegisters,
        peripheral: usize,
    )
        requires
            self.wf(),
            old(sel_regs).wf(),
        ensures
            *final(regs) == (GPIORegisters { afsel: old(regs).afsel | self.mask(), ..*old(regs) }),
            final(sel_regs).selpins@ == old(sel_regs).selpins@.update(
                self.pin_number() as int,
                peripheral as u32,
            ),
    {
        regs.afsel = regs.afsel | self.pin_mask;
        ioc::select_peripheral_output(sel_regs, self.pin, peripheral);
    }

    /// Gives the pin to the peripheral input `peripheral`: sets its bit in
    /// `AFSEL` and feeds the peripheral from it.
    pub fn select_hardware_input(
        &self,
        regs: &mut GPIORegisters,
        peripheral_regs: &mut PeripheralRegisters,
        peripheral: usize,
    )
        requires
            self.wf(),
            old(peripheral_regs).wf(),
            peripheral < 14,
        ensures
            *final(regs) == (GPIORegisters { afsel: old(regs).afsel | self.mask(), ..*old(regs) }),
            final(peripheral_regs).peripheralregs@ == old(peripheral_regs).peripheralregs@.update(
                peripheral as int,
                self.pin_number() as u32,
            ),
    {
        regs.afsel = regs.afsel | self.pin_mask;
        ioc::select_peripheral_input(peripheral_regs, peripheral, self.pin);
    }

    /// Writes `mode` to the pin's override register.
    pub fn alt_override(&self, over_regs: &mut OverRegisters, mode: usize)
        requires
            self.wf(),
            old(over_regs).wf(),
        ensures
            final(over_regs).overpins@ == old(over_regs).overpins@.update(
                self.pin_number() as int,
                mode as u32,
            ),
    {
        ioc::override_config(over_regs, self.pin, mode);
    }

    /// The pin's number.
    pub fn get_pin(&self) -> (r: u8)
        requires
            self.wf(),
        ensures
            r == self.pin_number(),
    {
        self.pin as u8
    }

    /// Sets the pin's pull-up and pull-down for `mode`.
    pub fn set_input_mode(&self, over_regs: &mut OverRegisters, mode: InputMode)
        requires
            self.wf(),
            old(over_regs).wf(),
        ensures
            final(over_regs).overpins@ == old(over_regs).overpins@.update(
                self.pin_number() as int,
                ioc::input_mode_value(mode, old(over_regs).overpins@[self.pin_number() as int]),
            ),
    {
        ioc::set_input_mode(over_regs, self.pin, mode);
    }

    /// Makes the pin a GPIO output.
    pub fn make_output(&self, regs: &mut GPIORegisters)
        requires
            self.wf(),
        ensures
            *final(regs) == (GPIORegisters {
                afsel: old(regs).afsel & !self.mask(),
                dir: old(regs).dir | self.mask(),
                ..*old(regs)
            }),
    {
        self.enable_gpio(regs);
        regs.dir = regs.dir | self.pin_mask;
    }

    /// Makes the pin a GPIO input.
    pub fn make_input(&self, regs: &mut GPIORegisters)
        requires
            self.wf(),
        ensures
            *final(regs) == (GPIORegisters {
                afsel: old(regs).afsel & !self.mask(),
                dir: old(regs).dir & !self.mask(),
                ..*old(regs)
            }),
    {
        self.enable_gpio(regs);
        regs.dir = regs.dir & !self.pin_mask;
    }

    /// Enables the pin's edge-detected interrupt for `mode`, to be reported
    /// with `client_data`: clears a pending interrupt, selects edge
    /// detection, unmasks the interrupt and configures the edges.
    pub fn enable_interrupt(
        &mut self,
        regs: &mut GPIORegisters,
        client_data: usize,
        mode: InterruptMode,
    )
        requires
            old(self).wf(),
        ensures
            final(self).same_pin(old(self)),
            final(self).client_value() == old(self).client_value(),
            final(self).client_data_value() == client_data,
            *final(regs) == (GPIORegisters {
                ic: old(regs).ic | old(self).mask(),
                is: old(regs).is & !old(self).mask(),
                ie: old(regs).ie | old(self).mask(),
                ibe: edge_config(mode, old(regs).ibe, old(regs).iev, old(self).mask()).0,
                iev: edge_config(mode, old(regs).ibe, old(regs).iev, old(self).mask()).1,
                ..*old(regs)
            }),
    {
        self.client_data = client_data;
        // clear interrupt
        regs.ic = regs.ic | self.pin_mask;
        // edge-detected interrupt
        regs.is = regs.is & !self.pin_mask;
        // enable interrupt
        regs.ie = regs.ie | self.pin_mask;
        let edge_mode: u32 = match mode {
            InterruptMode::EitherEdge => 0,
            InterruptMode::FallingEdge => 1,
            InterruptMode::RisingEdge => 1,
        };
        if edge_mode == 0 {
            regs.ibe = regs.ibe | self.pin_mask;
        } else {
            let edge_iev = match mode {
                InterruptMode::FallingEdge => regs.iev & !self.pin_mask,
                InterruptMode::RisingEdge => regs.iev | self.pin_mask,
                _ => regs.iev,
            };
            regs.iev = edge_iev;
        }
    }

    /// Masks the pin's interrupt.
    pub fn disable_interrupt(&self, regs: &mut GPIORegisters)
        requires
            self.wf(),
        ensures
            *final(regs) == (GPIORegisters { ie: old(regs).ie & !self.mask(), ..*old(regs) }),
    {
        regs.ie = regs.ie & !self.pin_mask;
    }

    /// Disables the pin: removes its pull-up and pull-down.
    pub fn disable(&self, over_regs: &mut OverRegisters)
        requires
            self.wf(),
            old(over_regs).wf(),
        ensures
            final(over_regs).overpins@ == old(over_regs).overpins@.update(
                self.pin_number() as int,
                ioc::input_mode_value(
                    InputMode::PullNone,
                    old(over_regs).overpins@[self.pin_number() as int],
                ),
            ),
    {
        self.set_input_mode(over_regs, InputMode::PullNone);
    }

    /// Drives the pin high through the masked data window.
    pub fn set(&self, regs: &mut GPIORegisters)
        requires
            self.wf(),
            old(regs).wf(),
        ensures
            *final(regs) == (GPIORegisters {
                data: final(regs).data,
                ..*old(regs)
            }),
            final(regs).data@ == old(regs).data@.update(data_offset(self.mask()) as int, 0xFFu8),
    {
        proof {
            lemma_mask_facts(self.pin);
        }
        regs.data.set((self.pin_mask as usize) << 2usize, 0xFF);
    }

    /// Drives the pin low through the masked data window.
    pub fn clear(&self, regs: &mut GPIORegisters)
        requires
            self.wf(),
            old(regs).wf(),
        ensures
            *final(regs) == (GPIORegisters {
                data: final(regs).data,
                ..*old(regs)
            }),
            final(regs).data@ == old(regs).data@.update(data_offset(self.mask()) as int, 0x00u8),
    {
        proof {
            lemma_mask_facts(self.pin);
        }
        regs.data.set((self.pin_mask as usize) << 2usize, 0x00);
    }

    /// Inverts the byte of the masked data window that addresses the pin.
    pub fn toggle(&self, regs: &mut GPIORegisters)
        requires
            self.wf(),
            old(regs).wf(),
        ensures
            *final(regs) == (GPIORegisters {
                data: final(regs).data,
                ..*old(regs)
            }),
            final(regs).data@ == old(regs).data@.update(
                data_offset(self.mask()) as int,
                old(regs).data@[data_offset(self.mask()) as int] ^ 0xFFu8,
            ),
    {
        proof {
            lemma_mask_facts(self.pin);
        }
        let index: usize = (self.pin_mask as usize) << 2usize;
        let toggled_data: u8 = regs.data[index] ^ 0xFF;
        regs.data.set(index, toggled_data);
    }

    /// Whether the pin's direction bit is clear (the pin is an input).
    pub fn read(&self, regs: &GPIORegisters) -> (r: bool)
        requires
            self.wf(),
        ensures
            r == (regs.dir & self.mask() == 0),
    {
        (regs.dir & self.pin_mask) == 0
    }
}

proof fn lemma_low_byte_clear(v: u32)
    requires
        (v >> 0u32) & 1u32 == 0u32,
        (v >> 1u32) & 1u32 == 0u32,
        (v >> 2u32) & 1u32 == 0u32,
        (v >> 3u32) & 1u32 == 0u32,
        (v >> 4u32) & 1u32 == 0u32,
        (v >> 5u32) & 1u32 == 0u32,
        (v >> 6u32) & 1u32 == 0u32,
        (v >> 7u32) & 1u32 == 0u32,
    ensures
        v & 0xFFu32 == 0u32,
{
    assert(v & 0xFFu32 == 0u32) by (bit_vector)
        requires
            (v >> 0u32) & 1u32 == 0u32,
            (v >> 1u32) & 1u32 == 0u32,
            (v >> 2u32) & 1u32 == 0u32,
            (v >> 3u32) & 1u32 == 0u32,
            (v >> 4u32) & 1u32 == 0u32,
            (v >> 5u32) & 1u32 == 0u32,
            (v >> 6u32) & 1u32 == 0u32,
            (v >> 7u32) & 1u32 == 0u32,
    ;
}

/// A GPIO port: its register block's address and its eight pins.
pub struct Port<C> {
    regs: usize,
    pins: [GPIOPin<C>; 8],
}

impl<C> Port<C> {
    /// The address of the port's register block.
    pub closed spec fn regs_address(&self) -> usize {
        self.regs
    }

    /// The port's eight pins.
    pub closed spec fn pins(&self) -> Seq<GPIOPin<C>> {
        self.pins@
    }

    /// Port `port` (0 to 3 for A to D), its pins new: pin `i` is the pin
    /// numbered `8 * port + i`.
    pub fn new(port: usize) -> (r: Port<C>)
        requires
            port < 4,
        ensures
            r.regs_address() == BASE_ADDRESS + port * PORT_OFFSET,
            r.pins().len() == PORT_PINS,
            forall|i: int|
                #![trigger r.pins()[i]]
                0 <= i < 8 ==> r.pins()[i].wf() && r.pins()[i].pin_number() == 8 * port + i
                    && r.pins()[i].client_data_value() == 0 && r.pins()[i].client_value() is None,
    {
        match port {
            0 => Port {
                regs: BASE_ADDRESS + 0 * PORT_OFFSET,
                pins: [
                    GPIOPin::new(Pin::PA00),
                    GPIOPin::new(Pin::PA01),
                    GPIOPin::new(Pin::PA02),
                    GPIOPin::new(Pin::PA03),
                    GPIOPin::new(Pin::PA04),
                    GPIOPin::new(Pin::PA05),
                    GPIOPin::new(Pin::PA06),
                    GPIOPin::new(Pin::PA07),
                ],
            },
            1 => Port {
                regs: BASE_ADDRESS + 1 * PORT_OFFSET,
                pins: [
                    GPIOPin::new(Pin::PB00),
                    GPIOPin::new(Pin::PB01),
                    GPIOPin::new(Pin::PB02),
                    GPIOPin::new(Pin::PB03),
                    GPIOPin::new(Pin::PB04),
                    GPIOPin::new(Pin::PB05),
                    GPIOPin::new(Pin::PB06),
                    GPIOPin::new(Pin::PB07),
                ],
            },
            2 => Port {
                regs: BASE_ADDRESS + 2 * PORT_OFFSET,
                pins: [
                    GPIOPin::new(Pin::PC00),
                    GPIOPin::new(Pin::PC01),
                    GPIOPin::new(Pin::PC02),
                    GPIOPin::new(Pin::PC03),
                    GPIOPin::new(Pin::PC04),
                    GPIOPin::new(Pin::PC05),
                    GPIOPin::new(Pin::PC06),
                    GPIOPin::new(Pin::PC07),
                ],
            },
            _ => Port {
                regs: BASE_ADDRESS + 3 * PORT_OFFSET,
                pins: [
                    GPIOPin::new(Pin::PD00),
                    GPIOPin::new(Pin::PD01),
                    GPIOPin::new(Pin::PD02),
                    GPIOPin::new(Pin::PD03),
                    GPIOPin::new(Pin::PD04),
                    GPIOPin::new(Pin::PD05),
                    GPIOPin::new(Pin::PD06),
                    GPIOPin::new(Pin::PD07),
                ],
            },
        }
    }

    /// Pin `index` of the port.
    pub fn index(&self, index: usize) -> (r: &GPIOPin<C>)
        requires
            index < PORT_PINS,
        ensures
            *r == self.pins()[index as int],
    {
        &self.pins[index]
    }

    /// Pin `index` of the port, to change it in place.
    pub fn index_mut(&mut self, index: usize) -> (r: &mut GPIOPin<C>)
        requires
            index < PORT_PINS,
        ensures
            *r == old(self).pins()[index as int],
            final(self).regs_address() == old(self).regs_address(),
            final(self).pins() == old(self).pins().update(index as int, *final(r)),
    {
        &mut self.pins[index]
    }

    /// The pin whose interrupt the port's interrupt handler serves for the
    /// masked interrupt status `ir_status`: the lowest set bit, if it is one
    /// of the port's eight.
    pub fn interrupt_pin(&self, ir_status: u32) -> (r: Option<usize>)
        ensures
            match r {
                Some(pin) => pin < PORT_PINS && pin == vstd::std_specs::bits::u32_trailing_zeros(ir_status)
                    && bit_set(ir_status, pin as u32)
                    && forall|j: u32| j < pin ==> !bit_set(ir_status, j),
                None => ir_status & 0xFFu32 == 0,
            },
    {
        let pin = ir_status.trailing_zeros() as usize;
        if pin >= PORT_PINS {
            proof {
                vstd::std_specs::bits::axiom_u32_trailing_zeros(ir_status);
                let tz = vstd::std_specs::bits::u32_trailing_zeros(ir_status);
                assert(tz >= 8);
                assert((ir_status >> 0u32) & 1u32 == 0u32);
                assert((ir_status >> 1u32) & 1u32 == 0u32);
                assert((ir_status >> 2u32) & 1u32 == 0u32);
                assert((ir_status >> 3u32) & 1u32 == 0u32);
                assert((ir_status >> 4u32) & 1u32 == 0u32);
                assert((ir_status >> 5u32) & 1u32 == 0u32);
                assert((ir_status >> 6u32) & 1u32 == 0u32);
                assert((ir_status >> 7u32) & 1u32 == 0u32);
                lemma_low_byte_clear(ir_status);
            }
            None
        } else {
            proof {
                vstd::std_specs::bits::axiom_u32_trailing_zeros(ir_status);
            }
            Some(pin)
        }
    }
}

impl Pin {
    /// Distinct pins have distinct numbers.
    pub proof fn law_index_injective(p: Pin, q: Pin)
        ensures
            p.spec_index() == q.spec_index() ==> p == q,
    {
    }
}

proof fn lemma_bit_ops(v: u32, k: u32)
    requires
        k < 8,
    ensures
        bit_set(v | (1u32 << k), k),
        !bit_set(v & !(1u32 << k), k),
        (v | (1u32 << k)) & (1u32 << k) != 0,
        (v & !(1u32 << k)) & (1u32 << k) == 0,
        forall|j: u32| j < 32 && j != k ==> #[trigger] bit_set(v | (1u32 << k), j) == bit_set(v, j),
        forall|j: u32| j < 32 && j != k ==> #[trigger] bit_set(v & !(1u32 << k), j) == bit_set(v, j),
{
    assert(((v | (1u32 << k)) >> k) & 1u32 == 1u32) by (bit_vector)
        requires
            k < 8u32,
    ;
    assert(((v & !(1u32 << k)) >> k) & 1u32 != 1u32) by (bit_vector)
        requires
            k < 8u32,
    ;
    assert((v | (1u32 << k)) & (1u32 << k) != 0u32) by (bit_vector)
        requires
            k < 8u32,
    ;
    assert((v & !(1u32 << k)) & (1u32 << k) == 0u32) by (bit_vector)
        requires
            k < 8u32,
    ;
    assert forall|j: u32| j < 32 && j != k implies #[trigger] bit_set(v | (1u32 << k), j) == bit_set(
        v,
        j,
    ) by {
        assert(((v | (1u32 << k)) >> j) & 1u32 == (v >> j) & 1u32) by (bit_vector)
            requires
                k < 8u32,
                j < 32u32,
                j != k,
        ;
    }
    assert forall|j: u32| j < 32 && j != k implies #[trigger] bit_set(v & !(1u32 << k), j)
        == bit_set(v, j) by {
        assert(((v & !(1u32 << k)) >> j) & 1u32 == (v >> j) & 1u32) by (bit_vector)
            requires
                k < 8u32,
                j < 32u32,
                j != k,
        ;
    }
}

impl<C> GPIOPin<C> {
    /// The pin's place on its port, the bit its mask sets.
    pub open spec fn bit(&self) -> u32 {
        (self.pin_number() % 8) as u32
    }

    /// Making the pin an output sets its bit in `dir` (so `read` is
    /// false) and leaves every other pin's bit; making it an input clears
    /// it (so `read` is true) and leaves every other pin's bit.  The same
    /// holds of every register these operations set or clear the pin's bit
    /// in (`afsel`, `ie`, `ic`, `is`, `ibe`, `iev`).
    pub proof fn law_set_clear_own_bit(&self, v: u32)
        requires
            self.wf(),
        ensures
            bit_set(v | self.mask(), self.bit()),
            !bit_set(v & !self.mask(), self.bit()),
            !((v | self.mask()) & self.mask() == 0),
            (v & !self.mask()) & self.mask() == 0,
            forall|j: u32|
                j < 32 && j != self.bit() ==> #[trigger] bit_set(v | self.mask(), j) == bit_set(
                    v,
                    j,
                ),
            forall|j: u32|
                j < 32 && j != self.bit() ==> #[trigger] bit_set(v & !self.mask(), j) == bit_set(
                    v,
                    j,
                ),
    {
        lemma_bit_ops(v, self.bit());
    }

    /// Enabling the pin's interrupt and then disabling it leaves it masked
    /// and every other pin's mask bit as it was.
    pub proof fn law_enable_then_disable_interrupt(&self, ie: u32)
        requires
            self.wf(),
        ensures
            !bit_set((ie | self.mask()) & !self.mask(), self.bit()),
            forall|j: u32|
                j < 32 && j != self.bit() ==> #[trigger] bit_set(
                    (ie | self.mask()) & !self.mask(),
                    j,
                ) == bit_set(ie, j),
    {
        lemma_bit_ops(ie, self.bit());
        lemma_bit_ops(ie | self.mask(), self.bit());
    }

    /// Two pins of a port address different bytes of the data window, so
    /// setting, clearing or toggling one leaves the other's byte.
    pub proof fn law_data_offsets_distinct(&self, other: &GPIOPin<C>)
        requires
            self.wf(),
            other.wf(),
            self.bit() != other.bit(),
        ensures
            data_offset(self.mask()) != data_offset(other.mask()),
    {
        let k1 = self.bit();
        let k2 = other.bit();
        assert((((1u32 << k1) as usize) << 2usize) != (((1u32 << k2) as usize) << 2usize))
            by (bit_vector)
            requires
                k1 < 8u32,
                k2 < 8u32,
                k1 != k2,
        ;
    }

    /// Toggling the pin twice restores its byte of the data window.
    pub proof fn law_toggle_twice(&self, b: u8)
        ensures
            (b ^ 0xFFu8) ^ 0xFFu8 == b,
    {
        assert((b ^ 0xFFu8) ^ 0xFFu8 == b) by (bit_vector);
    }
}

impl<C> GPIOPin<C> {
    /// Enabling the pin's interrupt sets its bits in `IC` and `IE` and
    /// clears it in `IS`; for both edges it sets its `IBE` bit and leaves
    /// `IEV`; for the falling edge it clears its `IEV` bit, for the rising
    /// edge it sets it, leaving `IBE`; every other pin's bits stay.
    pub proof fn law_interrupt_edge(&self, mode: InterruptMode, ibe: u32, iev: u32)
        requires
            self.wf(),
        ensures
            ({
                let (ibe2, iev2) = edge_config(mode, ibe, iev, self.mask());
                &&& mode == InterruptMode::EitherEdge ==> bit_set(ibe2, self.bit()) && iev2 == iev
                &&& mode == InterruptMode::FallingEdge ==> !bit_set(iev2, self.bit()) && ibe2
                    == ibe
                &&& mode == InterruptMode::RisingEdge ==> bit_set(iev2, self.bit()) && ibe2 == ibe
                &&& forall|j: u32|
                    j < 32 && j != self.bit() ==> #[trigger] bit_set(ibe2, j) == bit_set(ibe, j)
                        && bit_set(iev2, j) == bit_set(iev, j)
            }),
    {
        lemma_bit_ops(ibe, self.bit());
        lemma_bit_ops(iev, self.bit());
    }
}

/// Pin numbers count the pins port by port: pin `n` of port A, B, C or D
/// is numbered `8 * 0 + n`, `8 * 1 + n`, `8 * 2 + n` or `8 * 3 + n`.
pub proof fn law_pin_numbering()
    ensures
        Pin::PA00.spec_index() == 8 * 0 + 0,
        Pin::PA01.spec_index() == 8 * 0 + 1,
        Pin::PA02.spec_index() == 8 * 0 + 2,
        Pin::PA03.spec_index() == 8 * 0 + 3,
        Pin::PA04.spec_index() == 8 * 0 + 4,
        Pin::PA05.spec_index() == 8 * 0 + 5,
        Pin::PA06.spec_index() == 8 * 0 + 6,
        Pin::PA07.spec_index() == 8 * 0 + 7,
        Pin::PB00.spec_index() == 8 * 1 + 0,
        Pin::PB01.spec_index() == 8 * 1 + 1,
        Pin::PB02.spec_index() == 8 * 1 + 2,
        Pin::PB03.spec_index() == 8 * 1 + 3,
        Pin::PB04.spec_index() == 8 * 1 + 4,
        Pin::PB05.spec_index() == 8 * 1 + 5,
        Pin::PB06.spec_index() == 8 * 1 + 6,
        Pin::PB07.spec_index() == 8 * 1 + 7,
        Pin::PC00.spec_index() == 8 * 2 + 0,
        Pin::PC01.spec_index() == 8 * 2 + 1,
        Pin::PC02.spec_index() == 8 * 2 + 2,
        Pin::PC03.spec_index() == 8 * 2 + 3,
        Pin::PC04.spec_index() == 8 * 2 + 4,
        Pin::PC05.spec_index() == 8 * 2 + 5,
        Pin::PC06.spec_index() == 8 * 2 + 6,
        Pin::PC07.spec_index() == 8 * 2 + 7,
        Pin::PD00.spec_index() == 8 * 3 + 0,
        Pin::PD01.spec_index() == 8 * 3 + 1,
        Pin::PD02.spec_index() == 8 * 3 + 2,
        Pin::PD03.spec_index() == 8 * 3 + 3,
        Pin::PD04.spec_index() == 8 * 3 + 4,
        Pin::PD05.spec_index() == 8 * 3 + 5,
        Pin::PD06.spec_index() == 8 * 3 + 6,
        Pin::PD07.spec_index() == 8 * 3 + 7,
{
}

/// A pin's driver drives bit `n` of its port's registers, where `n` is the
/// pin's place on its port, in the register block of that port.
pub proof fn law_pin_mask_and_block<C>(p: GPIOPin<C>)
    requires
        p.wf(),
    ensures
        p.mask() == 1u32 << ((p.pin_number() % 8) as u32),
        p.regs_address() == BASE_ADDRESS + (p.pin_number() / 8) * PORT_OFFSET,
        bit_set(p.mask(), (p.pin_number() % 8) as u32),
        forall|j: u32| j < 32 && j != (p.pin_number() % 8) as u32 ==> !#[trigger] bit_set(
            p.mask(),
            j,
        ),
{
    let k: u32 = (p.pin_number() % 8) as u32;
    assert(((1u32 << k) >> k) & 1u32 == 1u32) by (bit_vector)
        requires
            k < 8u32,
    ;
    assert forall|j: u32| j < 32 && j != k implies !#[trigger] bit_set(1u32 << k, j) by {
        assert(((1u32 << k) >> j) & 1u32 != 1u32) by (bit_vector)
            requires
                k < 8u32,
                j < 32u32,
                j != k,
        ;
    }
}


/// Port `p`'s register block is at `0x400D9000 + 0x1000 * p`, and a pin's
/// byte of the data window is at four times its mask.
pub proof fn law_block_addresses_and_data_offset<C>(p: GPIOPin<C>)
    requires
        p.wf(),
    ensures
        p.regs_address() == 0x400D9000 + 0x1000 * (p.pin_number() / 8),
        data_offset(p.mask()) == 4 * p.mask(),
{
    let k: u32 = (p.pin_number() % 8) as u32;
    assert((((1u32 << k) as usize) << 2usize) == 4 * ((1u32 << k) as usize)) by (bit_vector)
        requires
            k < 8u32,
    ;
}

} // verus!
