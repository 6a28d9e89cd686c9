//! The CC2538 UART driver over a model of its register block.  Waiting on
//! the hardware (for room in the transmit FIFO) is the board's part: it
//! polls `tx_ready` before each `send_data`.
use vstd::prelude::*;
use crate::hil::UARTParams;
use crate::sys_ctrl::{self, SYSCTRLRegisters};

verus! {

/// Address of UART0's register block.
pub const UART0_BASE_ADDR: usize = 0x4000C000;

/// Address of UART1's register block.
pub const UART1_BASE_ADDR: usize = 0x4000D000;

/// The UART clock, 20 MHz.
pub const UART_CLOCK: u32 = 20000000;

/// `FR.TXFF`: the transmit FIFO is full.
pub const FLAGS_TX_FIFO_FULL: u32 = 0x20;

/// `IBRD.DIVINT`: the integer baud-rate divisor, 16 bits.
pub const INT_DIVISOR_MASK: u32 = 0xFFFF;

/// `FBRD.DIVFRAC`: the fractional baud-rate divisor, 6 bits.
pub const FRAC_DIVISOR_MASK: u32 = 0x3F;

/// `LCRH.FEN`: the FIFOs are enabled.
pub const LINE_CONTROL_FIFO_ENABLE: u32 = 0x10;

/// `LCRH.WLEN` set to eight-bit words.
pub const LINE_CONTROL_WORD_LENGTH_LEN8: u32 = 0x60;

/// `CTL.UARTEN`: the UART is enabled.
pub const CONTROL_UART_ENABLE: u32 = 0x1;

/// `CTL.HSE`, the high-speed bit: `set_baudrate` computes the divisor with
/// a clock divider of 16 when it is set and 8 when it is clear.
pub const CONTROL_HIGHSPEED_ENABLE: u32 = 0x20;

/// `CTL.TXE`: the transmitter is enabled.
pub const CONTROL_TX_ENABLE: u32 = 0x100;

/// `CTL.RXE`: the receiver is enabled.
pub const CONTROL_RX_ENABLE: u32 = 0x200;

/// A model of a UART's register block: the value of each register.
pub struct UARTRegisters {
    pub dr: u32,
    pub rsr_ecr: u32,
    pub fr: u32,
    pub ilpr: u32,
    pub ibrd: u32,
    pub fbrd: u32,
    pub lcrh: u32,
    pub ctl: u32,
    pub ifls: u32,
    pub im: u32,
    pub ris: u32,
    pub mis: u32,
    pub icr: u32,
    pub dmactl: u32,
}

/// A write to a UART register, in the order a configuration makes them.
#[derive(Clone, Copy, Debug, PartialEq, Eq, Structural)]
pub enum UartWrite {
    Ctl(u32),
    Ibrd(u32),
    Fbrd(u32),
    Lcrh(u32),
}

/// The clock divider the baud rate is computed with for control register
/// `ctl`: 16 in high-speed mode, 8 otherwise.
pub open spec fn clock_divider(ctl: u32) -> u32 {
    if ctl & CONTROL_HIGHSPEED_ENABLE != 0 {
        16
    } else {
        8
    }
}

/// The integer baud-rate divisor for `baudrate` with clock divider `clkdiv`.
pub open spec fn int_divisor(clkdiv: u32, baudrate: u32) -> u32 {
    (UART_CLOCK / (clkdiv * baudrate) as u32) as u32
}

/// The driver of one UART: its register block's address, its client, the
/// pins chosen for it and its number (0 or 1).
pub struct UART<C> {
    regs: usize,
    client: Option<C>,
    tx_pin: Option<u8>,
    rx_pin: Option<u8>,
    uart_number: usize,
}

impl<C> UART<C> {
    pub closed spec fn regs_address(&self) -> usize {
        self.regs
    }

    pub closed spec fn client_value(&self) -> Option<C> {
        self.client
    }

    pub closed spec fn tx_pin_value(&self) -> Option<u8> {
        self.tx_pin
    }

    pub closed spec fn rx_pin_value(&self) -> Option<u8> {
        self.rx_pin
    }

    pub closed spec fn uart_number_value(&self) -> usize {
        self.uart_number
    }

    /// The driver of UART number `uart_nr` at `base_addr`, with no client
    /// and no pins.
    pub fn new(base_addr: usize, uart_nr: usize) -> (r: UART<C>)
        ensures
            r.regs_address() == base_addr,
            r.uart_number_value() == uart_nr,
            r.client_value() is None,
            r.tx_pin_value() is None,
            r.rx_pin_value() is None,
    {
        UART { regs: base_addr, client: None, tx_pin: None, rx_pin: None, uart_number: uart_nr }
    }

    /// Selects the pins to connect to the UART; must be done before
    /// configuring it.
    pub fn set_uart_pins(&mut self, tx: u8, rx: u8)
        ensures
            final(self).tx_pin_value() == Some(tx),
            final(self).rx_pin_value() == Some(rx),
            final(self).regs_address() == old(self).regs_address(),
            final(self).uart_number_value() == old(self).uart_number_value(),
            final(self).client_value() == old(self).client_value(),
    {
        self.tx_pin = Some(tx);
        self.rx_pin = Some(rx);
    }

    /// The transmit pin, if set.
    pub fn tx_pin(&self) -> (r: Option<u8>)
        ensures
            r == self.tx_pin_value(),
    {
        self.tx_pin
    }

    /// The receive pin, if set.
    pub fn rx_pin(&self) -> (r: Option<u8>)
        ensures
            r == self.rx_pin_value(),
    {
        self.rx_pin
    }

    /// Sets the client told of completed transmissions.
    pub fn set_client(&mut self, client: C)
        ensures
            final(self).client_value() == Some(client),
            final(self).tx_pin_value() == old(self).tx_pin_value(),
            final(self).rx_pin_value() == old(self).rx_pin_value(),
            final(self).regs_address() == old(self).regs_address(),
            final(self).uart_number_value() == old(self).uart_number_value(),
    {
        self.client = Some(client);
    }

    /// Clears `CTL.UARTEN`.
    pub fn disable_uart(&self, regs: &mut UARTRegisters)
        ensures
            *final(regs) == (UARTRegisters {
                ctl: old(regs).ctl & !CONTROL_UART_ENABLE,
                ..*old(regs)
            }),
    {
        regs.ctl = regs.ctl & !CONTROL_UART_ENABLE;
    }

    /// Programs the baud-rate divisors for `baudrate`.  The divisor is the
    /// clock over `clkdiv * baudrate`, where `clkdiv` is 16 in high-speed
    /// mode and 8 otherwise.  This quotient is a whole number, so the
    /// fractional divisor, rounded from 64 times its fractional part, is
    /// always 0.  A zero rate, or one whose product with the divider
    /// overflows 32 bits, makes the arithmetic panic; it is left out.
    pub fn set_baudrate(&self, regs: &mut UARTRegisters, baudrate: u32)
        requires
            baudrate > 0,
            clock_divider(old(regs).ctl) * baudrate <= u32::MAX,
        ensures
            *final(regs) == (UARTRegisters {
                ibrd: int_divisor(clock_divider(old(regs).ctl), baudrate) & INT_DIVISOR_MASK,
                fbrd: 0,
                ..*old(regs)
            }),
    {
        let hse = regs.ctl & CONTROL_HIGHSPEED_ENABLE != 0;
        let clkdiv: u32 = match hse {
            true => 16,
            false => 8,
        };
        let ibrd: u32 = UART_CLOCK / (clkdiv * baudrate);
        let fbrd: u32 = 0;
        assert(0u32 & 0x3Fu32 == 0u32) by (bit_vector);
        regs.ibrd = ibrd & INT_DIVISOR_MASK;
        regs.fbrd = fbrd & FRAC_DIVISOR_MASK;
    }

    /// Writes `LCRH` with only the FIFO-enable bit.
    pub fn enable_fifo(&self, regs: &mut UARTRegisters)
        ensures
            *final(regs) == (UARTRegisters { lcrh: LINE_CONTROL_FIFO_ENABLE, ..*old(regs) }),
    {
        regs.lcrh = LINE_CONTROL_FIFO_ENABLE;
    }

    /// Clears `LCRH.FEN`.
    pub fn disable_fifo(&self, regs: &mut UARTRegisters)
        ensures
            *final(regs) == (UARTRegisters {
                lcrh: old(regs).lcrh & !LINE_CONTROL_FIFO_ENABLE,
                ..*old(regs)
            }),
    {
        regs.lcrh = regs.lcrh & !LINE_CONTROL_FIFO_ENABLE;
    }

    /// Configures the UART: runs its clock, disables it, programs the baud
    /// rate, sets eight-bit words, enables the FIFOs (writing `LCRH` whole,
    /// so the word-length setting does not survive) and enables the UART,
    /// its transmitter and its receiver.  Returns the register writes made,
    /// in order.
    ///
    /// Both pins must have been set, or the driver panics.  The driver
    /// routes the pins of the ports it numbers 1 to 4 (`tx_pin / 8`) by
    /// indexing that port's eight pins with the pin number itself, which is
    /// at least 8 there and panics; such pins are left out, and no other
    /// pin is routed.
    pub fn configure_uart(
        &self,
        regs: &mut UARTRegisters,
        sys_ctrl_regs: &mut SYSCTRLRegisters,
        params: UARTParams,
    ) -> (writes: Vec<UartWrite>)
        requires
            self.tx_pin_value() is Some,
            self.rx_pin_value() is Some,
            self.tx_pin_value()->0 / 8 == 0 || self.tx_pin_value()->0 / 8 > 4,
            params.baud_rate > 0,
            clock_divider(old(regs).ctl) * params.baud_rate <= u32::MAX,
        ensures
            *final(sys_ctrl_regs) == (SYSCTRLRegisters {
                rcgc_uart: sys_ctrl::rcgc_uart_after(
                    self.uart_number_value(),
                    old(sys_ctrl_regs).rcgc_uart,
                ),
                ..*old(sys_ctrl_regs)
            }),
            *final(regs) == (UARTRegisters {
                ibrd: int_divisor(clock_divider(old(regs).ctl), params.baud_rate)
                    & INT_DIVISOR_MASK,
                fbrd: 0,
                lcrh: LINE_CONTROL_FIFO_ENABLE,
                ctl: CONTROL_UART_ENABLE | CONTROL_TX_ENABLE | CONTROL_RX_ENABLE,
                ..*old(regs)
            }),
            writes@ == seq![
                UartWrite::Ctl(old(regs).ctl & !CONTROL_UART_ENABLE),
                UartWrite::Ibrd(
                    int_divisor(clock_divider(old(regs).ctl), params.baud_rate) & INT_DIVISOR_MASK,
                ),
                UartWrite::Fbrd(0),
                UartWrite::Lcrh(LINE_CONTROL_WORD_LENGTH_LEN8),
                UartWrite::Lcrh(LINE_CONTROL_FIFO_ENABLE),
                UartWrite::Ctl(CONTROL_UART_ENABLE | CONTROL_TX_ENABLE | CONTROL_RX_ENABLE),
            ],
    {
        let tx_pin = self.tx_pin.unwrap();
        let _rx_pin = self.rx_pin.unwrap();
        let _txport = tx_pin / 8;
        let uart_nbr = self.uart_number;
        sys_ctrl::enable_rcgc_uart(sys_ctrl_regs, uart_nbr);
        let ghost ctl0 = regs.ctl;
        self.disable_uart(regs);
        let ghost ctl1 = regs.ctl;
        assert(ctl1 & 32u32 == ctl0 & 32u32) by (bit_vector)
            requires
                ctl1 == ctl0 & !1u32,
        ;
        let mut writes: Vec<UartWrite> = Vec::new();
        writes.push(UartWrite::Ctl(regs.ctl));
        self.set_baudrate(regs, params.baud_rate);
        writes.push(UartWrite::Ibrd(regs.ibrd));
        writes.push(UartWrite::Fbrd(regs.fbrd));
        regs.lcrh = LINE_CONTROL_WORD_LENGTH_LEN8;
        writes.push(UartWrite::Lcrh(regs.lcrh));
        self.enable_fifo(regs);
        writes.push(UartWrite::Lcrh(regs.lcrh));
        regs.ctl = CONTROL_UART_ENABLE | CONTROL_TX_ENABLE | CONTROL_RX_ENABLE;
        writes.push(UartWrite::Ctl(regs.ctl));
        proof {
            assert(writes@ =~= seq![
                UartWrite::Ctl(ctl1),
                UartWrite::Ibrd(
                    int_divisor(clock_divider(ctl0), params.baud_rate) & INT_DIVISOR_MASK,
                ),
                UartWrite::Fbrd(0),
                UartWrite::Lcrh(LINE_CONTROL_WORD_LENGTH_LEN8),
                UartWrite::Lcrh(LINE_CONTROL_FIFO_ENABLE),
                UartWrite::Ctl(CONTROL_UART_ENABLE | CONTROL_TX_ENABLE | CONTROL_RX_ENABLE),
            ]);
        }
        writes
    }

    /// Configures the UART for `params`; returns the register writes made.
    pub fn init(
        &self,
        regs: &mut UARTRegisters,
        sys_ctrl_regs: &mut SYSCTRLRegisters,
        params: UARTParams,
    ) -> (writes: Vec<UartWrite>)
        requires
            self.tx_pin_value() is Some,
            self.rx_pin_value() is Some,
            self.tx_pin_value()->0 / 8 == 0 || self.tx_pin_value()->0 / 8 > 4,
            params.baud_rate > 0,
            clock_divider(old(regs).ctl) * params.baud_rate <= u32::MAX,
        ensures
            *final(sys_ctrl_regs) == (SYSCTRLRegisters {
                rcgc_uart: sys_ctrl::rcgc_uart_after(
                    self.uart_number_value(),
                    old(sys_ctrl_regs).rcgc_uart,
                ),
                ..*old(sys_ctrl_regs)
            }),
            *final(regs) == (UARTRegisters {
                ibrd: int_divisor(clock_divider(old(regs).ctl), params.baud_rate)
                    & INT_DIVISOR_MASK,
                fbrd: 0,
                lcrh: LINE_CONTROL_FIFO_ENABLE,
                ctl: CONTROL_UART_ENABLE | CONTROL_TX_ENABLE | CONTROL_RX_ENABLE,
                ..*old(regs)
            }),
            writes@ == seq![
                UartWrite::Ctl(old(regs).ctl & !CONTROL_UART_ENABLE),
                UartWrite::Ibrd(
                    int_divisor(clock_divider(old(regs).ctl), params.baud_rate) & INT_DIVISOR_MASK,
                ),
                UartWrite::Fbrd(0),
                UartWrite::Lcrh(LINE_CONTROL_WORD_LENGTH_LEN8),
                UartWrite::Lcrh(LINE_CONTROL_FIFO_ENABLE),
                UartWrite::Ctl(CONTROL_UART_ENABLE | CONTROL_TX_ENABLE | CONTROL_RX_ENABLE),
            ],
    {
        self.configure_uart(regs, sys_ctrl_regs, params)
    }

    /// Whether the transmit FIFO has room.
    pub fn tx_ready(&self, regs: &UARTRegisters) -> (r: bool)
        ensures
            r == (regs.fr & FLAGS_TX_FIFO_FULL == 0),
    {
        !(regs.fr & FLAGS_TX_FIFO_FULL != 0)
    }

    /// Writes `c` to the data register.  The driver first waits while the
    /// transmit FIFO is full; the caller does that wait, polling `tx_ready`.
    pub fn send_data(&self, regs: &mut UARTRegisters, c: u8)
        requires
            old(regs).fr & FLAGS_TX_FIFO_FULL == 0,
        ensures
            *final(regs) == (UARTRegisters { dr: c as u32, ..*old(regs) }),
    {
        regs.dr = c as u32;
    }

    /// A transmission of the first `tx_len` bytes of `tx_data`: the bytes
    /// it sends, one `send_data` each, and the client then told that the
    /// transmission completed, if any; nothing at all (no bytes, no
    /// completion) for a zero length.  A length beyond the buffer panics; it
    /// is left out.
    pub fn transmit(&self, tx_data: &[u8], tx_len: usize) -> (r: Option<(Vec<u8>, Option<&C>)>)
        requires
            tx_len <= tx_data@.len(),
        ensures
            match r {
                None => tx_len == 0,
                Some((bytes, client)) => {
                    &&& tx_len != 0
                    &&& bytes@ == tx_data@.subrange(0, tx_len as int)
                    &&& match client {
                        Some(c) => self.client_value() == Some(*c),
                        None => self.client_value() is None,
                    }
                },
            },
    {
        if tx_len == 0 {
            return None;
        }
        let mut bytes: Vec<u8> = Vec::new();
        let mut q: usize = 0;
        while q < tx_len
            invariant
                q <= tx_len,
                tx_len <= tx_data@.len(),
                bytes@ == tx_data@.subrange(0, q as int),
            decreases tx_len - q,
        {
            bytes.push(tx_data[q]);
            q = q + 1;
        }
        let client = match &self.client {
            Some(c) => Some(c),
            None => None,
        };
        Some((bytes, client))
    }
}


/// The clock divider depends on the high-speed bit (bit 5) of `CTL` alone:
/// 16 when it is set, 8 when it is clear.
pub proof fn law_clock_divider_follows_hse(ctl: u32)
    ensures
        clock_divider(ctl) == (if (ctl >> 5u32) & 1u32 == 1u32 {
            16u32
        } else {
            8u32
        }),
        clock_divider(ctl) == clock_divider(ctl & 0x20u32),
{
    assert((ctl & 0x20u32 != 0u32) == ((ctl >> 5u32) & 1u32 == 1u32)) by (bit_vector);
    assert(((ctl & 0x20u32) & 0x20u32 != 0u32) == (ctl & 0x20u32 != 0u32)) by (bit_vector);
}

/// The integer divisor is the whole number of `clkdiv * baudrate` periods
/// in a second of the UART clock: `divisor * clkdiv * baudrate` is at most
/// the clock and one more period would pass it.
pub proof fn law_int_divisor_is_quotient(clkdiv: u32, baudrate: u32)
    requires
        clkdiv > 0,
        baudrate > 0,
        clkdiv * baudrate <= u32::MAX,
    ensures
        int_divisor(clkdiv, baudrate) * (clkdiv * baudrate) <= UART_CLOCK,
        UART_CLOCK < (int_divisor(clkdiv, baudrate) + 1) * (clkdiv * baudrate),
{
    let d: int = clkdiv * baudrate;
    assert(d > 0) by (nonlinear_arith)
        requires
            clkdiv > 0,
            baudrate > 0,
            d == clkdiv * baudrate,
    ;
    let q: int = 20000000int / d;
    assert(int_divisor(clkdiv, baudrate) == q);
    assert(q * d <= 20000000 && 20000000 < (q + 1) * d) by (nonlinear_arith)
        requires
            d > 0,
            q == 20000000int / d,
    ;
}


/// A configured UART's `CTL` has exactly `UARTEN` (bit 0), `TXE` (bit 8)
/// and `RXE` (bit 9) set; its `LCRH` exactly `FEN` (bit 4); the word-length
/// value written before it sets bits 5 and 6; the transmit FIFO is full
/// when bit 5 of `FR` is set; and the integer divisor field keeps the low
/// 16 bits of the divisor.
pub proof fn law_configured_register_bits(fr: u32, divisor: u32)
    ensures
        forall|j: u32|
            j < 32 ==> ((#[trigger] (((CONTROL_UART_ENABLE | CONTROL_TX_ENABLE | CONTROL_RX_ENABLE)
                >> j) & 1u32) == 1u32) <==> (j == 0 || j == 8 || j == 9)),
        forall|j: u32|
            j < 32 ==> ((#[trigger] ((LINE_CONTROL_FIFO_ENABLE >> j) & 1u32) == 1u32) <==> j == 4),
        forall|j: u32|
            j < 32 ==> ((#[trigger] ((LINE_CONTROL_WORD_LENGTH_LEN8 >> j) & 1u32) == 1u32) <==> (j
                == 5 || j == 6)),
        (fr & FLAGS_TX_FIFO_FULL == 0) <==> ((fr >> 5u32) & 1u32 == 0u32),
        divisor & INT_DIVISOR_MASK == divisor % 65536,
        divisor & FRAC_DIVISOR_MASK == divisor % 64,
{
    assert forall|j: u32| j < 32 implies ((#[trigger] (((0x1u32 | 0x100u32 | 0x200u32) >> j)
        & 1u32) == 1u32) <==> (j == 0 || j == 8 || j == 9)) by {
        assert(j < 32u32 ==> ((((0x1u32 | 0x100u32 | 0x200u32) >> j) & 1u32) == 1u32) == (j
            == 0u32 || j == 8u32 || j == 9u32)) by (bit_vector);
    }
    assert forall|j: u32| j < 32 implies ((#[trigger] ((0x10u32 >> j) & 1u32) == 1u32) <==> j
        == 4) by {
        assert(j < 32u32 ==> (((0x10u32 >> j) & 1u32) == 1u32) == (j == 4u32)) by (bit_vector);
    }
    assert forall|j: u32| j < 32 implies ((#[trigger] ((0x60u32 >> j) & 1u32) == 1u32) <==> (j
        == 5 || j == 6)) by {
        assert(j < 32u32 ==> (((0x60u32 >> j) & 1u32) == 1u32) == (j == 5u32 || j == 6u32))
            by (bit_vector);
    }
    assert((fr & 0x20u32 == 0u32) == ((fr >> 5u32) & 1u32 == 0u32)) by (bit_vector);
    assert(divisor & 0xFFFFu32 == divisor % 65536u32) by (bit_vector);
    assert(divisor & 0x3Fu32 == divisor % 64u32) by (bit_vector);
}

} // verus!
