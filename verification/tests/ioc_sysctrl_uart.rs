use lib::hil::{InputMode, Parity, StopBits, UARTParams};
use lib::ioc::{self, OverRegisters, PeripheralRegisters, SelRegisters};
use lib::sys_ctrl::{self, SYSCTRLRegisters};
use lib::uart::{UARTRegisters, UartWrite, UART, UART0_BASE_ADDR};

fn sys() -> SYSCTRLRegisters {
    SYSCTRLRegisters {
        clock_ctrl: 0,
        clock_sta: 0,
        rcgc_gpt: 0,
        scgc_gpt: 0,
        dcgc_gpt: 0,
        sr_gpt: 0,
        rcgc_ssi: 0,
        scgc_ssi: 0,
        dcgc_ssi: 0,
        sr_ssi: 0,
        rcgc_uart: 0xFF,
        scgc_uart: 0,
        dcgc_uart: 0,
        sr_uart: 0,
    }
}

fn uart_regs(ctl: u32) -> UARTRegisters {
    UARTRegisters {
        dr: 0,
        rsr_ecr: 0,
        fr: 0,
        ilpr: 0,
        ibrd: 0,
        fbrd: 0x3F,
        lcrh: 0,
        ctl,
        ifls: 0,
        im: 0,
        ris: 0,
        mis: 0,
        icr: 0,
        dmactl: 0,
    }
}

fn params(baud_rate: u32) -> UARTParams {
    UARTParams { baud_rate, stop_bits: StopBits::One, parity: Parity::Off, hw_flow_control: false }
}

#[test]
fn ioc_registers() {
    let mut sel = SelRegisters { selpins: vec![0; 32] };
    ioc::select_peripheral_output(&mut sel, 31, 0x1_0000_0003);
    assert_eq!(sel.selpins[31], 3);
    let mut over = OverRegisters { overpins: vec![0; 32] };
    ioc::override_config(&mut over, 4, 8);
    assert_eq!(over.overpins[4], 8);
    over.overpins[5] = 0xE;
    ioc::set_input_mode(&mut over, 5, InputMode::PullNone);
    assert_eq!(over.overpins[5], 0x8);
    let mut periph = PeripheralRegisters { peripheralregs: vec![0; 14] };
    ioc::select_peripheral_input(&mut periph, 13, 9);
    assert_eq!(periph.peripheralregs[13], 9);
}

#[test]
fn uart_clock_gating() {
    let mut s = sys();
    sys_ctrl::enable_rcgc_uart(&mut s, 0);
    assert_eq!(s.rcgc_uart, 1);
    sys_ctrl::enable_rcgc_uart(&mut s, 1);
    assert_eq!(s.rcgc_uart, 2);
    sys_ctrl::enable_rcgc_uart(&mut s, 2);
    assert_eq!(s.rcgc_uart, 2);
}

#[test]
fn configure_uart_115200() {
    let mut u: UART<u32> = UART::new(UART0_BASE_ADDR, 0);
    assert_eq!(u.tx_pin(), None);
    assert_eq!(u.rx_pin(), None);
    u.set_uart_pins(1, 0);
    assert_eq!(u.tx_pin(), Some(1));
    assert_eq!(u.rx_pin(), Some(0));
    let mut r = uart_regs(0x1);
    let mut s = sys();
    let writes = u.init(&mut r, &mut s, params(115200));
    assert_eq!(
        writes,
        vec![
            UartWrite::Ctl(0),
            UartWrite::Ibrd(21),
            UartWrite::Fbrd(0),
            UartWrite::Lcrh(0x60),
            UartWrite::Lcrh(0x10),
            UartWrite::Ctl(0x301),
        ]
    );
    assert_eq!(r.ibrd, 21);
    assert_eq!(r.fbrd, 0);
    assert_eq!(r.lcrh, 0x10);
    assert_eq!(r.ctl, 0x301);
    assert_eq!(s.rcgc_uart, 1);
}

#[test]
fn configure_uart_high_speed_and_slow() {
    let mut u: UART<u32> = UART::new(0x4000D000, 1);
    u.set_uart_pins(45, 44);
    let mut r = uart_regs(0x20);
    let mut s = sys();
    u.configure_uart(&mut r, &mut s, params(115200));
    assert_eq!(r.ibrd, 10);
    assert_eq!(s.rcgc_uart, 2);

    let mut r = uart_regs(0);
    u.configure_uart(&mut r, &mut s, params(1));
    // 20_000_000 / 8 does not fit the 16-bit divisor field
    assert_eq!(r.ibrd, 2_500_000 & 0xFFFF);
}

#[test]
fn baudrate_and_fifo() {
    let u: UART<u32> = UART::new(UART0_BASE_ADDR, 0);
    let mut r = uart_regs(0);
    u.set_baudrate(&mut r, 9600);
    assert_eq!(r.ibrd, 260);
    assert_eq!(r.fbrd, 0);
    r.lcrh = 0x70;
    u.disable_fifo(&mut r);
    assert_eq!(r.lcrh, 0x60);
    u.enable_fifo(&mut r);
    assert_eq!(r.lcrh, 0x10);
    r.ctl = 0x321;
    u.disable_uart(&mut r);
    assert_eq!(r.ctl, 0x320);
}

#[test]
fn transmit_path() {
    let u: UART<u32> = UART::new(UART0_BASE_ADDR, 0);
    let mut r = uart_regs(0);
    r.fr = 0x20;
    assert!(!u.tx_ready(&r));
    r.fr = 0x40;
    assert!(u.tx_ready(&r));
    u.send_data(&mut r, b'A');
    assert_eq!(r.dr, 65);
    let data = [1u8, 2, 3, 4];
    assert_eq!(u.transmit(&data, 0), None);
    assert_eq!(u.transmit(&data, 3), Some((vec![1u8, 2, 3], None)));
    let mut v: UART<&str> = UART::new(UART0_BASE_ADDR, 0);
    v.set_client("console");
    let (bytes, client) = v.transmit(&data, 4).unwrap();
    assert_eq!(bytes, vec![1u8, 2, 3, 4]);
    assert_eq!(*client.unwrap(), "console");
}
