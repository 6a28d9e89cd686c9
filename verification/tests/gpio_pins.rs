use lib::gpio::{GPIOPin, GPIORegisters, Pin, Port, BASE_ADDRESS, PORT_OFFSET, PORT_PINS};
use lib::hil::{InputMode, InterruptMode};
use lib::ioc::{OverRegisters, PeripheralRegisters, SelRegisters};

fn regs() -> GPIORegisters {
    GPIORegisters {
        data: vec![0u8; 0x400],
        dir: 0,
        is: 0,
        ibe: 0,
        iev: 0,
        ie: 0,
        ris: 0,
        mis: 0,
        ic: 0,
        afsel: 0,
        gpiolock: 0,
        gpiocr: 0,
        pmux: 0,
        p_edge_ctrl: 0,
        pi_ien: 0,
        irq_detect_ack: 0,
        usb_irq_ack: 0,
        irq_detect_unmask: 0,
    }
}

#[test]
fn pin_numbers() {
    assert_eq!(Pin::PA00.index(), 0);
    assert_eq!(Pin::PA07.index(), 7);
    assert_eq!(Pin::PB00.index(), 8);
    assert_eq!(Pin::PC04.index(), 20);
    assert_eq!(Pin::PD07.index(), 31);
}

#[test]
fn new_pin_reports_its_number() {
    let p: GPIOPin<u32> = GPIOPin::new(Pin::PC05);
    assert_eq!(p.get_pin(), 21);
    assert!(p.handle_interrupt().is_none());
}

#[test]
fn make_output_then_read_is_false() {
    let p: GPIOPin<u32> = GPIOPin::new(Pin::PB03);
    let mut r = regs();
    r.afsel = 0xFF;
    r.dir = 0x81;
    p.make_output(&mut r);
    assert_eq!(r.dir, 0x89);
    assert_eq!(r.afsel, 0xF7);
    assert!(!p.read(&r));
    p.make_input(&mut r);
    assert_eq!(r.dir, 0x81);
    assert!(p.read(&r));
}

#[test]
fn enable_interrupt_modes() {
    let mut p: GPIOPin<u32> = GPIOPin::new(Pin::PA02);
    let mut r = regs();
    r.is = 0xFF;
    r.iev = 0xF0;
    p.enable_interrupt(&mut r, 42, InterruptMode::EitherEdge);
    assert_eq!(r.ic, 0x04);
    assert_eq!(r.is, 0xFB);
    assert_eq!(r.ie, 0x04);
    assert_eq!(r.ibe, 0x04);
    assert_eq!(r.iev, 0xF0);

    let mut r = regs();
    r.iev = 0xFF;
    p.enable_interrupt(&mut r, 1, InterruptMode::FallingEdge);
    assert_eq!(r.ibe, 0);
    assert_eq!(r.iev, 0xFB);

    let mut r = regs();
    p.enable_interrupt(&mut r, 1, InterruptMode::RisingEdge);
    assert_eq!(r.ibe, 0);
    assert_eq!(r.iev, 0x04);

    p.disable_interrupt(&mut r);
    assert_eq!(r.ie, 0);
}

#[test]
fn interrupt_reaches_client_with_data() {
    let mut p: GPIOPin<&str> = GPIOPin::new(Pin::PD01);
    let mut r = regs();
    p.enable_interrupt(&mut r, 77, InterruptMode::RisingEdge);
    assert!(p.handle_interrupt().is_none());
    p.set_client("button");
    let (c, d) = p.handle_interrupt().unwrap();
    assert_eq!(*c, "button");
    assert_eq!(d, 77);
}

#[test]
fn set_clear_toggle_use_masked_data() {
    let p: GPIOPin<u32> = GPIOPin::new(Pin::PC07);
    let mut r = regs();
    p.set(&mut r);
    assert_eq!(r.data[0x80 << 2], 0xFF);
    p.toggle(&mut r);
    assert_eq!(r.data[0x200], 0x00);
    p.toggle(&mut r);
    assert_eq!(r.data[0x200], 0xFF);
    p.clear(&mut r);
    assert_eq!(r.data[0x200], 0x00);
    let others: usize = r.data.iter().filter(|b| **b != 0).count();
    assert_eq!(others, 0);
}

#[test]
fn hardware_selection() {
    let p: GPIOPin<u32> = GPIOPin::new(Pin::PA01);
    let mut r = regs();
    let mut sel = SelRegisters { selpins: vec![0; 32] };
    let mut periph = PeripheralRegisters { peripheralregs: vec![0; 14] };
    let mut over = OverRegisters { overpins: vec![0xF; 32] };
    p.select_hardware_output(&mut r, &mut sel, 0);
    assert_eq!(r.afsel, 0x02);
    assert_eq!(sel.selpins[1], 0);
    p.select_hardware_output(&mut r, &mut sel, 5);
    assert_eq!(sel.selpins[1], 5);
    p.select_hardware_input(&mut r, &mut periph, 2);
    assert_eq!(periph.peripheralregs[2], 1);
    p.alt_override(&mut over, 0x8);
    assert_eq!(over.overpins[1], 0x8);
    p.set_input_mode(&mut over, InputMode::PullUp);
    assert_eq!(over.overpins[1], 0x4);
    p.set_input_mode(&mut over, InputMode::PullDown);
    assert_eq!(over.overpins[1], 0x2);
    over.overpins[1] = 0xF;
    p.disable(&mut over);
    assert_eq!(over.overpins[1], 0x9);
    p.enable_gpio(&mut r);
    assert_eq!(r.afsel, 0);
}

#[test]
fn ports_hold_their_pins() {
    let port: Port<u32> = Port::new(2);
    for i in 0..PORT_PINS {
        assert_eq!(port.index(i).get_pin() as usize, 16 + i);
    }
    assert_eq!(BASE_ADDRESS + 2 * PORT_OFFSET, 0x400DB000);
    let mut port_d: Port<u32> = Port::new(3);
    port_d.index_mut(4).set_client(9);
    assert_eq!(*port_d.index(4).handle_interrupt().unwrap().0, 9);
    assert!(port_d.index(5).handle_interrupt().is_none());
}

#[test]
fn interrupt_pin_is_lowest_set_bit() {
    let port: Port<u32> = Port::new(0);
    assert_eq!(port.interrupt_pin(0b1000_0100), Some(2));
    assert_eq!(port.interrupt_pin(0x80), Some(7));
    assert_eq!(port.interrupt_pin(0x100), None);
    assert_eq!(port.interrupt_pin(0), None);
}
