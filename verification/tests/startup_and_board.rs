use lib::crt1::{self, flash_cca_lock_page_t, MemoryLayout};
use lib::gpio::Pin;
use lib::hil::{Parity, StopBits};
use lib::openmote::{
    console_params, console_uart_pins, led_pins, ActivationMode, Platform, PlatformDriver,
    Writer, CONSOLE_DRIVER_NUM, LED_DRIVER_NUM,
};
use lib::test_mod::{fill_test_pattern, test_buffer, BUFFER_SIZE_2048};

#[test]
fn init_relocates_and_zeroes() {
    // words 0..4 hold the stored data, 6..10 receive it, 10..13 are zeroed
    let mut mem: Vec<u32> = (0..14u32).map(|i| 100 + i).collect();
    let layout = MemoryLayout { etext: 0, srelocate: 6, erelocate: 10, szero: 10, ezero: 13 };
    crt1::init(&mut mem, layout);
    assert_eq!(mem, vec![100, 101, 102, 103, 104, 105, 100, 101, 102, 103, 0, 0, 0, 113]);
}

#[test]
fn init_same_start_skips_copy() {
    let mut mem: Vec<u32> = vec![7; 8];
    let layout = MemoryLayout { etext: 2, srelocate: 2, erelocate: 5, szero: 5, ezero: 7 };
    crt1::init(&mut mem, layout);
    assert_eq!(mem, vec![7, 7, 7, 7, 7, 0, 0, 7]);
}

#[test]
fn init_overlapping_forward_copy_repeats() {
    // the source starts two words before the destination and runs into it
    let mut mem: Vec<u32> = vec![1, 2, 3, 4, 5, 6, 7];
    let layout = MemoryLayout { etext: 0, srelocate: 2, erelocate: 7, szero: 0, ezero: 0 };
    crt1::init(&mut mem, layout);
    assert_eq!(mem, vec![1, 2, 1, 2, 1, 2, 1]);
}

#[test]
fn lock_page() {
    let p = flash_cca_lock_page_t::ccfg_conf();
    assert_eq!(p.bootldr_cfg, 0xF6);
    assert_eq!(p.image_valid, 0);
    assert_eq!(p.vector_table, 0x0020_0000);
    assert_eq!(p.lock, [0xFFu8; 32]);
}

#[test]
fn board_configuration() {
    let leds = led_pins();
    assert_eq!(leds[0], (Pin::PC04, ActivationMode::ActiveHigh));
    assert_eq!(leds[1], (Pin::PC05, ActivationMode::ActiveLow));
    assert_eq!(leds[2], (Pin::PC06, ActivationMode::ActiveLow));
    assert_eq!(leds[3], (Pin::PC07, ActivationMode::ActiveHigh));
    assert_eq!(console_uart_pins(), (1, 0));
    let p = console_params();
    assert_eq!(p.baud_rate, 115200);
    assert_eq!(p.stop_bits, StopBits::One);
    assert_eq!(p.parity, Parity::Off);
    assert!(!p.hw_flow_control);
}

#[test]
fn platform_drivers() {
    let led = "led";
    let console = 5u32;
    let platform = Platform::new(&led, &console);
    let which = |d: Option<PlatformDriver<&str, u32>>| match d {
        Some(PlatformDriver::Led(l)) => format!("led:{}", l),
        Some(PlatformDriver::Console(c)) => format!("console:{}", c),
        None => String::from("none"),
    };
    assert_eq!(LED_DRIVER_NUM, 2);
    assert_eq!(CONSOLE_DRIVER_NUM, 1);
    assert_eq!(platform.with_driver(2, which), "led:led");
    assert_eq!(platform.with_driver(1, which), "console:5");
    assert_eq!(platform.with_driver(7, which), "none");
}

#[test]
fn writer_initialises_once() {
    let mut w = Writer::new();
    assert!(w.begin_write());
    assert!(!w.begin_write());
    assert!(!w.begin_write());
}

#[test]
fn ascii_pattern() {
    let buf = test_buffer();
    assert_eq!(buf.len(), BUFFER_SIZE_2048);
    assert_eq!(buf[0], b'!');
    assert_eq!(buf[92], b'}');
    assert_eq!(buf[93], b'!');
    assert_eq!(buf[2047], 33 + (2047 % 93) as u8);
    let mut small = vec![0u8; 5];
    fill_test_pattern(&mut small);
    assert_eq!(small, b"!\"#$%".to_vec());
}
