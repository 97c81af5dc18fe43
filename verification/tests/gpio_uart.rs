//! GPIO pin routing and the mini UART initialization and write path.

use reghal::board;
use reghal::bus::MemBus;
use reghal::gpio::{pin_disable_pull, pin_use_as_alt5, GP_PUD_ADDR, GP_PUPD_CLK_ADDR};
use reghal::mmio::{Mmio, Reg};
use reghal::uart::{
    init, set_baud, write_char, Writer, AUX_ENABLES, AUX_MU_BAUD, AUX_MU_CNTL, AUX_MU_IER,
    AUX_MU_IIR, AUX_MU_IO, AUX_MU_LCR, AUX_MU_LSR, AUX_MU_MCR, LSR_TX_EMPTY_BIT,
};

fn gpio_aux_bus() -> MemBus {
    let nwords = (board::AUX_BASE + 0x70 - board::GPIO_BASE) / 4;
    let mut bus = MemBus::new(board::GPIO_BASE, nwords);
    // the simulated transmitter is always ready
    bus.write(AUX_MU_LSR, 1 << LSR_TX_EMPTY_BIT);
    bus
}

#[test]
fn pin_disable_pull_clears_pud_and_clock() {
    let mut bus = gpio_aux_bus();
    bus.write(GP_PUPD_CLK_ADDR, 0xffff_ffff);
    pin_disable_pull(&mut bus, 14);
    assert_eq!(bus.read(GP_PUD_ADDR), 0);
    // only pin 14's clock bit was pulsed and cleared
    assert_eq!(bus.read(GP_PUPD_CLK_ADDR), 0xffff_ffff & !(1 << 14));
}

#[test]
fn pin_use_as_alt5_sets_function_field() {
    let mut bus = gpio_aux_bus();
    pin_use_as_alt5(&mut bus, 14);
    // pin 14 is field 4 of function-select word 1: bits 12..15
    assert_eq!(bus.read(board::GPIO_BASE + 4), 2 << 12);
    assert_eq!(bus.read(GP_PUD_ADDR), 0);
    pin_use_as_alt5(&mut bus, 15);
    assert_eq!(bus.read(board::GPIO_BASE + 4), (2 << 12) | (2 << 15));
}

#[test]
fn set_baud_computes_divisor_field() {
    let r = set_baud(Mmio::zero(AUX_MU_BAUD), 115200);
    // 250 MHz / (8 * 115200) - 1
    assert_eq!(r.get_value(), 270);
}

#[test]
fn init_programs_every_uart_register() {
    let mut bus = gpio_aux_bus();
    init(&mut bus);
    assert_eq!(bus.read(AUX_ENABLES), 1);
    assert_eq!(bus.read(AUX_MU_IER), 0);
    assert_eq!(bus.read(AUX_MU_LCR), 3);
    assert_eq!(bus.read(AUX_MU_MCR), 0);
    assert_eq!(bus.read(AUX_MU_IIR), 6);
    assert_eq!(bus.read(AUX_MU_BAUD), 270);
    assert_eq!(bus.read(AUX_MU_CNTL), 3);
    // both UART pins routed to ALT5
    assert_eq!(bus.read(board::GPIO_BASE + 4), (2 << 12) | (2 << 15));
    // the transmit register itself was never driven
    assert_eq!(bus.read(AUX_MU_IO), 0);
}

#[test]
fn write_char_drives_transmit_register() {
    let mut bus = gpio_aux_bus();
    write_char(&mut bus, b'A');
    assert_eq!(bus.read(AUX_MU_IO), 65);
    write_char(&mut bus, b'z');
    assert_eq!(bus.read(AUX_MU_IO), b'z' as u32);
}

#[test]
fn writer_initializes_on_first_use_and_streams_bytes() {
    let mut bus = gpio_aux_bus();
    let mut w = Writer::new();
    assert!(!w.initialized);
    w.write_str(&mut bus, b"hi");
    assert!(w.initialized);
    // initialization ran
    assert_eq!(bus.read(AUX_ENABLES), 1);
    assert_eq!(bus.read(AUX_MU_CNTL), 3);
    // the last byte driven is the last byte of the text
    assert_eq!(bus.read(AUX_MU_IO), b'i' as u32);

    // a second write must not re-run initialization: configuration is
    // intact and only the transmit register moves
    w.write_str(&mut bus, b"!");
    assert!(w.initialized);
    assert_eq!(bus.read(AUX_MU_IO), b'!' as u32);
    assert_eq!(bus.read(AUX_MU_BAUD), 270);
}

#[test]
fn writer_on_initialized_hardware_leaves_config_alone() {
    let mut bus = gpio_aux_bus();
    init(&mut bus);
    let mut w = Writer::new();
    w.write_str(&mut bus, b"ok");
    assert_eq!(bus.read(AUX_MU_IO), b'k' as u32);
    assert_eq!(bus.read(AUX_ENABLES), 1);
}
