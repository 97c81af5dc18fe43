//! The bus model, register handles backed by it, and the packed
//! bit-vector register arrays.

use reghal::board;
use reghal::bus::MemBus;
use reghal::gpio::{bitvec_fetch, bitvec_write, packed_field_index, GpFSel, GpPupdClk};
use reghal::mmio::{Mmio, Reg, Reg32Array};
use reghal::reg::RegError;

fn gpio_aux_bus() -> MemBus {
    // one window covering the GPIO block through the AUX block
    let nwords = (board::AUX_BASE + 0x70 - board::GPIO_BASE) / 4;
    MemBus::new(board::GPIO_BASE, nwords)
}

#[test]
fn new_bus_reads_zero() {
    let bus = gpio_aux_bus();
    assert_eq!(bus.read(board::GPIO_BASE), 0);
    assert_eq!(bus.read(board::AUX_BASE + 0x40), 0);
}

#[test]
fn store_then_read_returns_value() {
    let mut bus = gpio_aux_bus();
    Mmio::new(board::GPIO_BASE + 8, 0xcafe_f00d).store(&mut bus);
    assert_eq!(bus.read(board::GPIO_BASE + 8), 0xcafe_f00d);
    assert_eq!(bus.read(board::GPIO_BASE + 4), 0);
    assert_eq!(bus.read(board::GPIO_BASE + 12), 0);
}

#[test]
fn fetch_twice_yields_same_cached_value() {
    let mut bus = gpio_aux_bus();
    bus.write(board::GPIO_BASE + 0x10, 0x1234);
    let first = Mmio::fetch(board::GPIO_BASE + 0x10, &bus);
    let second = Mmio::fetch(board::GPIO_BASE + 0x10, &bus);
    assert_eq!(first.get_value(), 0x1234);
    assert_eq!(first.get_value(), second.get_value());
}

#[test]
fn reg32_array_addresses() {
    let mut bus = gpio_aux_bus();
    let fsel = GpFSel::new();
    assert_eq!(fsel.addr(), board::GPIO_BASE);
    assert_eq!(fsel.size(), 6);
    let clk = GpPupdClk::new();
    assert_eq!(clk.addr(), board::GPIO_BASE + 0x98);
    assert_eq!(clk.size(), 2);

    // a handle from the block stores at base + 4 * index
    fsel.get(3).set_value(0x77).store(&mut bus);
    assert_eq!(bus.read(board::GPIO_BASE + 12), 0x77);
    let fetched = fsel.fetch(3, &bus);
    assert_eq!(fetched.get_value(), 0x77);
}

#[test]
fn packed_index_scenario_three_bit_fields() {
    // ten 3-bit fields per word
    assert_eq!(packed_field_index(3, 0), (0, 0));
    assert_eq!(packed_field_index(3, 10), (1, 0));
    assert_eq!(packed_field_index(3, 11), (1, 3));
}

#[test]
fn packed_index_never_crosses_word() {
    for sz in 1..=32u8 {
        for pin in 0..53u32 {
            let (_, off) = packed_field_index(sz, pin);
            assert!(off as u32 + sz as u32 <= 32);
        }
    }
}

#[test]
fn bitvec_round_trip() {
    let mut bus = gpio_aux_bus();
    let fsel = GpFSel::new();
    assert_eq!(bitvec_write(&fsel, &mut bus, 3, 9, 5), Ok(()));
    assert_eq!(bitvec_fetch(&fsel, &bus, 3, 9), Ok(5));
    // pin 9 is field 9 of word 0: bits 27..30
    assert_eq!(bus.read(board::GPIO_BASE), 5 << 27);
}

#[test]
fn bitvec_write_keeps_neighbour_fields() {
    let mut bus = gpio_aux_bus();
    let fsel = GpFSel::new();
    assert_eq!(bitvec_write(&fsel, &mut bus, 3, 11, 7), Ok(()));
    assert_eq!(bitvec_write(&fsel, &mut bus, 3, 12, 1), Ok(()));
    assert_eq!(bitvec_fetch(&fsel, &bus, 3, 11), Ok(7));
    assert_eq!(bitvec_fetch(&fsel, &bus, 3, 12), Ok(1));
    assert_eq!(bitvec_fetch(&fsel, &bus, 3, 10), Ok(0));
    assert_eq!(bus.read(board::GPIO_BASE + 4), (7 << 3) | (1 << 6));
}

#[test]
fn bitvec_write_out_of_range_pin_touches_nothing() {
    let mut bus = gpio_aux_bus();
    let fsel = GpFSel::new();
    bus.write(board::GPIO_BASE + 4, 0xabcd);
    assert_eq!(
        bitvec_write(&fsel, &mut bus, 3, 53, 1),
        Err(RegError::IndexOutOfRange)
    );
    assert_eq!(
        bitvec_write(&fsel, &mut bus, 3, 1000, 1),
        Err(RegError::IndexOutOfRange)
    );
    for i in 0..6 {
        let expected = if i == 1 { 0xabcd } else { 0 };
        assert_eq!(bus.read(board::GPIO_BASE + 4 * i), expected);
    }
}

#[test]
fn bitvec_fetch_out_of_range_pin_fails() {
    let bus = gpio_aux_bus();
    let fsel = GpFSel::new();
    assert_eq!(bitvec_fetch(&fsel, &bus, 3, 53), Err(RegError::IndexOutOfRange));
    assert_eq!(bitvec_fetch(&fsel, &bus, 3, 60), Err(RegError::IndexOutOfRange));
}

#[test]
fn bitvec_write_wide_value_touches_nothing() {
    let mut bus = gpio_aux_bus();
    let fsel = GpFSel::new();
    assert_eq!(
        bitvec_write(&fsel, &mut bus, 3, 5, 8),
        Err(RegError::ValueTooWide)
    );
    for i in 0..6 {
        assert_eq!(bus.read(board::GPIO_BASE + 4 * i), 0);
    }
}
