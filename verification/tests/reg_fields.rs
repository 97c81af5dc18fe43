//! Bit-field read/modify/write behaviour of the register handles.

use reghal::cpu::{CpuReg, SysRegId};
use reghal::mmio::{Mmio, Reg};
use reghal::reg::RegError;

#[test]
fn set_bits_then_get_bits_returns_value() {
    let m = Mmio::new(0x1000, 0xdead_beef);
    let m = m.set_bits(8, 8, 0x42);
    assert_eq!(m.get_bits(8, 8), 0x42);
}

#[test]
fn set_bits_leaves_outside_bits_unchanged() {
    let m = Mmio::new(0x1000, 0xdead_beef).set_bits(8, 8, 0x42);
    assert_eq!(m.get_value(), 0xdead_42ef);
    assert_eq!(m.get_bits(0, 8), 0xef);
    assert_eq!(m.get_bits(16, 8), 0xad);
    assert_eq!(m.get_bits(24, 8), 0xde);
}

#[test]
fn full_width_field_replaces_whole_word() {
    let m = Mmio::zero(0).set_bits(0, 32, 0x1234_5678);
    assert_eq!(m.get_value(), 0x1234_5678);
}

#[test]
fn set_bit_and_get_bit() {
    let m = Mmio::zero(0).set_bit(5, true);
    assert_eq!(m.get_value(), 1 << 5);
    assert!(m.get_bit(5));
    assert!(!m.get_bit(4));
    let m = m.set_bit(5, false);
    assert_eq!(m.get_value(), 0);
    assert!(!m.get_bit(5));
}

#[test]
fn set_value_replaces_cache_only() {
    let m = Mmio::new(0x20, 7).set_value(0xffff_ffff);
    assert_eq!(m.get_value(), 0xffff_ffff);
}

#[test]
fn checked_set_bits_rejects_wide_value_without_mutation() {
    let m = Mmio::new(0, 0x55);
    let r = m.checked_set_bits(0, 4, 0x10);
    assert!(matches!(r, Err(RegError::ValueTooWide)));
    assert_eq!(m.get_value(), 0x55);
}

#[test]
fn checked_set_bits_accepts_fitting_value() {
    let m = Mmio::new(0, 0);
    let r = m.checked_set_bits(4, 4, 0xf);
    assert!(r.is_ok());
    assert_eq!(r.unwrap().get_value(), 0xf0);
}

#[test]
fn cpu_reg_set_bits_round_trip() {
    let r = CpuReg::zero(SysRegId::ScrEl3).set_bits(10, 6, 0x2a);
    assert_eq!(r.get_bits(10, 6), 0x2a);
    assert_eq!(r.get_value(), 0x2a << 10);
    assert_eq!(r.get_bits(0, 10), 0);
}

#[test]
fn cpu_reg_checked_set_bits_rejects_wide_value() {
    let r = CpuReg::new(SysRegId::VBarEl3, 0x123);
    assert!(matches!(
        r.checked_set_bits(0, 8, 0x100),
        Err(RegError::ValueTooWide)
    ));
    assert_eq!(r.get_value(), 0x123);
    let ok = r.checked_set_bits(0, 8, 0xff);
    assert!(ok.is_ok());
    assert_eq!(ok.unwrap().get_value(), 0x1ff);
}

#[test]
fn cpu_reg_named_bit_setters() {
    let r = CpuReg::zero(SysRegId::ScrEl3)
        .set_ea(true)
        .set_irq(true)
        .set_fiq(true)
        .set_rw(true);
    assert_eq!(r.get_value(), 0x40e);
    assert!(r.get_ea());
    assert!(r.get_irq());
    assert!(r.get_fiq());
    assert!(r.get_rw());
    let r = r.set_rw(false);
    assert_eq!(r.get_value(), 0xe);
}
