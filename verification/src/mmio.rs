//! Memory-mapped register handles.
//!
//! A [`Reg`] is a 32-bit register handle with a cached value: field updates
//! compose on the cache and [`Reg::store`] commits the whole word to the
//! bus, while [`Reg::fetch`] refreshes the cache from the bus. [`Mmio`]
//! binds a handle to a fixed word address; [`Reg32Array`] names a block of
//! consecutive 32-bit registers.

use crate::bus::{touches_only, MemBus};
use crate::reg::{
    bit32, field32, fits32, lemma_fits32_is_bound, read_field32, with_field32, write_field32,
    RegError,
};
use vstd::arithmetic::div_mod::lemma_mod_multiples_vanish;
use vstd::arithmetic::power2::pow2;
use vstd::prelude::*;

verus! {

/// A 32-bit register with a cached value and a backing hardware word.
///
/// `set_value` and `set_bits` compose on the cache only; the hardware word
/// changes exactly when `store` is called, and the cache reflects the
/// hardware word immediately after `fetch`.
pub trait Reg: Sized {
    /// Address of the hardware word backing this handle.
    spec fn loc(&self) -> usize;

    /// The cached value.
    spec fn cached(&self) -> u32;

    /// Returns the cached value.
    fn get_value(&self) -> (r: u32)
        ensures
            r == self.cached(),
    ;

    /// Replaces the cached value; the hardware word is untouched.
    fn set_value(self, val: u32) -> (r: Self)
        ensures
            r.loc() == self.loc(),
            r.cached() == val,
    ;

    /// Writes the cached value to the backing hardware word.
    fn store(&self, bus: &mut MemBus)
        requires
            old(bus).wf(),
            old(bus).contains(self.loc()),
        ensures
            final (bus).wf(),
            final (bus).word_at(self.loc()) == self.cached(),
            touches_only(*old(bus), *final (bus), set![self.loc()]),
            final (bus).log() == old(bus).log().push((self.loc(), self.cached())),
    ;

    /// Reads the backing hardware word into the cache.
    fn fetch(self, bus: &MemBus) -> (r: Self)
        requires
            bus.wf(),
            bus.contains(self.loc()),
        ensures
            r.loc() == self.loc(),
            r.cached() == bus.word_at(self.loc()),
    ;

    /// Replaces the cached field `[shift, shift + sz)` by `val`; cache only.
    fn set_bits(self, shift: u8, sz: u8, val: u32) -> (r: Self)
        requires
            shift < 32,
            shift + sz <= 32,
            fits32(val, sz),
        ensures
            r.loc() == self.loc(),
            r.cached() == with_field32(self.cached(), shift, sz, val),
    ;

    /// Sets or clears cached bit `bitpos`; cache only.
    fn set_bit(self, bitpos: u8, val: bool) -> (r: Self)
        requires
            bitpos < 32,
        ensures
            r.loc() == self.loc(),
            r.cached() == with_field32(
                self.cached(),
                bitpos,
                1,
                if val {
                    1u32
                } else {
                    0u32
                },
            ),
    ;

    /// Returns the cached field `[shift, shift + sz)`.
    fn get_bits(&self, shift: u8, sz: u8) -> (r: u32)
        requires
            shift < 32,
            shift + sz <= 32,
        ensures
            r == field32(self.cached(), shift, sz),
    ;

    /// Returns cached bit `bitpos`.
    fn get_bit(&self, bitpos: u8) -> (r: bool)
        requires
            bitpos < 32,
        ensures
            r == bit32(self.cached(), bitpos),
    ;
}

/// A 32-bit memory-mapped register at an explicit word address.
#[derive(Clone, Copy)]
pub struct Mmio {
    addr: usize,
    cached: u32,
}

impl Mmio {
    /// Creates a handle at `addr` with a preset cached value.
    pub fn new(addr: usize, val: u32) -> (r: Mmio)
        ensures
            r.loc() == addr,
            r.cached() == val,
    {
        Mmio { addr, cached: val }
    }

    /// Creates a handle at `addr` with a zeroed cached value.
    pub fn zero(addr: usize) -> (r: Mmio)
        ensures
            r.loc() == addr,
            r.cached() == 0u32,
    {
        Mmio::new(addr, 0)
    }

    /// Creates a handle at `addr` with the cached value fetched from the bus.
    pub fn fetch(addr: usize, bus: &MemBus) -> (r: Mmio)
        requires
            bus.wf(),
            bus.contains(addr),
        ensures
            r.loc() == addr,
            r.cached() == bus.word_at(addr),
    {
        Reg::fetch(Mmio::new(addr, 0), bus)
    }

    /// Replaces the cached field `[shift, shift + sz)` by `val` if `val`
    /// fits in `sz` bits, and reports the fatal configuration error
    /// otherwise, leaving the handle untouched.
    pub fn checked_set_bits(&self, shift: u8, sz: u8, val: u32) -> (r: Result<Mmio, RegError>)
        requires
            shift < 32,
            shift + sz <= 32,
        ensures
            match r {
                Ok(m) => {
                    &&& (val as nat) < pow2(sz as nat)
                    &&& m.loc() == self.loc()
                    &&& m.cached() == with_field32(self.cached(), shift, sz, val)
                },
                Err(e) => {
                    &&& (val as nat) >= pow2(sz as nat)
                    &&& e == RegError::ValueTooWide
                },
            },
    {
        proof {
            lemma_fits32_is_bound(val, sz);
        }
        if crate::reg::value_too_wide32(val, sz) {
            Err(RegError::ValueTooWide)
        } else {
            Ok((*self).set_bits(shift, sz, val))
        }
    }
}

impl Reg for Mmio {
    closed spec fn loc(&self) -> usize {
        self.addr
    }

    closed spec fn cached(&self) -> u32 {
        self.cached
    }

    fn get_value(&self) -> (r: u32) {
        self.cached
    }

    fn set_value(self, val: u32) -> (r: Self) {
        Mmio { addr: self.addr, cached: val }
    }

    fn store(&self, bus: &mut MemBus) {
        bus.write(self.addr, self.cached);
    }

    fn fetch(self, bus: &MemBus) -> (r: Self) {
        Mmio { addr: self.addr, cached: bus.read(self.addr) }
    }

    fn set_bits(self, shift: u8, sz: u8, val: u32) -> (r: Self) {
        Mmio { addr: self.addr, cached: write_field32(self.cached, shift, sz, val) }
    }

    fn set_bit(self, bitpos: u8, val: bool) -> (r: Self) {
        let bit: u32 = if val {
            1
        } else {
            0
        };
        proof {
            assert(fits32(0u32, 1) && fits32(1u32, 1)) by (bit_vector);
        }
        self.set_bits(bitpos, 1, bit)
    }

    fn get_bits(&self, shift: u8, sz: u8) -> (r: u32) {
        read_field32(self.cached, shift, sz)
    }

    fn get_bit(&self, bitpos: u8) -> (r: bool) {
        let v = self.get_bits(bitpos, 1);
        proof {
            let c = self.cached();
            assert(field32(c, bitpos, 1) == 0 || field32(c, bitpos, 1) == 1) by (bit_vector);
        }
        v != 0
    }
}

/// Law: the cached value after a fetch is a function of the bus alone, so
/// two fetches from the same address with no intervening hardware change
/// yield the same cached value.
pub proof fn lemma_fetch_idempotent(m1: Mmio, m2: Mmio, bus: MemBus)
    requires
        m1.loc() == m2.loc(),
        m1.cached() == bus.word_at(m1.loc()),
        m2.cached() == bus.word_at(m2.loc()),
    ensures
        m1.cached() == m2.cached(),
{
}

/// A block of `size` consecutive 32-bit memory-mapped registers.
pub trait Reg32Array: Sized {
    /// Address of the first register of the block.
    spec fn addr_spec(&self) -> usize;

    /// Number of registers in the block.
    spec fn size_spec(&self) -> usize;

    /// The block is word-aligned and fits in the address space.
    proof fn block_wf(&self)
        ensures
            self.addr_spec() % 4 == 0,
            self.addr_spec() + 4 * self.size_spec() <= usize::MAX,
    ;

    /// Returns the address of the first register of the block.
    fn addr(&self) -> (r: usize)
        ensures
            r == self.addr_spec(),
    ;

    /// Returns the number of registers in the block.
    fn size(&self) -> (r: usize)
        ensures
            r == self.size_spec(),
    ;

    /// Returns a handle for register `idx` with the cached value zeroed.
    fn get(&self, idx: usize) -> (r: Mmio)
        requires
            idx < self.size_spec(),
        ensures
            r.loc() == self.addr_spec() + 4 * idx,
            r.cached() == 0u32,
    {
        proof {
            self.block_wf();
        }
        Mmio::zero(self.addr() + 4 * idx)
    }

    /// Returns a handle for register `idx` with the cached value fetched.
    fn fetch(&self, idx: usize, bus: &MemBus) -> (r: Mmio)
        requires
            idx < self.size_spec(),
            bus.wf(),
            bus.contains(((self.addr_spec() + 4 * idx) as usize)),
        ensures
            r.loc() == self.addr_spec() + 4 * idx,
            r.cached() == bus.word_at(((self.addr_spec() + 4 * idx) as usize)),
    {
        proof {
            self.block_wf();
        }
        Mmio::fetch(self.addr() + 4 * idx, bus)
    }
}

/// The whole register block of `arr` lies inside the bus window.
pub open spec fn array_in_bus<T: Reg32Array>(arr: &T, bus: &MemBus) -> bool {
    &&& arr.addr_spec() % 4 == 0
    &&& bus.base_spec() <= arr.addr_spec()
    &&& arr.addr_spec() + 4 * arr.size_spec() <= bus.base_spec() + 4 * bus.len_spec()
}

/// Each register of a block inside the bus window is a contained address.
pub proof fn lemma_array_in_bus<T: Reg32Array>(arr: &T, bus: &MemBus, idx: usize)
    requires
        array_in_bus(arr, bus),
        idx < arr.size_spec(),
    ensures
        bus.contains(((arr.addr_spec() + 4 * idx) as usize)),
{
    arr.block_wf();
    lemma_mod_multiples_vanish(idx as int, arr.addr_spec() as int, 4);
}

} // verus!
