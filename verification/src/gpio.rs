//! BCM2837 GPIO support.
//!
//! The GPIO controller packs several narrow per-pin fields into each
//! 32-bit register: function-select uses 3-bit fields (ten per word) over
//! six words, the pull-up/down clock uses 1-bit fields over two words.
//! [`bitvec_write`] and [`bitvec_fetch`] address one such field by pin
//! number; an element never spans a word and the unused high bits of a
//! word are never written.

use crate::board;
use crate::bus::{lemma_touches_only_trans, touches_only, MemBus};
use crate::cpu::delay;
use crate::mmio::{array_in_bus, lemma_array_in_bus, Mmio, Reg, Reg32Array};
use crate::reg::{field32, fits32, lemma_with_field32, value_too_wide32, with_field32, RegError};
use vstd::arithmetic::div_mod::{
    lemma_div_is_ordered, lemma_fundamental_div_mod, lemma_mod_bound, lemma_multiply_divide_lt,
};
use vstd::arithmetic::mul::lemma_mul_inequality;
use vstd::prelude::*;

verus! {

/// Number of addressable GPIO pins: a pin index must be below it.
pub const GPIO_MAXPIN: u32 = 53;

/// Function-select value for the ALT5 alternative function.
pub const ALT5: u32 = 2;

/// Address of the GPPUD pull-up/down control register.
pub const GP_PUD_ADDR: usize = board::GPIO_BASE + 0x94;

/// Address of the first GPPUDCLKn pull-up/down clock register.
pub const GP_PUPD_CLK_ADDR: usize = board::GPIO_BASE + 0x98;

/// GPPUD value that disables the pull-up/down behaviour of a pin.
pub const PUD_DISABLED: u32 = 0;

/// Width in bits of one function-select field.
pub const FSEL_FIELD_BITS: u8 = 3;

/// Width in bits of one pull-up/down clock field.
pub const CLK_FIELD_BITS: u8 = 1;

/// The GPFSELn block: six registers of 3-bit function-select fields.
pub struct GpFSel {}

impl GpFSel {
    /// Creates a handle for the function-select block.
    pub fn new() -> (r: GpFSel) {
        GpFSel {  }
    }
}

impl Reg32Array for GpFSel {
    open spec fn addr_spec(&self) -> usize {
        board::GPIO_BASE
    }

    open spec fn size_spec(&self) -> usize {
        6
    }

    proof fn block_wf(&self) {
    }

    fn addr(&self) -> (r: usize) {
        board::GPIO_BASE
    }

    fn size(&self) -> (r: usize) {
        6
    }
}

/// The GPPUDCLKn block: two registers of 1-bit clock fields.
pub struct GpPupdClk {}

impl GpPupdClk {
    /// Creates a handle for the pull-up/down clock block.
    pub fn new() -> (r: GpPupdClk) {
        GpPupdClk {  }
    }
}

impl Reg32Array for GpPupdClk {
    open spec fn addr_spec(&self) -> usize {
        GP_PUPD_CLK_ADDR
    }

    open spec fn size_spec(&self) -> usize {
        2
    }

    proof fn block_wf(&self) {
    }

    fn addr(&self) -> (r: usize) {
        GP_PUPD_CLK_ADDR
    }

    fn size(&self) -> (r: usize) {
        2
    }
}

/// How many `sz`-bit fields fit in one 32-bit word.
pub open spec fn fields_per_word(sz: u8) -> int {
    32int / (sz as int)
}

/// The word index that owns packed element `pin`.
pub open spec fn packed_word_index(sz: u8, pin: u32) -> int {
    (pin as int) / fields_per_word(sz)
}

/// The bit offset of packed element `pin` inside its word.
pub open spec fn packed_bit_offset(sz: u8, pin: u32) -> int {
    ((pin as int) % fields_per_word(sz)) * (sz as int)
}

/// The address of the word that owns packed element `pin` of `arr`.
pub open spec fn packed_word_addr<T: Reg32Array>(arr: &T, sz: u8, pin: u32) -> usize {
    (arr.addr_spec() + 4 * packed_word_index(sz, pin)) as usize
}

/// Law: the packed layout never lets an element cross its word: the bit
/// offset plus the element width stays within 32, and the owning word
/// index is exactly `pin / (32 / sz)`.
pub proof fn lemma_packed_layout(sz: u8, pin: u32)
    requires
        1 <= sz <= 32,
    ensures
        1 <= fields_per_word(sz) <= 32,
        fields_per_word(sz) * (sz as int) <= 32,
        0 <= packed_word_index(sz, pin),
        0 <= packed_bit_offset(sz, pin),
        packed_bit_offset(sz, pin) + sz <= 32,
{
    let f = fields_per_word(sz);
    lemma_div_is_ordered(1, 32, sz as int);
    lemma_div_is_ordered(sz as int, 32, sz as int);
    assert((sz as int) / (sz as int) == 1) by {
        vstd::arithmetic::div_mod::lemma_div_by_self(sz as int);
    }
    lemma_fundamental_div_mod(32, sz as int);
    lemma_mod_bound(32, sz as int);
    assert(f * (sz as int) <= 32);
    lemma_mod_bound(pin as int, f);
    let m = (pin as int) % f;
    lemma_mul_inequality(m, f - 1, sz as int);
    assert((f - 1) * (sz as int) == f * (sz as int) - (sz as int)) by {
        vstd::arithmetic::mul::lemma_mul_is_distributive_sub_other_way(
            sz as int,
            f,
            1,
        );
    }
    vstd::arithmetic::div_mod::lemma_div_pos_is_pos(pin as int, f);
}

/// Computes the owning word index and intra-word bit offset of packed
/// element `pin` among `sz`-bit fields.
pub fn packed_field_index(sz: u8, pin: u32) -> (r: (usize, u8))
    requires
        1 <= sz <= 32,
    ensures
        r.0 == packed_word_index(sz, pin),
        r.1 == packed_bit_offset(sz, pin),
        r.1 + sz <= 32,
{
    proof {
        lemma_packed_layout(sz, pin);
    }
    let fields_per_u32: u32 = 32 / (sz as u32);
    let reg_index = (pin / fields_per_u32) as usize;
    let reg_offset = ((pin % fields_per_u32) * (sz as u32)) as u8;
    (reg_index, reg_offset)
}

/// Writes `val` to packed element `pin` of `reg_vec` by a whole-word
/// read/modify/write of the owning word only. An out-of-range pin or an
/// over-wide value is a fatal configuration error, reported without
/// touching any word.
pub fn bitvec_write<T: Reg32Array>(
    reg_vec: &T,
    bus: &mut MemBus,
    sz: u8,
    pin: u32,
    val: u32,
) -> (r: Result<(), RegError>)
    requires
        1 <= sz <= 32,
        old(bus).wf(),
        array_in_bus(reg_vec, old(bus)),
        GPIO_MAXPIN as int <= fields_per_word(sz) * (reg_vec.size_spec() as int),
    ensures
        final (bus).wf(),
        match r {
            Ok(u) => {
                &&& pin < GPIO_MAXPIN
                &&& fits32(val, sz)
                &&& final (bus).word_at(packed_word_addr(reg_vec, sz, pin)) == with_field32(
                    old(bus).word_at(packed_word_addr(reg_vec, sz, pin)),
                    packed_bit_offset(sz, pin) as u8,
                    sz,
                    val,
                )
                &&& touches_only(
                    *old(bus),
                    *final (bus),
                    set![packed_word_addr(reg_vec, sz, pin)],
                )
                &&& final (bus).log() == old(bus).log().push(
                    (
                        packed_word_addr(reg_vec, sz, pin),
                        with_field32(
                            old(bus).word_at(packed_word_addr(reg_vec, sz, pin)),
                            packed_bit_offset(sz, pin) as u8,
                            sz,
                            val,
                        ),
                    ),
                )
            },
            Err(RegError::IndexOutOfRange) => {
                &&& pin >= GPIO_MAXPIN
                &&& *final (bus) == *old(bus)
            },
            Err(RegError::ValueTooWide) => {
                &&& pin < GPIO_MAXPIN
                &&& !fits32(val, sz)
                &&& *final (bus) == *old(bus)
            },
        },
{
    if pin >= GPIO_MAXPIN {
        return Err(RegError::IndexOutOfRange);
    }
    if value_too_wide32(val, sz) {
        return Err(RegError::ValueTooWide);
    }
    proof {
        lemma_packed_layout(sz, pin);
        lemma_multiply_divide_lt(pin as int, fields_per_word(sz), reg_vec.size_spec() as int);
        lemma_array_in_bus(reg_vec, old(bus), packed_word_index(sz, pin) as usize);
        reg_vec.block_wf();
    }
    let (reg_index, reg_offset) = packed_field_index(sz, pin);
    let word = reg_vec.fetch(reg_index, bus);
    word.set_bits(reg_offset, sz, val).store(bus);
    Ok(())
}

/// Reads packed element `pin` of `reg_vec` from the owning word. An
/// out-of-range pin is a fatal configuration error, reported without
/// reading; no word is ever touched.
pub fn bitvec_fetch<T: Reg32Array>(reg_vec: &T, bus: &MemBus, sz: u8, pin: u32) -> (r: Result<
    u32,
    RegError,
>)
    requires
        1 <= sz <= 32,
        bus.wf(),
        array_in_bus(reg_vec, bus),
        GPIO_MAXPIN as int <= fields_per_word(sz) * (reg_vec.size_spec() as int),
    ensures
        match r {
            Ok(v) => {
                &&& pin < GPIO_MAXPIN
                &&& v == field32(
                    bus.word_at(packed_word_addr(reg_vec, sz, pin)),
                    packed_bit_offset(sz, pin) as u8,
                    sz,
                )
                &&& fits32(v, sz)
            },
            Err(RegError::IndexOutOfRange) => pin >= GPIO_MAXPIN,
            Err(RegError::ValueTooWide) => false,
        },
{
    if pin >= GPIO_MAXPIN {
        return Err(RegError::IndexOutOfRange);
    }
    proof {
        lemma_packed_layout(sz, pin);
        lemma_multiply_divide_lt(pin as int, fields_per_word(sz), reg_vec.size_spec() as int);
        lemma_array_in_bus(reg_vec, bus, packed_word_index(sz, pin) as usize);
        reg_vec.block_wf();
        crate::reg::lemma_field32_fits(
            bus.word_at(packed_word_addr(reg_vec, sz, pin)),
            packed_bit_offset(sz, pin) as u8,
            sz,
        );
    }
    let (reg_index, reg_offset) = packed_field_index(sz, pin);
    let word = reg_vec.fetch(reg_index, bus);
    Ok(word.get_bits(reg_offset, sz))
}

/// Law: a packed-array round trip returns the stored value: writing `val`
/// to element `pin` and reading the element back through the owning word
/// yields `val` again.
pub proof fn lemma_packed_round_trip(w: u32, sz: u8, pin: u32, val: u32)
    requires
        1 <= sz <= 32,
        fits32(val, sz),
    ensures
        field32(
            with_field32(w, packed_bit_offset(sz, pin) as u8, sz, val),
            packed_bit_offset(sz, pin) as u8,
            sz,
        ) == val,
{
    lemma_packed_layout(sz, pin);
    lemma_with_field32(w, packed_bit_offset(sz, pin) as u8, sz, val);
}

impl GpFSel {
    /// Sets the 3-bit function-select field of `pin` to `val`.
    pub fn store_pin_function(&self, bus: &mut MemBus, pin: u32, val: u32) -> (r: Result<
        (),
        RegError,
    >)
        requires
            old(bus).wf(),
            array_in_bus(self, old(bus)),
        ensures
            final (bus).wf(),
            match r {
                Ok(u) => {
                    &&& pin < GPIO_MAXPIN
                    &&& fits32(val, FSEL_FIELD_BITS)
                    &&& final (bus).word_at(packed_word_addr(self, FSEL_FIELD_BITS, pin))
                        == with_field32(
                        old(bus).word_at(packed_word_addr(self, FSEL_FIELD_BITS, pin)),
                        packed_bit_offset(FSEL_FIELD_BITS, pin) as u8,
                        FSEL_FIELD_BITS,
                        val,
                    )
                    &&& touches_only(
                        *old(bus),
                        *final (bus),
                        set![packed_word_addr(self, FSEL_FIELD_BITS, pin)],
                    )
                    &&& final (bus).log() == old(bus).log().push(
                        (
                            packed_word_addr(self, FSEL_FIELD_BITS, pin),
                            with_field32(
                                old(bus).word_at(packed_word_addr(self, FSEL_FIELD_BITS, pin)),
                                packed_bit_offset(FSEL_FIELD_BITS, pin) as u8,
                                FSEL_FIELD_BITS,
                                val,
                            ),
                        ),
                    )
                },
                Err(RegError::IndexOutOfRange) => pin >= GPIO_MAXPIN && *final (bus) == *old(bus),
                Err(RegError::ValueTooWide) => !fits32(val, FSEL_FIELD_BITS) && *final (bus)
                    == *old(bus),
            },
    {
        bitvec_write(self, bus, FSEL_FIELD_BITS, pin, val)
    }
}

impl GpPupdClk {
    /// Sets the 1-bit pull-up/down clock field of `pin` to `val`.
    pub fn store_pin_clk(&self, bus: &mut MemBus, pin: u32, val: u32) -> (r: Result<(), RegError>)
        requires
            old(bus).wf(),
            array_in_bus(self, old(bus)),
        ensures
            final (bus).wf(),
            match r {
                Ok(u) => {
                    &&& pin < GPIO_MAXPIN
                    &&& fits32(val, CLK_FIELD_BITS)
                    &&& final (bus).word_at(packed_word_addr(self, CLK_FIELD_BITS, pin))
                        == with_field32(
                        old(bus).word_at(packed_word_addr(self, CLK_FIELD_BITS, pin)),
                        packed_bit_offset(CLK_FIELD_BITS, pin) as u8,
                        CLK_FIELD_BITS,
                        val,
                    )
                    &&& touches_only(
                        *old(bus),
                        *final (bus),
                        set![packed_word_addr(self, CLK_FIELD_BITS, pin)],
                    )
                    &&& final (bus).log() == old(bus).log().push(
                        (
                            packed_word_addr(self, CLK_FIELD_BITS, pin),
                            with_field32(
                                old(bus).word_at(packed_word_addr(self, CLK_FIELD_BITS, pin)),
                                packed_bit_offset(CLK_FIELD_BITS, pin) as u8,
                                CLK_FIELD_BITS,
                                val,
                            ),
                        ),
                    )
                },
                Err(RegError::IndexOutOfRange) => pin >= GPIO_MAXPIN && *final (bus) == *old(bus),
                Err(RegError::ValueTooWide) => !fits32(val, CLK_FIELD_BITS) && *final (bus) == *old(
                    bus,
                ),
            },
    {
        bitvec_write(self, bus, CLK_FIELD_BITS, pin, val)
    }
}

/// The whole GPIO register block lies inside the bus window.
pub open spec fn gpio_in_bus(bus: MemBus) -> bool {
    &&& array_in_bus(&(GpFSel {  }), &bus)
    &&& bus.contains(GP_PUD_ADDR)
    &&& array_in_bus(&(GpPupdClk {  }), &bus)
}

/// The address of the function-select word that owns `pin`.
pub open spec fn fsel_word_addr(pin: u32) -> usize {
    packed_word_addr(&(GpFSel {  }), FSEL_FIELD_BITS, pin)
}

/// The bit offset of the function-select field of `pin` inside its word.
pub open spec fn fsel_bit_offset(pin: u32) -> u8 {
    packed_bit_offset(FSEL_FIELD_BITS, pin) as u8
}

/// The address of the pull-up/down clock word that owns `pin`.
pub open spec fn clk_word_addr(pin: u32) -> usize {
    packed_word_addr(&(GpPupdClk {  }), CLK_FIELD_BITS, pin)
}

/// The bit offset of the pull-up/down clock field of `pin` inside its word.
pub open spec fn clk_bit_offset(pin: u32) -> u8 {
    packed_bit_offset(CLK_FIELD_BITS, pin) as u8
}

/// The hardware write sequence of the pull-disable protocol for `pin`,
/// starting from bus state `pre`: GPPUD driven with the disable code,
/// the pin's clock field raised, GPPUD cleared, the clock field dropped
/// — the clock is pulsed exactly once, and only while GPPUD holds the
/// intended value.
pub open spec fn pin_disable_pull_writes(pre: MemBus, pin: u32) -> Seq<(usize, u32)> {
    let clk = clk_word_addr(pin);
    let high = with_field32(pre.word_at(clk), clk_bit_offset(pin), CLK_FIELD_BITS, 1);
    let low = with_field32(high, clk_bit_offset(pin), CLK_FIELD_BITS, 0);
    seq![(GP_PUD_ADDR, PUD_DISABLED), (clk, high), (GP_PUD_ADDR, 0u32), (clk, low)]
}

/// The hardware write sequence of routing `pin` to ALT5, starting from
/// bus state `pre`: the whole pull-disable protocol first, then one
/// write of the pin's function-select word.
pub open spec fn pin_use_as_alt5_writes(pre: MemBus, pin: u32) -> Seq<(usize, u32)> {
    pin_disable_pull_writes(pre, pin).push(
        (
            fsel_word_addr(pin),
            with_field32(
                pre.word_at(fsel_word_addr(pin)),
                fsel_bit_offset(pin),
                FSEL_FIELD_BITS,
                ALT5,
            ),
        ),
    )
}

/// Disables the pull-up/down behaviour of `pin`: drives GPPUD with the
/// disable code, pulses the pin's clock field high and back low with the
/// mandated settle delays, and leaves GPPUD cleared. The write log fixes
/// the protocol's exact order, not only the final state.
pub fn pin_disable_pull(bus: &mut MemBus, pin: u32)
    requires
        old(bus).wf(),
        gpio_in_bus(*old(bus)),
        pin < GPIO_MAXPIN,
    ensures
        final (bus).wf(),
        touches_only(*old(bus), *final (bus), set![GP_PUD_ADDR, clk_word_addr(pin)]),
        final (bus).log() == old(bus).log() + pin_disable_pull_writes(*old(bus), pin),
        final (bus).word_at(GP_PUD_ADDR) == 0u32,
        final (bus).word_at(clk_word_addr(pin)) == pin_disable_pull_writes(*old(bus), pin).last().1,
        field32(final (bus).word_at(clk_word_addr(pin)), clk_bit_offset(pin), 1) == 0u32,
        forall|lo: u8, w: u8|
            lo + w <= 32 && (lo + w <= clk_bit_offset(pin) || clk_bit_offset(pin) + 1 <= lo)
                ==> #[trigger] field32(final (bus).word_at(clk_word_addr(pin)), lo, w) == field32(
                old(bus).word_at(clk_word_addr(pin)),
                lo,
                w,
            ),
{
    proof {
        vstd::arithmetic::power2::lemma2_to64();
        crate::reg::lemma_fits32_is_bound(0u32, 2);
        crate::reg::lemma_fits32_is_bound(0u32, 1);
        crate::reg::lemma_fits32_is_bound(1u32, 1);
        lemma_packed_layout(CLK_FIELD_BITS, pin);
        lemma_div_is_ordered(pin as int, 52, fields_per_word(CLK_FIELD_BITS));
    }
    let ghost bus0 = *old(bus);
    let clk = GpPupdClk::new();

    // Drive the intended pull state (disabled) onto GPPUD.
    Mmio::zero(GP_PUD_ADDR).set_bits(0, 2, PUD_DISABLED).store(bus);
    let ghost bus1 = *bus;

    // Let the control signal settle.
    delay(150);

    // Assert the clock for the selected pin.
    let r1 = clk.store_pin_clk(bus, pin, 1);
    let ghost bus2 = *bus;
    proof {
        lemma_touches_only_trans(
            bus0,
            bus1,
            bus2,
            set![GP_PUD_ADDR],
            set![clk_word_addr(pin)],
            set![GP_PUD_ADDR, clk_word_addr(pin)],
        );
    }

    // Let the clock settle.
    delay(150);

    // Clear GPPUD and de-assert the clock.
    Mmio::zero(GP_PUD_ADDR).store(bus);
    let ghost bus3 = *bus;
    proof {
        lemma_touches_only_trans(
            bus0,
            bus2,
            bus3,
            set![GP_PUD_ADDR, clk_word_addr(pin)],
            set![GP_PUD_ADDR],
            set![GP_PUD_ADDR, clk_word_addr(pin)],
        );
    }
    let r2 = clk.store_pin_clk(bus, pin, 0);
    proof {
        lemma_touches_only_trans(
            bus0,
            bus3,
            *bus,
            set![GP_PUD_ADDR, clk_word_addr(pin)],
            set![clk_word_addr(pin)],
            set![GP_PUD_ADDR, clk_word_addr(pin)],
        );
        let w0 = bus0.word_at(clk_word_addr(pin));
        let off = clk_bit_offset(pin);
        let w1 = with_field32(w0, off, 1, 1);
        let w2 = with_field32(w1, off, 1, 0);
        lemma_with_field32(w0, off, 1, 1);
        lemma_with_field32(w1, off, 1, 0);
        assert(with_field32(0u32, 0, 2, PUD_DISABLED) == PUD_DISABLED) by (bit_vector);
        assert(bus.log() =~= bus0.log() + pin_disable_pull_writes(bus0, pin));
    }
}

/// Routes `pin` to its ALT5 alternative function, first disabling its
/// pull-up/down behaviour. The pin's 3-bit function-select field becomes
/// the ALT5 code; no other pin's field changes. The write log fixes the
/// order: the whole pull-disable protocol strictly precedes the
/// function-select write.
pub fn pin_use_as_alt5(bus: &mut MemBus, pin: u32)
    requires
        old(bus).wf(),
        gpio_in_bus(*old(bus)),
        pin < GPIO_MAXPIN,
    ensures
        final (bus).wf(),
        touches_only(
            *old(bus),
            *final (bus),
            set![GP_PUD_ADDR, clk_word_addr(pin), fsel_word_addr(pin)],
        ),
        final (bus).log() == old(bus).log() + pin_use_as_alt5_writes(*old(bus), pin),
        final (bus).word_at(GP_PUD_ADDR) == 0u32,
        final (bus).word_at(clk_word_addr(pin)) == pin_disable_pull_writes(*old(bus), pin).last().1,
        field32(final (bus).word_at(clk_word_addr(pin)), clk_bit_offset(pin), 1) == 0u32,
        final (bus).word_at(fsel_word_addr(pin)) == with_field32(
            old(bus).word_at(fsel_word_addr(pin)),
            fsel_bit_offset(pin),
            FSEL_FIELD_BITS,
            ALT5,
        ),
        field32(final (bus).word_at(fsel_word_addr(pin)), fsel_bit_offset(pin), FSEL_FIELD_BITS)
            == ALT5,
        forall|lo: u8, w: u8|
            lo + w <= 32 && (lo + w <= fsel_bit_offset(pin) || fsel_bit_offset(pin)
                + FSEL_FIELD_BITS <= lo) ==> #[trigger] field32(
                final (bus).word_at(fsel_word_addr(pin)),
                lo,
                w,
            ) == field32(old(bus).word_at(fsel_word_addr(pin)), lo, w),
{
    proof {
        vstd::arithmetic::power2::lemma2_to64();
        crate::reg::lemma_fits32_is_bound(ALT5, FSEL_FIELD_BITS);
        lemma_packed_layout(FSEL_FIELD_BITS, pin);
        lemma_packed_layout(CLK_FIELD_BITS, pin);
        lemma_div_is_ordered(pin as int, 52, fields_per_word(FSEL_FIELD_BITS));
        lemma_div_is_ordered(pin as int, 52, fields_per_word(CLK_FIELD_BITS));
    }
    let ghost bus0 = *old(bus);
    pin_disable_pull(bus, pin);
    let ghost bus1 = *bus;
    let r = GpFSel::new().store_pin_function(bus, pin, ALT5);
    proof {
        lemma_touches_only_trans(
            bus0,
            bus1,
            *bus,
            set![GP_PUD_ADDR, clk_word_addr(pin)],
            set![fsel_word_addr(pin)],
            set![GP_PUD_ADDR, clk_word_addr(pin), fsel_word_addr(pin)],
        );
        lemma_with_field32(
            bus0.word_at(fsel_word_addr(pin)),
            fsel_bit_offset(pin),
            FSEL_FIELD_BITS,
            ALT5,
        );
        assert(bus.log() =~= bus0.log() + pin_use_as_alt5_writes(bus0, pin));
    }
}

} // verus!
