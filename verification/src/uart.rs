//! BCM2837 AUX mini UART (UART1) support.
//!
//! [`init`] routes the transmit and receive pins to their ALT5 function
//! and programs the mini UART for polled 8-bit transmission at 115200
//! baud. [`write_char`] polls the line-status register and then drives one
//! byte into the transmit-holding register; [`Writer`] performs the
//! one-time initialization on first use and then streams bytes.
//!
//! The bytes actually transmitted are exactly the values driven into the
//! transmit-holding register, so contracts speak of [`uart_output`], the
//! projection of the bus write log onto that register.

use crate::board;
use crate::bus::{lemma_touches_only_trans, lemma_touches_only_widen, touches_only, MemBus};
use crate::gpio::{
    clk_bit_offset, clk_word_addr, fsel_bit_offset, fsel_word_addr, gpio_in_bus,
    pin_disable_pull_writes, pin_use_as_alt5, pin_use_as_alt5_writes, GP_PUD_ADDR, ALT5,
    CLK_FIELD_BITS, FSEL_FIELD_BITS,
};
use crate::mmio::{Mmio, Reg};
use crate::reg::{bit32, field32, lemma_fits32_is_bound, lemma_with_field32, with_field32};
use vstd::arithmetic::div_mod::lemma_div_is_ordered;
use vstd::arithmetic::power2::lemma2_to64;
use vstd::prelude::*;

verus! {

/// Address of the AUX enables register.
pub const AUX_ENABLES: usize = board::AUX_BASE + 4;

/// Address of the mini UART I/O (transmit/receive holding) register.
pub const AUX_MU_IO: usize = board::AUX_BASE + 0x40;

/// Address of the mini UART interrupt-enable register.
pub const AUX_MU_IER: usize = board::AUX_BASE + 0x44;

/// Address of the mini UART interrupt-identify/FIFO-clear register.
pub const AUX_MU_IIR: usize = board::AUX_BASE + 0x48;

/// Address of the mini UART line-control register.
pub const AUX_MU_LCR: usize = board::AUX_BASE + 0x4c;

/// Address of the mini UART modem-control register.
pub const AUX_MU_MCR: usize = board::AUX_BASE + 0x50;

/// Address of the mini UART line-status register.
pub const AUX_MU_LSR: usize = board::AUX_BASE + 0x54;

/// Address of the mini UART control register.
pub const AUX_MU_CNTL: usize = board::AUX_BASE + 0x60;

/// Address of the mini UART baud-rate register.
pub const AUX_MU_BAUD: usize = board::AUX_BASE + 0x68;

/// Line-control value selecting 8-bit data.
pub const DATA_SIZE_8B: u32 = 3;

/// Bit of the line-status register that reports an empty transmitter.
pub const LSR_TX_EMPTY_BIT: u8 = 5;

/// Every AUX mini UART register lies inside the bus window.
pub open spec fn aux_in_bus(bus: MemBus) -> bool {
    &&& bus.contains(AUX_ENABLES)
    &&& bus.contains(AUX_MU_IO)
    &&& bus.contains(AUX_MU_IER)
    &&& bus.contains(AUX_MU_IIR)
    &&& bus.contains(AUX_MU_LCR)
    &&& bus.contains(AUX_MU_MCR)
    &&& bus.contains(AUX_MU_LSR)
    &&& bus.contains(AUX_MU_CNTL)
    &&& bus.contains(AUX_MU_BAUD)
}

/// The transmitter reports empty, so one byte can be driven.
pub open spec fn tx_ready(bus: MemBus) -> bool {
    bit32(bus.word_at(AUX_MU_LSR), LSR_TX_EMPTY_BIT)
}

/// The bytes transmitted so far: the projection of the write log onto the
/// transmit-holding register, oldest first.
pub open spec fn uart_output(log: Seq<(usize, u32)>) -> Seq<u8>
    decreases log.len(),
{
    if log.len() == 0 {
        Seq::empty()
    } else {
        if log.last().0 == AUX_MU_IO {
            uart_output(log.drop_last()).push(log.last().1 as u8)
        } else {
            uart_output(log.drop_last())
        }
    }
}

/// One appended write extends the output exactly when it drives the
/// transmit-holding register.
pub proof fn lemma_uart_output_push(log: Seq<(usize, u32)>, a: usize, v: u32)
    ensures
        a == AUX_MU_IO ==> uart_output(log.push((a, v))) == uart_output(log).push(v as u8),
        a != AUX_MU_IO ==> uart_output(log.push((a, v))) == uart_output(log),
{
    assert(log.push((a, v)).drop_last() =~= log);
    assert(log.push((a, v)).last() == (a, v));
}

/// Writes that never name the transmit-holding register leave the output
/// unchanged.
pub proof fn lemma_uart_output_extend(pre: Seq<(usize, u32)>, post: Seq<(usize, u32)>)
    requires
        post.len() >= pre.len(),
        forall|i: int| 0 <= i < pre.len() ==> post[i] == pre[i],
        forall|i: int| pre.len() <= i < post.len() ==> (#[trigger] post[i]).0 != AUX_MU_IO,
    ensures
        uart_output(post) == uart_output(pre),
    decreases post.len(),
{
    if post.len() == pre.len() {
        assert(post =~= pre);
    } else {
        lemma_uart_output_extend(pre, post.drop_last());
        assert(post.last().0 != AUX_MU_IO);
    }
}

/// The mini UART is configured for polled 8-bit transmission: transmit
/// and receive pins routed to ALT5, device enabled, interrupts off, 8-bit
/// mode, 115200 baud from the 250 MHz clock, receiver and transmitter
/// enabled.
pub open spec fn uart_configured(bus: MemBus) -> bool {
    &&& field32(bus.word_at(fsel_word_addr(board::AUX_UART_TX_PIN)), fsel_bit_offset(board::AUX_UART_TX_PIN), FSEL_FIELD_BITS) == ALT5
    &&& field32(bus.word_at(fsel_word_addr(board::AUX_UART_RX_PIN)), fsel_bit_offset(board::AUX_UART_RX_PIN), FSEL_FIELD_BITS) == ALT5
    &&& field32(bus.word_at(AUX_ENABLES), 0, 1) == 1
    &&& bus.word_at(AUX_MU_IER) == 0
    &&& field32(bus.word_at(AUX_MU_LCR), 0, 2) == DATA_SIZE_8B
    &&& bus.word_at(AUX_MU_MCR) == 0
    &&& field32(bus.word_at(AUX_MU_BAUD), 0, 16) == 270
    &&& field32(bus.word_at(AUX_MU_CNTL), 0, 1) == 1
    &&& field32(bus.word_at(AUX_MU_CNTL), 1, 1) == 1
}

/// The addresses the one-time initialization may write.
pub open spec fn uart_init_touched() -> Set<usize> {
    set![
        GP_PUD_ADDR,
        clk_word_addr(board::AUX_UART_TX_PIN),
        clk_word_addr(board::AUX_UART_RX_PIN),
        fsel_word_addr(board::AUX_UART_TX_PIN),
        fsel_word_addr(board::AUX_UART_RX_PIN),
        AUX_ENABLES,
        AUX_MU_IER,
        AUX_MU_CNTL,
        AUX_MU_LCR,
        AUX_MU_MCR,
        AUX_MU_IIR,
        AUX_MU_BAUD,
    ]
}

/// The addresses a write through [`Writer`] may touch: the one-time
/// initialization plus the transmit-holding register.
pub open spec fn uart_write_touched() -> Set<usize> {
    uart_init_touched().insert(AUX_MU_IO)
}

/// The hardware write sequence of the one-time initialization, starting
/// from bus state `pre`: the transmit pin's routing protocol, then the
/// receive pin's, then the device programming. The receiver and
/// transmitter are switched off before mode, FIFOs and baud are
/// programmed, and are re-enabled only by the very last write.
pub open spec fn uart_init_writes(pre: MemBus) -> Seq<(usize, u32)> {
    let clk = clk_word_addr(board::AUX_UART_TX_PIN);
    let fsel = fsel_word_addr(board::AUX_UART_TX_PIN);
    let c1 = with_field32(pre.word_at(clk), clk_bit_offset(board::AUX_UART_TX_PIN), CLK_FIELD_BITS, 1);
    let c2 = with_field32(c1, clk_bit_offset(board::AUX_UART_TX_PIN), CLK_FIELD_BITS, 0);
    let c3 = with_field32(c2, clk_bit_offset(board::AUX_UART_RX_PIN), CLK_FIELD_BITS, 1);
    let c4 = with_field32(c3, clk_bit_offset(board::AUX_UART_RX_PIN), CLK_FIELD_BITS, 0);
    let f1 = with_field32(
        pre.word_at(fsel),
        fsel_bit_offset(board::AUX_UART_TX_PIN),
        FSEL_FIELD_BITS,
        ALT5,
    );
    let f2 = with_field32(f1, fsel_bit_offset(board::AUX_UART_RX_PIN), FSEL_FIELD_BITS, ALT5);
    seq![
        (GP_PUD_ADDR, 0u32),
        (clk, c1),
        (GP_PUD_ADDR, 0u32),
        (clk, c2),
        (fsel, f1),
        (GP_PUD_ADDR, 0u32),
        (clk, c3),
        (GP_PUD_ADDR, 0u32),
        (clk, c4),
        (fsel, f2),
        (AUX_ENABLES, 1u32),
        (AUX_MU_IER, 0u32),
        (AUX_MU_CNTL, 0u32),
        (AUX_MU_LCR, DATA_SIZE_8B),
        (AUX_MU_MCR, 0u32),
        (AUX_MU_IER, 0u32),
        (AUX_MU_IIR, 6u32),
        (AUX_MU_BAUD, 270u32),
        (AUX_MU_CNTL, 3u32),
    ]
}

/// The writes a byte stream makes: one transmit-holding write per byte,
/// in order.
pub open spec fn io_writes(s: Seq<u8>) -> Seq<(usize, u32)> {
    s.map_values(|b: u8| (AUX_MU_IO, b as u32))
}

/// The composed register values of the initialization, as plain numbers.
proof fn lemma_uart_setup_values()
    by (bit_vector)
    ensures
        with_field32(0u32, 0, 1, 1) == 1u32,
        with_field32(0u32, 0, 2, 3) == 3u32,
        with_field32(with_field32(0u32, 1, 1, 1), 2, 1, 1) == 6u32,
        with_field32(0u32, 0, 16, 270) == 270u32,
        with_field32(with_field32(0u32, 0, 1, 1), 1, 1, 1) == 3u32,
{
}

/// Composes the 16-bit baud divisor for `baud` into the cached value:
/// the register field is `clock / (8 * baud) - 1`.
pub fn set_baud(reg: Mmio, baud: u32) -> (r: Mmio)
    requires
        1 <= baud,
        8 * (baud as int) <= board::AUX_UART_CLOCK as int,
        board::AUX_UART_CLOCK as int / (8 * (baud as int)) <= 0x10000,
    ensures
        r.loc() == reg.loc(),
        r.cached() == with_field32(
            reg.cached(),
            0,
            16,
            (board::AUX_UART_CLOCK as int / (8 * (baud as int)) - 1) as u32,
        ),
{
    proof {
        let d = 8 * (baud as int);
        lemma_div_is_ordered(d, board::AUX_UART_CLOCK as int, d);
        vstd::arithmetic::div_mod::lemma_div_by_self(d);
    }
    let divisor = board::AUX_UART_CLOCK / (baud * 8) - 1;
    proof {
        lemma2_to64();
        lemma_fits32_is_bound(divisor, 16);
    }
    reg.set_bits(0, 16, divisor)
}

/// Enables and initializes the AUX mini UART for polled transmission.
/// Only configuration registers are written, in the exact order
/// [`uart_init_writes`] gives: pins routed first, the receiver and
/// transmitter held disabled while mode, FIFOs and baud are programmed,
/// and re-enabled only as the final step. The output stream is
/// untouched.
pub fn init(bus: &mut MemBus)
    requires
        old(bus).wf(),
        gpio_in_bus(*old(bus)),
        aux_in_bus(*old(bus)),
    ensures
        final (bus).wf(),
        touches_only(*old(bus), *final (bus), uart_init_touched()),
        final (bus).log() == old(bus).log() + uart_init_writes(*old(bus)),
        uart_configured(*final (bus)),
        uart_output(final (bus).log()) == uart_output(old(bus).log()),
        final (bus).word_at(AUX_MU_LSR) == old(bus).word_at(AUX_MU_LSR),
{
    proof {
        lemma2_to64();
        lemma_fits32_is_bound(1u32, 1);
        lemma_fits32_is_bound(DATA_SIZE_8B, 2);
        lemma_packed_bounds_for_uart_pins();
    }
    let ghost bus0 = *old(bus);

    // Route the UART lines to their pins.
    pin_use_as_alt5(bus, board::AUX_UART_TX_PIN);
    let ghost bus1 = *bus;
    proof {
        lemma_touches_only_widen(
            bus0,
            bus1,
            set![
                GP_PUD_ADDR,
                clk_word_addr(board::AUX_UART_TX_PIN),
                fsel_word_addr(board::AUX_UART_TX_PIN),
            ],
            uart_init_touched(),
        );
    }
    pin_use_as_alt5(bus, board::AUX_UART_RX_PIN);
    let ghost bus2 = *bus;
    proof {
        lemma_touches_only_trans(
            bus0,
            bus1,
            bus2,
            uart_init_touched(),
            set![
                GP_PUD_ADDR,
                clk_word_addr(board::AUX_UART_RX_PIN),
                fsel_word_addr(board::AUX_UART_RX_PIN),
            ],
            uart_init_touched(),
        );
    }

    // Program the device: enable, reset interrupts, disable transfer
    // while configuring, select 8-bit data, clear both FIFOs, set the
    // baud divisor, then enable the receiver and transmitter.
    Mmio::zero(AUX_ENABLES).set_bit(0, true).store(bus);
    Mmio::new(AUX_MU_IER, 0).store(bus);
    Mmio::new(AUX_MU_CNTL, 0).store(bus);
    Mmio::new(AUX_MU_LCR, 0).set_bits(0, 2, DATA_SIZE_8B).store(bus);
    Mmio::new(AUX_MU_MCR, 0).store(bus);
    Mmio::new(AUX_MU_IER, 0).store(bus);
    Mmio::new(AUX_MU_IIR, 0).set_bit(1, true).set_bit(2, true).store(bus);
    set_baud(Mmio::zero(AUX_MU_BAUD), 115200).store(bus);
    Mmio::zero(AUX_MU_CNTL).set_bit(0, true).set_bit(1, true).store(bus);

    proof {
        lemma_init_register_values();
        lemma_uart_setup_values();
        assert(touches_only(bus2, *bus, uart_init_touched()));
        lemma_touches_only_trans(
            bus0,
            bus2,
            *bus,
            uart_init_touched(),
            uart_init_touched(),
            uart_init_touched(),
        );
        assert forall|i: int| bus0.log().len() <= i < bus.log().len() implies (
        #[trigger] bus.log()[i]).0 != AUX_MU_IO by {
            assert(uart_init_touched().contains(bus.log()[i].0));
        }
        lemma_uart_output_extend(bus0.log(), bus.log());
        assert(bus2.log() =~= bus0.log() + pin_use_as_alt5_writes(bus0, board::AUX_UART_TX_PIN)
            + pin_use_as_alt5_writes(bus1, board::AUX_UART_RX_PIN));
        assert(bus.log() =~= bus0.log() + uart_init_writes(bus0));
    }
}

/// The field values the initialization writes land as stated.
proof fn lemma_init_register_values()
    ensures
        field32(with_field32(0u32, 0, 1, 1), 0, 1) == 1,
        field32(with_field32(0u32, 0, 2, DATA_SIZE_8B), 0, 2) == DATA_SIZE_8B,
        field32(with_field32(0u32, 0, 16, 270), 0, 16) == 270,
        field32(with_field32(with_field32(0u32, 0, 1, 1), 1, 1, 1), 0, 1) == 1,
        field32(with_field32(with_field32(0u32, 0, 1, 1), 1, 1, 1), 1, 1) == 1,
{
    lemma2_to64();
    lemma_fits32_is_bound(1u32, 1);
    lemma_fits32_is_bound(DATA_SIZE_8B, 2);
    lemma_fits32_is_bound(270u32, 16);
    lemma_with_field32(0u32, 0, 1, 1);
    lemma_with_field32(0u32, 0, 2, DATA_SIZE_8B);
    lemma_with_field32(0u32, 0, 16, 270);
    lemma_with_field32(with_field32(0u32, 0, 1, 1), 1, 1, 1);
}

/// The UART pins' function-select and clock words sit below the AUX
/// block, so programming the AUX registers never aliases them.
proof fn lemma_packed_bounds_for_uart_pins()
    ensures
        fsel_word_addr(board::AUX_UART_TX_PIN) == board::GPIO_BASE + 4,
        fsel_word_addr(board::AUX_UART_RX_PIN) == board::GPIO_BASE + 4,
        clk_word_addr(board::AUX_UART_TX_PIN) == crate::gpio::GP_PUPD_CLK_ADDR,
        clk_word_addr(board::AUX_UART_RX_PIN) == crate::gpio::GP_PUPD_CLK_ADDR,
{
    crate::gpio::lemma_packed_layout(FSEL_FIELD_BITS, board::AUX_UART_TX_PIN);
    assert(14int / 10 == 1);
    assert(15int / 10 == 1);
    assert(14int / 32 == 0);
    assert(15int / 32 == 0);
}

/// Drives one byte into the transmit-holding register, first polling the
/// line-status register until the transmitter is empty.
pub fn write_char(bus: &mut MemBus, ch: u8)
    requires
        old(bus).wf(),
        aux_in_bus(*old(bus)),
        tx_ready(*old(bus)),
    ensures
        final (bus).wf(),
        touches_only(*old(bus), *final (bus), set![AUX_MU_IO]),
        final (bus).word_at(AUX_MU_IO) == ch as u32,
        final (bus).log() == old(bus).log().push((AUX_MU_IO, ch as u32)),
        uart_output(final (bus).log()) == uart_output(old(bus).log()).push(ch),
        tx_ready(*final (bus)),
{
    loop
        invariant
            *bus == *old(bus),
            bus.wf(),
            aux_in_bus(*bus),
            tx_ready(*bus),
        decreases 0nat,
    {
        let lsr = Mmio::fetch(AUX_MU_LSR, bus);
        if lsr.get_bit(LSR_TX_EMPTY_BIT) {
            break ;
        }
    }
    Mmio::new(AUX_MU_IO, ch as u32).store(bus);
    proof {
        lemma_uart_output_push(old(bus).log(), AUX_MU_IO, ch as u32);
        assert(((ch as u32) as u8) == ch);
    }
}

/// The polled UART writer: performs the one-time hardware initialization
/// on first use, then streams bytes one at a time.
pub struct Writer {
    /// Whether the one-time initialization has run.
    pub initialized: bool,
}

impl Writer {
    /// Creates a writer that has not yet initialized the hardware.
    pub fn new() -> (r: Writer)
        ensures
            !r.initialized,
    {
        Writer { initialized: false }
    }

    /// Writes the bytes of `s` to the UART, initializing the hardware
    /// first if this is the writer's first use. The transmitted stream is
    /// extended by exactly `s`, in order, and the write log fixes the
    /// whole order: on a first use every initialization write strictly
    /// precedes every transmitted byte.
    pub fn write_str(&mut self, bus: &mut MemBus, s: &[u8])
        requires
            old(bus).wf(),
            gpio_in_bus(*old(bus)),
            aux_in_bus(*old(bus)),
            tx_ready(*old(bus)),
        ensures
            final (self).initialized,
            final (bus).wf(),
            touches_only(*old(bus), *final (bus), uart_write_touched()),
            final (bus).log() == old(bus).log() + (if old(self).initialized {
                Seq::<(usize, u32)>::empty()
            } else {
                uart_init_writes(*old(bus))
            }) + io_writes(s@),
            uart_output(final (bus).log()) == uart_output(old(bus).log()) + s@,
            tx_ready(*final (bus)),
            !old(self).initialized ==> uart_configured(*final (bus)),
            old(self).initialized ==> *final (self) == *old(self),
            uart_configured(*old(bus)) ==> uart_configured(*final (bus)),
    {
        proof {
            lemma_packed_bounds_for_uart_pins();
        }
        let ghost bus0 = *old(bus);
        if !self.initialized {
            self.initialized = true;
            init(bus);
        }
        let ghost busb = *bus;
        let ghost setup = if old(self).initialized {
            Seq::<(usize, u32)>::empty()
        } else {
            uart_init_writes(bus0)
        };
        proof {
            if !old(self).initialized {
                lemma_touches_only_widen(bus0, busb, uart_init_touched(), uart_write_touched());
            }
            assert(touches_only(bus0, busb, uart_write_touched()));
            assert(busb.log() =~= bus0.log() + setup);
            assert(busb.log() + io_writes(s@.subrange(0, 0)) =~= busb.log());
        }
        let mut i: usize = 0;
        while i < s.len()
            invariant
                i <= s@.len(),
                bus.wf(),
                aux_in_bus(*bus),
                gpio_in_bus(*bus),
                tx_ready(*bus),
                touches_only(busb, *bus, set![AUX_MU_IO]),
                bus.log() == busb.log() + io_writes(s@.subrange(0, i as int)),
                uart_output(bus.log()) == uart_output(busb.log()) + s@.subrange(0, i as int),
                uart_configured(busb) ==> uart_configured(*bus),
            decreases s@.len() - i,
        {
            let ch = s[i];
            let ghost pre = *bus;
            write_char(bus, ch);
            proof {
                lemma_touches_only_trans(
                    busb,
                    pre,
                    *bus,
                    set![AUX_MU_IO],
                    set![AUX_MU_IO],
                    set![AUX_MU_IO],
                );
                assert(s@.subrange(0, i + 1 as int) =~= s@.subrange(0, i as int).push(s@[i as int]));
                assert(io_writes(s@.subrange(0, i + 1 as int)) =~= io_writes(
                    s@.subrange(0, i as int),
                ).push((AUX_MU_IO, s@[i as int] as u32)));
                assert(bus.log() =~= busb.log() + io_writes(s@.subrange(0, i + 1 as int)));
            }
            i += 1;
        }
        proof {
            assert(s@.subrange(0, s@.len() as int) =~= s@);
            lemma_touches_only_widen(busb, *bus, set![AUX_MU_IO], uart_write_touched());
            lemma_touches_only_trans(
                bus0,
                busb,
                *bus,
                uart_write_touched(),
                uart_write_touched(),
                uart_write_touched(),
            );
            assert(bus.log() =~= bus0.log() + setup + io_writes(s@));
        }
    }
}

} // verus!
