//! Exception vector-table layout, trap tagging, and the fatal-trap path.
//!
//! The hardware delivers every trap through a table of 16 fixed-offset
//! entry stubs: 4 exception-level groups of 4 classes, 128 bytes apart,
//! the table 2048-byte aligned. The processor computes the entry address
//! algebraically from the table base and the (group, class) pair, so the
//! layout here is part of the hardware ABI and must not be reordered.
//! Each stub loads the tag `(group << 4) | class` and falls into one
//! common handler, which captures the fault registers and terminates:
//! no exception is resumable.

use crate::cpu::{
    daif_clear, CpuReg, CpuState, CpuWrite, SysRegId, SCR_EA_BIT, SCR_FIQ_BIT, SCR_IRQ_BIT,
    SCR_RW_BIT, SPSEL_SP_BIT,
};
use crate::reg::{bit64, field64, with_field64};
use vstd::prelude::*;

verus! {

/// Number of bytes between consecutive vector-table entries.
pub const VECTOR_ENTRY_BYTES: u64 = 128;

/// Number of bytes of the whole vector table, also its required
/// alignment.
pub const VECTOR_TABLE_BYTES: u64 = 2048;

/// The exception-level groups, in vector-table order.
#[derive(Clone, Copy, Debug, PartialEq, Eq, Structural)]
pub enum ExceptionGroup {
    /// Trap from a lower level executing in AArch32.
    LowerAarch32,
    /// Trap from a lower level executing in AArch64.
    LowerAarch64,
    /// Trap from the current level on its dedicated SP_ELx stack.
    CurrentSpx,
    /// Trap from the current level on the shared SP_EL0 stack.
    CurrentSp0,
}

/// The exception classes within each group, in vector-table order.
#[derive(Clone, Copy, Debug, PartialEq, Eq, Structural)]
pub enum ExceptionClass {
    /// System error.
    SError,
    /// Fast interrupt.
    Fiq,
    /// Ordinary interrupt.
    Irq,
    /// Synchronous exception.
    Synchronous,
}

/// The number a group contributes to tags and table offsets.
pub open spec fn group_index(g: ExceptionGroup) -> u64 {
    match g {
        ExceptionGroup::LowerAarch32 => 0,
        ExceptionGroup::LowerAarch64 => 1,
        ExceptionGroup::CurrentSpx => 2,
        ExceptionGroup::CurrentSp0 => 3,
    }
}

/// The number a class contributes to tags and table offsets.
pub open spec fn class_index(c: ExceptionClass) -> u64 {
    match c {
        ExceptionClass::SError => 0,
        ExceptionClass::Fiq => 1,
        ExceptionClass::Irq => 2,
        ExceptionClass::Synchronous => 3,
    }
}

/// Returns the number of a group.
pub fn group_number(g: ExceptionGroup) -> (r: u64)
    ensures
        r == group_index(g),
{
    match g {
        ExceptionGroup::LowerAarch32 => 0,
        ExceptionGroup::LowerAarch64 => 1,
        ExceptionGroup::CurrentSpx => 2,
        ExceptionGroup::CurrentSp0 => 3,
    }
}

/// Returns the number of a class.
pub fn class_number(c: ExceptionClass) -> (r: u64)
    ensures
        r == class_index(c),
{
    match c {
        ExceptionClass::SError => 0,
        ExceptionClass::Fiq => 1,
        ExceptionClass::Irq => 2,
        ExceptionClass::Synchronous => 3,
    }
}

/// The tag a vector stub loads before falling into the common handler:
/// `(group << 4) | class`.
pub fn vector_tag(group: u64, class: u64) -> (r: u64)
    requires
        group < 16,
        class < 16,
    ensures
        r == group * 16 + class,
        r < 256,
{
    proof {
        assert((group << 4u64) | class == group * 16 + class && group * 16 + class < 256)
            by (bit_vector)
            requires
                group < 16 && class < 16,
        ;
    }
    (group << 4) | class
}

/// Splits a tag back into its group and class numbers, as the common
/// handler does.
pub fn decode_tag(num: u64) -> (r: (u64, u64))
    ensures
        r.0 == num >> 4u64,
        r.1 == num & 0xf,
        r.0 == num / 16,
        r.1 == num % 16,
{
    proof {
        assert(num >> 4u64 == num / 16 && (num & 0xf) == num % 16) by (bit_vector);
    }
    (num >> 4, num & 0xf)
}

/// Law (round trip): decoding the tag built from `(group, class)` gives
/// exactly `(group, class)` back.
pub proof fn lemma_tag_round_trip(group: u64, class: u64)
    requires
        group < 16,
        class < 16,
    ensures
        (group * 16 + class) / 16 == group,
        (group * 16 + class) % 16 == class,
{
    vstd::arithmetic::div_mod::lemma_fundamental_div_mod_converse(
        group * 16 + class,
        16,
        group as int,
        class as int,
    );
}

/// Byte offset of the vector-table entry for `(group, class)`: 16 entries
/// of 128 bytes each, group-major, class-minor.
pub fn vector_entry_offset(group: u64, class: u64) -> (r: u64)
    requires
        group < 4,
        class < 4,
    ensures
        r == group * 512 + class * 128,
        r % VECTOR_ENTRY_BYTES == 0,
        r < VECTOR_TABLE_BYTES,
{
    proof {
        vstd::arithmetic::div_mod::lemma_mod_multiples_basic(
            group as int * 4 + class as int,
            128,
        );
    }
    (group * 4 + class) * 128
}

/// Law: the table layout is injective: distinct `(group, class)` pairs
/// always land on distinct entry offsets.
pub proof fn lemma_vector_layout_injective(g1: u64, c1: u64, g2: u64, c2: u64)
    requires
        g1 < 4,
        c1 < 4,
        g2 < 4,
        c2 < 4,
        !(g1 == g2 && c1 == c2),
    ensures
        g1 * 512 + c1 * 128 != g2 * 512 + c2 * 128,
{
}

/// Everything the fatal-trap report carries: the decoded trap origin and
/// the fault registers captured from the CPU.
pub struct ExceptionReport {
    /// The exception-level group the trap came through.
    pub group: u64,
    /// The exception class within the group.
    pub index: u64,
    /// The faulting-instruction address (ELR_EL3).
    pub elr: u64,
    /// The exception syndrome (ESR_EL3).
    pub esr: u64,
    /// The faulting data address (FAR_EL3).
    pub far: u64,
}

/// The common trap handler's capture step: decodes the stub's tag and
/// reads the fault registers. The runtime front end emits the diagnostic
/// and terminates; no exception is resumable in this design.
pub fn unhandled_exception(cpu: &CpuState, num: u64) -> (r: ExceptionReport)
    ensures
        r.group == num / 16,
        r.index == num % 16,
        r.elr == cpu.elr_el3,
        r.esr == cpu.esr_el3,
        r.far == cpu.far_el3,
{
    let (group, index) = decode_tag(num);
    let elr = CpuReg::fetch(SysRegId::ElrEl3, cpu).get_value();
    let esr = CpuReg::fetch(SysRegId::EsrEl3, cpu).get_value();
    let far = CpuReg::fetch(SysRegId::FarEl3, cpu).get_value();
    ExceptionReport { group, index, elr, esr, far }
}

/// Installs and arms the exception vector table. The routing controls
/// (external aborts, IRQ and FIQ taken at this level; AArch64 for lower
/// levels), the dedicated-stack selection and the table base are all
/// programmed before the four trap classes are unmasked: unmasking first
/// would leave an early trap with undefined vector behaviour. The write
/// record fixes that order: exactly the three register moves, then the
/// unmask, nothing else and nothing earlier.
pub fn init_exceptions(cpu: &mut CpuState, vbar: u64)
    ensures
        final (cpu).log() == old(cpu).log() + seq![
            CpuWrite::Msr(SysRegId::ScrEl3, 0x40e),
            CpuWrite::Msr(SysRegId::SpSel, 1),
            CpuWrite::Msr(SysRegId::VBarEl3, vbar),
            CpuWrite::DaifClr(0xf),
        ],
        final (cpu).scr_el3 == 0x40e,
        bit64(final (cpu).scr_el3, SCR_EA_BIT),
        bit64(final (cpu).scr_el3, SCR_IRQ_BIT),
        bit64(final (cpu).scr_el3, SCR_FIQ_BIT),
        bit64(final (cpu).scr_el3, SCR_RW_BIT),
        final (cpu).sp_sel == 1,
        bit64(final (cpu).sp_sel, SPSEL_SP_BIT),
        final (cpu).vbar_el3 == vbar,
        final (cpu).daif == old(cpu).daif & !0xf,
        field64(final (cpu).daif, 0, 4) == 0,
        final (cpu).current_el == old(cpu).current_el,
        final (cpu).esr_el3 == old(cpu).esr_el3,
        final (cpu).elr_el3 == old(cpu).elr_el3,
        final (cpu).far_el3 == old(cpu).far_el3,
        final (cpu).mpidr_el1 == old(cpu).mpidr_el1,
{
    CpuReg::zero(SysRegId::ScrEl3)
        .set_ea(true)  // external aborts unmasked
        .set_irq(true)  // IRQ unmasked
        .set_fiq(true)  // FIQ unmasked
        .set_rw(true)  // next lower level runs AArch64
        .store(cpu);
    CpuReg::zero(SysRegId::SpSel)
        .set_sp(true)  // traps use SP_ELx, not SP_EL0
        .store(cpu);
    CpuReg::new(SysRegId::VBarEl3, vbar).store(cpu);
    daif_clear(cpu, 0b1111);
    proof {
        assert(with_field64(
            with_field64(with_field64(with_field64(0u64, 3, 1, 1), 1, 1, 1), 2, 1, 1),
            10,
            1,
            1,
        ) == 0x40eu64) by (bit_vector);
        assert(with_field64(0u64, 0, 1, 1) == 1u64) by (bit_vector);
        assert(field64(0x40eu64, 3, 1) == 1 && field64(0x40eu64, 1, 1) == 1 && field64(
            0x40eu64,
            2,
            1,
        ) == 1 && field64(0x40eu64, 10, 1) == 1 && field64(1u64, 0, 1) == 1) by (bit_vector);
        let d = old(cpu).daif;
        assert(field64(d & !0xfu64, 0, 4) == 0) by (bit_vector);
        assert(cpu.log() =~= old(cpu).log() + seq![
            CpuWrite::Msr(SysRegId::ScrEl3, 0x40e),
            CpuWrite::Msr(SysRegId::SpSel, 1),
            CpuWrite::Msr(SysRegId::VBarEl3, vbar),
            CpuWrite::DaifClr(0xf),
        ]);
    }
}

} // verus!
