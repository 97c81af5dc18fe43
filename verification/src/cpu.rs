//! CPU system-register access.
//!
//! [`CpuState`] models the system registers that the boot and exception
//! paths read and write; a runtime front end performs one privileged move
//! instruction per [`CpuReg::fetch`] / [`CpuReg::store`] call. [`CpuReg`]
//! is the 64-bit register handle with a cached value, the counterpart of
//! [`crate::mmio::Mmio`] for registers that have a name instead of an
//! address.

use crate::reg::{
    bit64, field64, fits64, lemma_fits64_is_bound, read_field64, with_field64, write_field64,
    RegError,
};
use vstd::arithmetic::power2::pow2;
use vstd::prelude::*;

verus! {

/// Bit of SCR_EL3 that unmasks external aborts (EA).
pub const SCR_EA_BIT: u8 = 3;

/// Bit of SCR_EL3 that unmasks IRQ.
pub const SCR_IRQ_BIT: u8 = 1;

/// Bit of SCR_EL3 that unmasks FIQ.
pub const SCR_FIQ_BIT: u8 = 2;

/// Bit of SCR_EL3 that selects AArch64 for the next lower level (RW).
pub const SCR_RW_BIT: u8 = 10;

/// Bit of SPSel that selects the dedicated SP_ELx stack over SP_EL0.
pub const SPSEL_SP_BIT: u8 = 0;

/// The system registers the boot and exception subsystem touches.
#[derive(Clone, Copy, Debug, PartialEq, Eq, Structural)]
pub enum SysRegId {
    /// CurrentEL: the executing exception level, in bits 2 and 3.
    CurrentEl,
    /// ESR_EL3: syndrome of the last trap taken to EL3.
    EsrEl3,
    /// ELR_EL3: faulting-instruction address of the last trap.
    ElrEl3,
    /// FAR_EL3: faulting data address of the last trap.
    FarEl3,
    /// MPIDR_EL1: core identification; the core id is in the low byte.
    MpidrEl1,
    /// SCR_EL3: secure configuration and trap-routing controls.
    ScrEl3,
    /// SPSel: stack-pointer selection.
    SpSel,
    /// VBAR_EL3: base address of the exception vector table.
    VBarEl3,
}

/// One privileged write, as the instruction stream issues it.
#[derive(Clone, Copy, Debug, PartialEq, Eq, Structural)]
pub enum CpuWrite {
    /// A move of a value into the named system register.
    Msr(SysRegId, u64),
    /// An immediate-form clear of DAIF mask bits.
    DaifClr(u8),
}

/// One value per modelled system register, plus the DAIF mask bits, plus
/// a ghost record of every privileged write in issue order, so contracts
/// can fix not only the final register values but also the order the
/// hardware saw them change in.
pub struct CpuState {
    pub current_el: u64,
    pub esr_el3: u64,
    pub elr_el3: u64,
    pub far_el3: u64,
    pub mpidr_el1: u64,
    pub scr_el3: u64,
    pub sp_sel: u64,
    pub vbar_el3: u64,
    /// The PSTATE DAIF interrupt-mask bits: a set bit masks that class.
    pub daif: u64,
    /// Every privileged write ever issued, oldest first.
    pub writes: Ghost<Seq<CpuWrite>>,
}

impl CpuState {
    /// Every privileged write issued so far, oldest first.
    pub open spec fn log(&self) -> Seq<CpuWrite> {
        self.writes@
    }

    /// Creates a CPU state with the given register values and an empty
    /// write record.
    pub fn new(
        current_el: u64,
        esr_el3: u64,
        elr_el3: u64,
        far_el3: u64,
        mpidr_el1: u64,
        scr_el3: u64,
        sp_sel: u64,
        vbar_el3: u64,
        daif: u64,
    ) -> (r: CpuState)
        ensures
            r.current_el == current_el,
            r.esr_el3 == esr_el3,
            r.elr_el3 == elr_el3,
            r.far_el3 == far_el3,
            r.mpidr_el1 == mpidr_el1,
            r.scr_el3 == scr_el3,
            r.sp_sel == sp_sel,
            r.vbar_el3 == vbar_el3,
            r.daif == daif,
            r.log() == Seq::<CpuWrite>::empty(),
    {
        CpuState {
            current_el,
            esr_el3,
            elr_el3,
            far_el3,
            mpidr_el1,
            scr_el3,
            sp_sel,
            vbar_el3,
            daif,
            writes: Ghost(Seq::empty()),
        }
    }
}

/// The value the named system register holds in `cpu`.
pub open spec fn sysreg_read(cpu: CpuState, id: SysRegId) -> u64 {
    match id {
        SysRegId::CurrentEl => cpu.current_el,
        SysRegId::EsrEl3 => cpu.esr_el3,
        SysRegId::ElrEl3 => cpu.elr_el3,
        SysRegId::FarEl3 => cpu.far_el3,
        SysRegId::MpidrEl1 => cpu.mpidr_el1,
        SysRegId::ScrEl3 => cpu.scr_el3,
        SysRegId::SpSel => cpu.sp_sel,
        SysRegId::VBarEl3 => cpu.vbar_el3,
    }
}

/// A 64-bit system-register handle with a cached value.
pub struct CpuReg {
    id: SysRegId,
    cached: u64,
}

impl CpuReg {
    /// Which system register the handle is bound to.
    pub closed spec fn reg_id(&self) -> SysRegId {
        self.id
    }

    /// The cached value.
    pub closed spec fn cached(&self) -> u64 {
        self.cached
    }

    /// Creates a handle for `id` with a preset cached value.
    pub fn new(id: SysRegId, val: u64) -> (r: CpuReg)
        ensures
            r.reg_id() == id,
            r.cached() == val,
    {
        CpuReg { id, cached: val }
    }

    /// Creates a handle for `id` with a zeroed cached value.
    pub fn zero(id: SysRegId) -> (r: CpuReg)
        ensures
            r.reg_id() == id,
            r.cached() == 0u64,
    {
        CpuReg::new(id, 0)
    }

    /// Creates a handle for `id` with the cached value fetched from the CPU.
    pub fn fetch(id: SysRegId, cpu: &CpuState) -> (r: CpuReg)
        ensures
            r.reg_id() == id,
            r.cached() == sysreg_read(*cpu, id),
    {
        let val = match id {
            SysRegId::CurrentEl => cpu.current_el,
            SysRegId::EsrEl3 => cpu.esr_el3,
            SysRegId::ElrEl3 => cpu.elr_el3,
            SysRegId::FarEl3 => cpu.far_el3,
            SysRegId::MpidrEl1 => cpu.mpidr_el1,
            SysRegId::ScrEl3 => cpu.scr_el3,
            SysRegId::SpSel => cpu.sp_sel,
            SysRegId::VBarEl3 => cpu.vbar_el3,
        };
        CpuReg { id, cached: val }
    }

    /// Writes the cached value to the bound system register: the named
    /// register takes the value, every other one keeps its own, and the
    /// move is appended to the write record.
    pub fn store(&self, cpu: &mut CpuState)
        ensures
            sysreg_read(*final (cpu), self.reg_id()) == self.cached(),
            final (cpu).current_el == if self.reg_id() == SysRegId::CurrentEl {
                self.cached()
            } else {
                old(cpu).current_el
            },
            final (cpu).esr_el3 == if self.reg_id() == SysRegId::EsrEl3 {
                self.cached()
            } else {
                old(cpu).esr_el3
            },
            final (cpu).elr_el3 == if self.reg_id() == SysRegId::ElrEl3 {
                self.cached()
            } else {
                old(cpu).elr_el3
            },
            final (cpu).far_el3 == if self.reg_id() == SysRegId::FarEl3 {
                self.cached()
            } else {
                old(cpu).far_el3
            },
            final (cpu).mpidr_el1 == if self.reg_id() == SysRegId::MpidrEl1 {
                self.cached()
            } else {
                old(cpu).mpidr_el1
            },
            final (cpu).scr_el3 == if self.reg_id() == SysRegId::ScrEl3 {
                self.cached()
            } else {
                old(cpu).scr_el3
            },
            final (cpu).sp_sel == if self.reg_id() == SysRegId::SpSel {
                self.cached()
            } else {
                old(cpu).sp_sel
            },
            final (cpu).vbar_el3 == if self.reg_id() == SysRegId::VBarEl3 {
                self.cached()
            } else {
                old(cpu).vbar_el3
            },
            final (cpu).daif == old(cpu).daif,
            final (cpu).log() == old(cpu).log().push(CpuWrite::Msr(self.reg_id(), self.cached())),
    {
        match self.id {
            SysRegId::CurrentEl => cpu.current_el = self.cached,
            SysRegId::EsrEl3 => cpu.esr_el3 = self.cached,
            SysRegId::ElrEl3 => cpu.elr_el3 = self.cached,
            SysRegId::FarEl3 => cpu.far_el3 = self.cached,
            SysRegId::MpidrEl1 => cpu.mpidr_el1 = self.cached,
            SysRegId::ScrEl3 => cpu.scr_el3 = self.cached,
            SysRegId::SpSel => cpu.sp_sel = self.cached,
            SysRegId::VBarEl3 => cpu.vbar_el3 = self.cached,
        }
        cpu.writes = Ghost(cpu.writes@.push(CpuWrite::Msr(self.id, self.cached)));
    }

    /// Returns the cached value.
    pub fn get_value(&self) -> (r: u64)
        ensures
            r == self.cached(),
    {
        self.cached
    }

    /// Replaces the cached value; the hardware register is untouched.
    pub fn set_value(self, val: u64) -> (r: CpuReg)
        ensures
            r.reg_id() == self.reg_id(),
            r.cached() == val,
    {
        CpuReg { id: self.id, cached: val }
    }

    /// Replaces the cached field `[shift, shift + sz)` by `val`; cache only.
    pub fn set_bits(self, shift: u8, sz: u8, val: u64) -> (r: CpuReg)
        requires
            shift < 64,
            shift + sz <= 64,
            fits64(val, sz),
        ensures
            r.reg_id() == self.reg_id(),
            r.cached() == with_field64(self.cached(), shift, sz, val),
    {
        CpuReg { id: self.id, cached: write_field64(self.cached, shift, sz, val) }
    }

    /// Sets or clears cached bit `bitpos`; cache only.
    pub fn set_bit(self, bitpos: u8, val: bool) -> (r: CpuReg)
        requires
            bitpos < 64,
        ensures
            r.reg_id() == self.reg_id(),
            r.cached() == with_field64(
                self.cached(),
                bitpos,
                1,
                if val {
                    1u64
                } else {
                    0u64
                },
            ),
    {
        let bit: u64 = if val {
            1
        } else {
            0
        };
        proof {
            assert(fits64(0u64, 1) && fits64(1u64, 1)) by (bit_vector);
        }
        self.set_bits(bitpos, 1, bit)
    }

    /// Replaces the cached field `[shift, shift + sz)` by `val` if `val`
    /// fits in `sz` bits, and reports the fatal configuration error
    /// otherwise, leaving the handle untouched.
    pub fn checked_set_bits(&self, shift: u8, sz: u8, val: u64) -> (r: Result<CpuReg, RegError>)
        requires
            shift < 64,
            shift + sz <= 64,
        ensures
            match r {
                Ok(c) => {
                    &&& (val as nat) < pow2(sz as nat)
                    &&& c.reg_id() == self.reg_id()
                    &&& c.cached() == with_field64(self.cached(), shift, sz, val)
                },
                Err(e) => {
                    &&& (val as nat) >= pow2(sz as nat)
                    &&& e == RegError::ValueTooWide
                },
            },
    {
        proof {
            lemma_fits64_is_bound(val, sz);
        }
        let mask = crate::reg::make_mask64(sz);
        if val & !mask != 0 {
            Err(RegError::ValueTooWide)
        } else {
            Ok(CpuReg { id: self.id, cached: write_field64(self.cached, shift, sz, val) })
        }
    }

    /// Returns the cached field `[shift, shift + sz)`.
    pub fn get_bits(&self, shift: u8, sz: u8) -> (r: u64)
        requires
            shift < 64,
            shift + sz <= 64,
        ensures
            r == field64(self.cached(), shift, sz),
    {
        read_field64(self.cached, shift, sz)
    }

    /// Returns cached bit `bitpos`.
    pub fn get_bit(&self, bitpos: u8) -> (r: bool)
        requires
            bitpos < 64,
        ensures
            r == bit64(self.cached(), bitpos),
    {
        let v = self.get_bits(bitpos, 1);
        proof {
            let c = self.cached();
            assert(field64(c, bitpos, 1) == 0 || field64(c, bitpos, 1) == 1) by (bit_vector);
        }
        v != 0
    }

    /// Sets or clears the SCR_EL3 IRQ-unmask bit; cache only.
    pub fn set_irq(self, val: bool) -> (r: CpuReg)
        requires
            self.reg_id() == SysRegId::ScrEl3,
        ensures
            r.reg_id() == self.reg_id(),
            r.cached() == with_field64(
                self.cached(),
                SCR_IRQ_BIT,
                1,
                if val {
                    1u64
                } else {
                    0u64
                },
            ),
    {
        self.set_bit(SCR_IRQ_BIT, val)
    }

    /// Returns the cached SCR_EL3 IRQ-unmask bit.
    pub fn get_irq(&self) -> (r: bool)
        requires
            self.reg_id() == SysRegId::ScrEl3,
        ensures
            r == bit64(self.cached(), SCR_IRQ_BIT),
    {
        self.get_bit(SCR_IRQ_BIT)
    }

    /// Sets or clears the SCR_EL3 FIQ-unmask bit; cache only.
    pub fn set_fiq(self, val: bool) -> (r: CpuReg)
        requires
            self.reg_id() == SysRegId::ScrEl3,
        ensures
            r.reg_id() == self.reg_id(),
            r.cached() == with_field64(
                self.cached(),
                SCR_FIQ_BIT,
                1,
                if val {
                    1u64
                } else {
                    0u64
                },
            ),
    {
        self.set_bit(SCR_FIQ_BIT, val)
    }

    /// Returns the cached SCR_EL3 FIQ-unmask bit.
    pub fn get_fiq(&self) -> (r: bool)
        requires
            self.reg_id() == SysRegId::ScrEl3,
        ensures
            r == bit64(self.cached(), SCR_FIQ_BIT),
    {
        self.get_bit(SCR_FIQ_BIT)
    }

    /// Sets or clears the SCR_EL3 external-abort-unmask bit; cache only.
    pub fn set_ea(self, val: bool) -> (r: CpuReg)
        requires
            self.reg_id() == SysRegId::ScrEl3,
        ensures
            r.reg_id() == self.reg_id(),
            r.cached() == with_field64(
                self.cached(),
                SCR_EA_BIT,
                1,
                if val {
                    1u64
                } else {
                    0u64
                },
            ),
    {
        self.set_bit(SCR_EA_BIT, val)
    }

    /// Returns the cached SCR_EL3 external-abort-unmask bit.
    pub fn get_ea(&self) -> (r: bool)
        requires
            self.reg_id() == SysRegId::ScrEl3,
        ensures
            r == bit64(self.cached(), SCR_EA_BIT),
    {
        self.get_bit(SCR_EA_BIT)
    }

    /// Sets or clears the SCR_EL3 lower-level-AArch64 bit; cache only.
    pub fn set_rw(self, val: bool) -> (r: CpuReg)
        requires
            self.reg_id() == SysRegId::ScrEl3,
        ensures
            r.reg_id() == self.reg_id(),
            r.cached() == with_field64(
                self.cached(),
                SCR_RW_BIT,
                1,
                if val {
                    1u64
                } else {
                    0u64
                },
            ),
    {
        self.set_bit(SCR_RW_BIT, val)
    }

    /// Returns the cached SCR_EL3 lower-level-AArch64 bit.
    pub fn get_rw(&self) -> (r: bool)
        requires
            self.reg_id() == SysRegId::ScrEl3,
        ensures
            r == bit64(self.cached(), SCR_RW_BIT),
    {
        self.get_bit(SCR_RW_BIT)
    }

    /// Sets or clears the SPSel stack-selection bit; cache only.
    pub fn set_sp(self, val: bool) -> (r: CpuReg)
        requires
            self.reg_id() == SysRegId::SpSel,
        ensures
            r.reg_id() == self.reg_id(),
            r.cached() == with_field64(
                self.cached(),
                SPSEL_SP_BIT,
                1,
                if val {
                    1u64
                } else {
                    0u64
                },
            ),
    {
        self.set_bit(SPSEL_SP_BIT, val)
    }

    /// Returns the cached SPSel stack-selection bit.
    pub fn get_sp(&self) -> (r: bool)
        requires
            self.reg_id() == SysRegId::SpSel,
        ensures
            r == bit64(self.cached(), SPSEL_SP_BIT),
    {
        self.get_bit(SPSEL_SP_BIT)
    }
}

/// Clears the DAIF mask bits named by the immediate, unmasking those trap
/// classes; the counterpart of one immediate-form move to DAIFClr. The
/// unmask is appended to the write record like any other privileged
/// write.
pub fn daif_clear(cpu: &mut CpuState, imm: u8)
    requires
        imm < 16,
    ensures
        final (cpu).daif == old(cpu).daif & !(imm as u64),
        final (cpu).current_el == old(cpu).current_el,
        final (cpu).esr_el3 == old(cpu).esr_el3,
        final (cpu).elr_el3 == old(cpu).elr_el3,
        final (cpu).far_el3 == old(cpu).far_el3,
        final (cpu).mpidr_el1 == old(cpu).mpidr_el1,
        final (cpu).scr_el3 == old(cpu).scr_el3,
        final (cpu).sp_sel == old(cpu).sp_sel,
        final (cpu).vbar_el3 == old(cpu).vbar_el3,
        final (cpu).log() == old(cpu).log().push(CpuWrite::DaifClr(imm)),
{
    cpu.daif = cpu.daif & !(imm as u64);
    cpu.writes = Ghost(cpu.writes@.push(CpuWrite::DaifClr(imm)));
}

/// The exception level the core is executing at, read from CurrentEL.
pub fn current_el(cpu: &CpuState) -> (r: u64)
    ensures
        r == cpu.current_el >> 2u64,
        r == cpu.current_el / 4,
{
    proof {
        let x = cpu.current_el;
        assert(x >> 2u64 == x / 4) by (bit_vector);
    }
    CpuReg::fetch(SysRegId::CurrentEl, cpu).get_value() >> 2
}

/// The hardware core id: the low byte of MPIDR_EL1.
pub fn core_id(cpu: &CpuState) -> (r: u64)
    ensures
        r == cpu.mpidr_el1 & 0xff,
        r == cpu.mpidr_el1 % 256,
        r < 256,
{
    proof {
        let x = cpu.mpidr_el1;
        assert(x & 0xff == x % 256 && x % 256 < 256) by (bit_vector);
    }
    CpuReg::fetch(SysRegId::MpidrEl1, cpu).get_value() & 0xff
}

/// Busy-waits for roughly the given number of cycles; the countdown is the
/// whole effect.
pub fn delay(cycles: u64) {
    let mut cnt: u64 = cycles;
    while cnt > 0
        decreases cnt,
    {
        cnt = cnt - 1;
    }
}

} // verus!
