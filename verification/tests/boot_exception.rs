//! Boot trampoline computations and the exception table and reporter.

use reghal::board;
use reghal::boot::{core_role, stack_top_for_core, start, CoreRole};
use reghal::cpu::{core_id, current_el, CpuState};
use reghal::exception::{
    class_number, decode_tag, group_number, init_exceptions, unhandled_exception,
    vector_entry_offset, vector_tag, ExceptionClass, ExceptionGroup,
};

fn cpu_with(mpidr: u64) -> CpuState {
    // current EL 3 in bits 2..4, core id from the caller, all traps masked
    CpuState::new(0xc, 0, 0, 0, mpidr, 0, 0, 0, 0xf)
}

#[test]
fn current_el_reads_level_field() {
    let cpu = cpu_with(0);
    assert_eq!(current_el(&cpu), 3);
}

#[test]
fn core_id_masks_low_byte() {
    let cpu = cpu_with(0x8000_0102);
    assert_eq!(core_id(&cpu), 2);
}

#[test]
fn stack_top_scenario() {
    // stack size 0x10000, ram top T: core 2 gets T - 2 * 0x10000
    let t = board::RAM_TOP as u64;
    assert_eq!(stack_top_for_core(2), t - 2 * 0x10000);
}

#[test]
fn four_cores_get_disjoint_stack_regions() {
    let tops: Vec<u64> = (0..4).map(|id| stack_top_for_core(id)).collect();
    let t = board::RAM_TOP as u64;
    assert_eq!(tops, vec![t, t - 0x10000, t - 2 * 0x10000, t - 3 * 0x10000]);
    // region of core id is [top - 0x10000, top): strictly descending,
    // adjacent regions share no byte
    for i in 0..4 {
        for j in 0..4 {
            if i < j {
                assert!(tops[j] <= tops[i] - 0x10000);
            }
        }
    }
}

#[test]
fn start_plans_stack_from_core_id() {
    let plan = start(&cpu_with(0x8000_0003));
    assert_eq!(plan.core, 3);
    assert_eq!(plan.stack_top, board::RAM_TOP as u64 - 3 * 0x10000);
}

#[test]
fn only_core_zero_is_primary() {
    assert_eq!(core_role(0), CoreRole::Primary);
    assert_eq!(core_role(1), CoreRole::Secondary);
    assert_eq!(core_role(2), CoreRole::Secondary);
    assert_eq!(core_role(255), CoreRole::Secondary);
}

#[test]
fn synchronous_trap_at_current_level_tags_0x23() {
    let group = group_number(ExceptionGroup::CurrentSpx);
    let class = class_number(ExceptionClass::Synchronous);
    assert_eq!(group, 2);
    assert_eq!(class, 3);
    assert_eq!(vector_tag(group, class), 0x23);
    assert_eq!(decode_tag(0x23), (2, 3));
}

#[test]
fn tag_round_trip_all_pairs() {
    for group in 0..4 {
        for class in 0..4 {
            let tag = vector_tag(group, class);
            assert_eq!(decode_tag(tag), (group, class));
        }
    }
}

#[test]
fn vector_entries_are_distinct_and_aligned() {
    let mut seen: Vec<u64> = Vec::new();
    for group in 0..4 {
        for class in 0..4 {
            let off = vector_entry_offset(group, class);
            assert_eq!(off % 128, 0);
            assert!(off < 2048);
            assert!(!seen.contains(&off));
            seen.push(off);
        }
    }
    assert_eq!(vector_entry_offset(2, 3), 2 * 512 + 3 * 128);
}

#[test]
fn reporter_decodes_group_and_class_and_captures_faults() {
    let mut cpu = cpu_with(0);
    cpu.elr_el3 = 0x8_0040;
    cpu.esr_el3 = 0x5600_0000;
    cpu.far_el3 = 0xdead_0000;
    let report = unhandled_exception(&cpu, 0x23);
    assert_eq!(report.group, 2);
    assert_eq!(report.index, 3);
    assert_eq!(report.elr, 0x8_0040);
    assert_eq!(report.esr, 0x5600_0000);
    assert_eq!(report.far, 0xdead_0000);
}

#[test]
fn init_exceptions_programs_controls_before_unmasking() {
    let mut cpu = cpu_with(0);
    init_exceptions(&mut cpu, 0x8_0000);
    // EA | IRQ | FIQ unmasked, lower level AArch64
    assert_eq!(cpu.scr_el3, 0x40e);
    // dedicated SP_ELx stack
    assert_eq!(cpu.sp_sel, 1);
    assert_eq!(cpu.vbar_el3, 0x8_0000);
    // all four trap classes unmasked
    assert_eq!(cpu.daif, 0);
    // nothing else moved
    assert_eq!(cpu.current_el, 0xc);
    assert_eq!(cpu.mpidr_el1, 0);
}
