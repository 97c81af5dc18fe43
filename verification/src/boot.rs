//! Per-core boot trampoline computations.
//!
//! Every core leaves reset executing the same trampoline with no stack
//! established. The trampoline reads the core id from MPIDR_EL1, computes
//! a stack region disjoint from every other core's, and hands control to
//! the high-level entry, where only core 0 proceeds into general
//! initialization; the others halt. That gate is the entire concurrency
//! contract: secondary cores never touch a register, stack region or
//! peripheral that core 0 owns.

use crate::board;
use crate::cpu::{core_id, CpuState};
use vstd::arithmetic::mul::{lemma_mul_inequality, lemma_mul_is_distributive_add_other_way};
use vstd::prelude::*;

verus! {

/// What a core is allowed to do after the trampoline.
#[derive(Clone, Copy, Debug, PartialEq, Eq, Structural)]
pub enum CoreRole {
    /// Core 0: installs the exception table, initializes the platform,
    /// runs the workload and shuts the machine down.
    Primary,
    /// Every other core: reports its id and halts in a low-power wait.
    Secondary,
}

/// The stack top assigned to a core: `RAM_TOP - id * STACK_SIZE`.
pub open spec fn stack_top_spec(id: u64) -> int {
    board::RAM_TOP - id * board::STACK_SIZE
}

/// Computes the stack top for a core id (already masked to its byte).
pub fn stack_top_for_core(id: u64) -> (r: u64)
    requires
        id <= 0xff,
    ensures
        r == stack_top_spec(id),
{
    proof {
        lemma_mul_inequality(id as int, 0xff, board::STACK_SIZE as int);
    }
    (board::RAM_TOP as u64) - id * (board::STACK_SIZE as u64)
}

/// What the reset trampoline establishes for one core before any other
/// code runs.
pub struct BootPlan {
    /// The core id: the low byte of MPIDR_EL1.
    pub core: u64,
    /// The address the core's stack pointer is set to.
    pub stack_top: u64,
}

/// The per-core reset computation: reads the core-identification
/// register, masks the core id to its byte, and derives the core's own
/// stack top. The runtime front end sets the stack pointer to
/// `stack_top` and enters the high-level entry with `core`.
pub fn start(cpu: &CpuState) -> (r: BootPlan)
    ensures
        r.core == cpu.mpidr_el1 & 0xff,
        r.core < 256,
        r.stack_top == stack_top_spec(r.core),
{
    let core = core_id(cpu);
    let stack_top = stack_top_for_core(core);
    BootPlan { core, stack_top }
}

/// The high-level entry's gate: only core 0 proceeds into general
/// initialization; every other core must halt.
pub fn core_role(core: u64) -> (r: CoreRole)
    ensures
        r == CoreRole::Primary <==> core == 0,
{
    if core == 0 {
        CoreRole::Primary
    } else {
        CoreRole::Secondary
    }
}

/// Law: distinct cores get disjoint stack regions. Core `c` owns
/// `[stack_top(c) - STACK_SIZE, stack_top(c))`; for `i < j` the whole of
/// core `j`'s region lies below core `i`'s, and every region of the
/// supported id range lies above zero.
pub proof fn lemma_stack_regions_disjoint(i: u64, j: u64)
    requires
        i < j,
        j <= 0xff,
    ensures
        stack_top_spec(j) <= stack_top_spec(i) - board::STACK_SIZE,
        stack_top_spec(j) - board::STACK_SIZE > 0,
{
    lemma_mul_inequality(i as int + 1, j as int, board::STACK_SIZE as int);
    lemma_mul_is_distributive_add_other_way(board::STACK_SIZE as int, i as int, 1);
    lemma_mul_inequality(j as int, 0xff, board::STACK_SIZE as int);
}

/// Law: the configured core count's stack regions all sit above the heap,
/// so no core's stack can grow into another core's region or the heap.
pub proof fn lemma_stacks_above_heap(i: u64)
    requires
        i < board::NCPU as u64,
    ensures
        stack_top_spec(i) - board::STACK_SIZE >= board::HEAP_TOP,
        stack_top_spec(i) <= board::RAM_TOP,
{
    lemma_mul_inequality(i as int + 1, board::NCPU as int, board::STACK_SIZE as int);
    lemma_mul_is_distributive_add_other_way(board::STACK_SIZE as int, i as int, 1);
    vstd::arithmetic::mul::lemma_mul_nonnegative(i as int, board::STACK_SIZE as int);
}

} // verus!
