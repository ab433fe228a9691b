//! The debugger detector: four heuristics on the state of the current process
//! and thread, and their disjunction.
//!
//! A query that the platform could not answer is `None`, and counts as no
//! evidence.

use crate::verdict::any_true;
use vstd::prelude::*;

verus! {

/// How often the workload between the two readings of the tick counter runs.
pub const TIMING_ITERATIONS: u32 = 10_000;

/// The number of ticks that the workload may take without being flagged.
pub const TIMING_THRESHOLD: u32 = 10;

/// The guard bit among the protection flags of a memory region.
pub const PAGE_GUARD: u32 = 0x100;

/// The four hardware breakpoint address registers of a thread.
#[derive(Clone, Copy, Debug, PartialEq, Eq)]
pub struct DebugRegisters {
    pub dr0: u64,
    pub dr1: u64,
    pub dr2: u64,
    pub dr3: u64,
}

/// What the debugger detector reads of the process.
#[derive(Clone, Copy, Debug, PartialEq, Eq)]
pub struct DebuggerSnapshot {
    /// The flag that the platform keeps for an attached debugger, as it
    /// reports it: zero when none is attached.
    pub presence_flag: i32,
    /// The tick counter before the workload.
    pub ticks_before: u32,
    /// The tick counter after the workload.
    pub ticks_after: u32,
    /// The debug registers of the current thread.
    pub debug_registers: Option<DebugRegisters>,
    /// The protection flags of the region that holds the running code.
    pub code_protection: Option<u32>,
}

/// The presence flag is set.
pub open spec fn presence_flagged(flag: i32) -> bool {
    flag != 0
}

/// The ticks from `before` to `after`, on a counter of 32 bits that starts
/// again at zero when it is full.
pub open spec fn elapsed(before: u32, after: u32) -> int {
    if after >= before {
        after - before
    } else {
        after - before + 0x1_0000_0000
    }
}

/// The workload took more ticks than the threshold allows.
pub open spec fn timing_flagged(before: u32, after: u32) -> bool {
    elapsed(before, after) > TIMING_THRESHOLD
}

/// The registers were read and one of them holds an address.
pub open spec fn registers_flagged(registers: Option<DebugRegisters>) -> bool {
    registers matches Some(r) && (r.dr0 != 0 || r.dr1 != 0 || r.dr2 != 0 || r.dr3 != 0)
}

/// The protection flags were read and the guard bit is set.
pub open spec fn guard_flagged(protection: Option<u32>) -> bool {
    protection matches Some(p) && (p & PAGE_GUARD) != 0
}

/// The results of the four checks, in their order.
pub open spec fn debugger_checks(snapshot: DebuggerSnapshot) -> Seq<bool> {
    seq![
        presence_flagged(snapshot.presence_flag),
        timing_flagged(snapshot.ticks_before, snapshot.ticks_after),
        registers_flagged(snapshot.debug_registers),
        guard_flagged(snapshot.code_protection),
    ]
}

/// The verdict of the detector.
pub open spec fn debugger_verdict(snapshot: DebuggerSnapshot) -> bool {
    any_true(debugger_checks(snapshot))
}

/// Whether the platform reports an attached debugger.
pub fn check_is_debugger_present(flag: i32) -> (flagged: bool)
    ensures
        flagged == presence_flagged(flag),
{
    flag != 0
}

/// The workload that runs between the two readings of the tick counter: a
/// fixed number of additions, with no effect but its result.
pub fn timing_workload() -> (sum: u32)
    ensures
        sum == 4 * TIMING_ITERATIONS,
{
    let mut sum: u32 = 0;
    let mut i: u32 = 0;
    while i < TIMING_ITERATIONS
        invariant
            i <= TIMING_ITERATIONS,
            sum == 4 * i,
        decreases TIMING_ITERATIONS - i,
    {
        sum = sum + (2 + 2);
        i += 1;
    }
    sum
}

/// The ticks from `before` to `after`.
pub fn elapsed_ticks(before: u32, after: u32) -> (ticks: u32)
    ensures
        ticks == elapsed(before, after),
        0 <= ticks,
{
    after.wrapping_sub(before)
}

/// Whether the workload took longer than the threshold allows.
pub fn check_timing(before: u32, after: u32) -> (flagged: bool)
    ensures
        flagged == timing_flagged(before, after),
        flagged == (elapsed(before, after) > TIMING_THRESHOLD),
{
    elapsed_ticks(before, after) > TIMING_THRESHOLD
}

/// Whether a hardware breakpoint is set on the current thread.
pub fn check_thread_context(registers: Option<DebugRegisters>) -> (flagged: bool)
    ensures
        flagged == registers_flagged(registers),
{
    match registers {
        Some(r) => r.dr0 != 0 || r.dr1 != 0 || r.dr2 != 0 || r.dr3 != 0,
        None => false,
    }
}

/// Whether the running code lies in a guarded region.
pub fn check_page_guard(protection: Option<u32>) -> (flagged: bool)
    ensures
        flagged == guard_flagged(protection),
{
    match protection {
        Some(p) => (p & PAGE_GUARD) != 0,
        None => false,
    }
}

/// The verdict of the debugger detector on `snapshot`: positive as soon as one
/// of the four checks is.
pub fn check_debugger(snapshot: &DebuggerSnapshot) -> (verdict: bool)
    ensures
        verdict == debugger_verdict(*snapshot),
        verdict == (presence_flagged(snapshot.presence_flag) || timing_flagged(
            snapshot.ticks_before,
            snapshot.ticks_after,
        ) || registers_flagged(snapshot.debug_registers) || guard_flagged(
            snapshot.code_protection,
        )),
{
    proof {
        law_debugger_verdict_is_disjunction(*snapshot);
    }
    check_is_debugger_present(snapshot.presence_flag) || check_timing(
        snapshot.ticks_before,
        snapshot.ticks_after,
    ) || check_thread_context(snapshot.debug_registers) || check_page_guard(
        snapshot.code_protection,
    )
}

/// The verdict is positive exactly when at least one of the four checks is,
/// and negative exactly when all four are.
pub proof fn law_debugger_verdict_is_disjunction(snapshot: DebuggerSnapshot)
    ensures
        debugger_verdict(snapshot) <==> (presence_flagged(snapshot.presence_flag)
            || timing_flagged(snapshot.ticks_before, snapshot.ticks_after) || registers_flagged(
            snapshot.debug_registers,
        ) || guard_flagged(snapshot.code_protection)),
        !debugger_verdict(snapshot) <==> (!presence_flagged(snapshot.presence_flag)
            && !timing_flagged(snapshot.ticks_before, snapshot.ticks_after) && !registers_flagged(
            snapshot.debug_registers,
        ) && !guard_flagged(snapshot.code_protection)),
{
    let checks = debugger_checks(snapshot);
    assert(checks.len() == 4);
    if presence_flagged(snapshot.presence_flag) {
        assert(checks[0]);
    }
    if timing_flagged(snapshot.ticks_before, snapshot.ticks_after) {
        assert(checks[1]);
    }
    if registers_flagged(snapshot.debug_registers) {
        assert(checks[2]);
    }
    if guard_flagged(snapshot.code_protection) {
        assert(checks[3]);
    }
}

/// The elapsed ticks are never negative and stay within the counter, and the
/// timing check is positive exactly when they exceed the threshold.
pub proof fn law_timing_flag(before: u32, after: u32)
    ensures
        0 <= elapsed(before, after) <= u32::MAX,
        timing_flagged(before, after) <==> elapsed(before, after) > TIMING_THRESHOLD,
        before == after ==> !timing_flagged(before, after),
{
}

/// The verdict depends on the snapshot alone: the same state gives the same
/// verdict, and so does each check but the one on timing, whose two readings
/// belong to the snapshot.
pub proof fn law_debugger_same_state_same_verdict(first: DebuggerSnapshot, second: DebuggerSnapshot)
    requires
        first == second,
    ensures
        debugger_checks(first) == debugger_checks(second),
        debugger_verdict(first) == debugger_verdict(second),
{
}

/// A query that was not answered is no evidence.
pub proof fn law_unanswered_query_is_negative()
    ensures
        !registers_flagged(None),
        !guard_flagged(None),
{
}

} // verus!
