use envprobe::debugger::{
    check_debugger, check_is_debugger_present, check_page_guard, check_thread_context,
    check_timing, elapsed_ticks, timing_workload, DebugRegisters, DebuggerSnapshot, PAGE_GUARD,
    TIMING_ITERATIONS, TIMING_THRESHOLD,
};

fn quiet() -> DebuggerSnapshot {
    DebuggerSnapshot {
        presence_flag: 0,
        ticks_before: 5_000,
        ticks_after: 5_003,
        debug_registers: Some(DebugRegisters { dr0: 0, dr1: 0, dr2: 0, dr3: 0 }),
        code_protection: Some(0x20),
    }
}

#[test]
fn the_constants_have_their_documented_values() {
    assert_eq!(TIMING_ITERATIONS, 10_000);
    assert_eq!(TIMING_THRESHOLD, 10);
    assert_eq!(PAGE_GUARD, 0x100);
}

#[test]
fn a_quiet_process_is_not_flagged() {
    let snapshot = quiet();
    assert!(!check_is_debugger_present(snapshot.presence_flag));
    assert!(!check_timing(snapshot.ticks_before, snapshot.ticks_after));
    assert!(!check_thread_context(snapshot.debug_registers));
    assert!(!check_page_guard(snapshot.code_protection));
    assert!(!check_debugger(&snapshot));
}

#[test]
fn the_presence_flag_is_set_when_it_is_not_zero() {
    assert!(!check_is_debugger_present(0));
    assert!(check_is_debugger_present(1));
    assert!(check_is_debugger_present(-1));
    assert!(check_is_debugger_present(i32::MAX));
    assert!(check_is_debugger_present(i32::MIN));
}

#[test]
fn elapsed_ticks_counts_across_the_end_of_the_counter() {
    assert_eq!(elapsed_ticks(100, 103), 3);
    assert_eq!(elapsed_ticks(7, 7), 0);
    assert_eq!(elapsed_ticks(0, u32::MAX), u32::MAX);
    assert_eq!(elapsed_ticks(0xffff_fffe, 3), 5);
    assert_eq!(elapsed_ticks(u32::MAX, 0), 1);
    assert_eq!(elapsed_ticks(1, 0), u32::MAX);
}

#[test]
fn the_timing_check_is_positive_above_the_threshold_only() {
    assert!(!check_timing(1_000, 1_000));
    assert!(!check_timing(1_000, 1_003));
    assert!(!check_timing(1_000, 1_010));
    assert!(check_timing(1_000, 1_011));
    assert!(check_timing(1_000, 2_000));
    assert!(!check_timing(u32::MAX - 4, 5));
    assert!(check_timing(u32::MAX - 4, 6));
    assert!(check_timing(1_000, 999));
    let mut delta: u32 = 0;
    while delta < 40 {
        assert_eq!(check_timing(77, 77 + delta), delta > 10);
        assert_eq!(check_timing(77, 77 + delta), elapsed_ticks(77, 77 + delta) > TIMING_THRESHOLD);
        delta += 1;
    }
}

#[test]
fn the_workload_has_its_stated_result() {
    assert_eq!(timing_workload(), 40_000);
    assert_eq!(timing_workload(), 4 * TIMING_ITERATIONS);
}

#[test]
fn any_debug_register_that_holds_an_address_is_flagged() {
    let zero = DebugRegisters { dr0: 0, dr1: 0, dr2: 0, dr3: 0 };
    assert!(!check_thread_context(Some(zero)));
    assert!(check_thread_context(Some(DebugRegisters { dr0: 0x40_1000, ..zero })));
    assert!(check_thread_context(Some(DebugRegisters { dr1: 1, ..zero })));
    assert!(check_thread_context(Some(DebugRegisters { dr2: u64::MAX, ..zero })));
    assert!(check_thread_context(Some(DebugRegisters { dr3: 0x7fff_0000_0000, ..zero })));
    assert!(check_thread_context(Some(DebugRegisters { dr0: 1, dr1: 2, dr2: 3, dr3: 4 })));
}

#[test]
fn a_context_that_could_not_be_read_is_not_flagged() {
    assert!(!check_thread_context(None));
}

#[test]
fn the_guard_bit_alone_decides_the_guard_check() {
    assert!(!check_page_guard(Some(0)));
    assert!(!check_page_guard(Some(0x20)));
    assert!(!check_page_guard(Some(0x40)));
    assert!(!check_page_guard(Some(0xffff_feff)));
    assert!(check_page_guard(Some(0x100)));
    assert!(check_page_guard(Some(0x120)));
    assert!(check_page_guard(Some(0x104)));
    assert!(check_page_guard(Some(u32::MAX)));
}

#[test]
fn a_region_that_could_not_be_queried_is_not_flagged() {
    assert!(!check_page_guard(None));
}

#[test]
fn the_debugger_verdict_is_the_disjunction_of_the_four_checks() {
    let mut bits: u32 = 0;
    while bits < 16 {
        let presence = bits & 1 != 0;
        let timing = bits & 2 != 0;
        let registers = bits & 4 != 0;
        let guard = bits & 8 != 0;
        let snapshot = DebuggerSnapshot {
            presence_flag: if presence { 1 } else { 0 },
            ticks_before: 200,
            ticks_after: if timing { 260 } else { 203 },
            debug_registers: Some(DebugRegisters {
                dr0: 0,
                dr1: if registers { 0x1000 } else { 0 },
                dr2: 0,
                dr3: 0,
            }),
            code_protection: Some(if guard { 0x120 } else { 0x20 }),
        };
        assert_eq!(check_is_debugger_present(snapshot.presence_flag), presence);
        assert_eq!(check_timing(snapshot.ticks_before, snapshot.ticks_after), timing);
        assert_eq!(check_thread_context(snapshot.debug_registers), registers);
        assert_eq!(check_page_guard(snapshot.code_protection), guard);
        assert_eq!(check_debugger(&snapshot), presence || timing || registers || guard);
        bits += 1;
    }
}

#[test]
fn each_check_alone_makes_the_debugger_verdict_positive() {
    assert!(check_debugger(&DebuggerSnapshot { presence_flag: 1, ..quiet() }));
    assert!(check_debugger(&DebuggerSnapshot { ticks_after: 5_011, ..quiet() }));
    assert!(check_debugger(&DebuggerSnapshot {
        debug_registers: Some(DebugRegisters { dr0: 0, dr1: 0, dr2: 0, dr3: 9 }),
        ..quiet()
    }));
    assert!(check_debugger(&DebuggerSnapshot { code_protection: Some(0x100), ..quiet() }));
}

#[test]
fn failed_queries_leave_the_debugger_verdict_negative() {
    let snapshot = DebuggerSnapshot { debug_registers: None, code_protection: None, ..quiet() };
    assert!(!check_debugger(&snapshot));
}

#[test]
fn the_same_debugger_snapshot_gives_the_same_verdict() {
    let snapshots = [
        quiet(),
        DebuggerSnapshot { presence_flag: 1, ..quiet() },
        DebuggerSnapshot { ticks_after: 9_000, ..quiet() },
        DebuggerSnapshot { code_protection: None, ..quiet() },
    ];
    for snapshot in snapshots {
        let copy = snapshot;
        assert_eq!(check_debugger(&snapshot), check_debugger(&snapshot));
        assert_eq!(check_debugger(&snapshot), check_debugger(&copy));
    }
}
