//! The counters of each family: what a read executes, and what is made of it.
use nanochrono::arch::aarch64::{
    barrier_cost_pair, physical_permitted, probe_handler, read_cost_ns, CounterChoice,
    HandlerAnswer, PermissionProbe, ILLEGAL_INSTRUCTION,
};
use nanochrono::arch::arm32;
use nanochrono::arch::insn::{
    between, between_forward, bracket, join_halves, least_elapsed, scalar_kernel, Insn,
};
use nanochrono::arch::powerpc;
use nanochrono::arch::riscv;
use nanochrono::arch::x86::{
    has_rdtscp, rdtscp_lfence, tsc_aux_checked, tsc_end_portable, xcr0_safe, CpuidLeaf,
    CpuidTable, Registers,
};
use nanochrono::arch::{
    barrier_overhead, barrier_overhead_plan, counter_aux, counter_end, counter_ordered,
    counter_raw, counter_source, counter_start, cpu_relax, declared_counter_hz,
    has_physical_counter, memory_barrier, physical_counter_check, read_overhead,
    read_overhead_plan, set_counter_source, Arch, CounterHost, CounterSource, CounterSourceError,
};
use nanochrono::child::ChildOutcome;
use nanochrono::machine::{Machine, Target};
use std::time::Instant;

fn target(machine: Machine) -> Target {
    Target {
        machine,
        little_endian: true,
        simd: true,
        v7: true,
        freestanding: false,
        linux: true,
    }
}

fn leaf(leaf: u32, subleaf: u32, eax: u32, ebx: u32, ecx: u32, edx: u32) -> CpuidLeaf {
    CpuidLeaf { leaf, subleaf, registers: Registers { eax, ebx, ecx, edx } }
}

/// A processor that states RDTSCP.
fn with_rdtscp() -> CpuidTable {
    CpuidTable {
        leaves: vec![
            leaf(0x8000_0000, 0, 0x8000_0008, 0, 0, 0),
            leaf(0x8000_0001, 0, 0, 0, 0, 1 << 27),
        ],
        xcr0: 0,
    }
}

fn host(machine: Machine) -> CounterHost {
    CounterHost {
        target: target(machine),
        cpuid: with_rdtscp(),
        choice: CounterChoice::default(),
        timer: Some(19_200_000),
    }
}

/// Executes a plan on a machine whose counters count nanoseconds.
fn execute(plan: &[Insn], since: &Instant) -> u64 {
    let mut reading = 0;
    for insn in plan {
        match insn {
            Insn::Rdtsc
            | Insn::Rdtscp
            | Insn::Cntvct
            | Insn::Cntpct
            | Insn::Timebase
            | Insn::Time
            | Insn::Monotonic => reading = since.elapsed().as_nanos() as u64,
            _ => {}
        }
    }
    reading
}

#[test]
fn the_counter_moves_and_has_a_rate() {
    let since = Instant::now();
    let rate = Some(19_200_000);
    let a = execute(&arm32::counter_isb(true, rate), &since);
    let mut x = 0u64;
    for i in 0..100_000u64 {
        x = core::hint::black_box(x.wrapping_add(i));
    }
    assert!(execute(&arm32::counter_isb(true, rate), &since) > a);
    assert!(arm32::counter_hz(rate).is_some_and(|hz| hz > 0));
}

#[test]
fn virtual_is_the_default_and_always_selectable() {
    for machine in [Machine::X86Wide, Machine::Aarch64, Machine::Other] {
        let mut choice = CounterChoice::default();
        assert_eq!(counter_source(machine, &choice), CounterSource::Virtual);
        let probe = PermissionProbe::Handled { installed: false, faulted: false };
        assert!(set_counter_source(machine, probe, &mut choice, CounterSource::Virtual).is_ok());
    }
}

#[test]
fn physical_can_be_selected_where_permitted() {
    let since = Instant::now();
    let permitted = PermissionProbe::Freestanding;
    let refused = PermissionProbe::Handled { installed: true, faulted: true };
    for (machine, probe) in [
        (Machine::Aarch64, permitted),
        (Machine::Aarch64, refused),
        (Machine::X86Wide, permitted),
    ] {
        let mut host = host(machine);
        match set_counter_source(machine, probe, &mut host.choice, CounterSource::Physical) {
            Ok(()) => {
                assert_eq!(counter_source(machine, &host.choice), CounterSource::Physical);
                assert!(counter_start(&host).contains(&Insn::Cntpct));
                let a = execute(&counter_start(&host), &since);
                let mut x = 0u64;
                for i in 0..10_000u64 {
                    x = core::hint::black_box(x.wrapping_add(i));
                }
                assert!(execute(&counter_end(&host), &since) >= a);
                assert!(physical_counter_check(machine, probe, 20, 25).is_some());
                set_counter_source(machine, probe, &mut host.choice, CounterSource::Virtual)
                    .unwrap();
                assert_eq!(counter_source(machine, &host.choice), CounterSource::Virtual);
            }
            Err(CounterSourceError::NoPhysicalCounter) => {
                assert!(!has_physical_counter(machine))
            }
            Err(CounterSourceError::NotPermitted) => {
                assert!(has_physical_counter(machine));
                assert_eq!(counter_source(machine, &host.choice), CounterSource::Virtual);
            }
        }
    }
}

#[test]
fn each_refusal_has_its_own_error() {
    let mut choice = CounterChoice::default();
    assert_eq!(
        set_counter_source(
            Machine::X86Wide,
            PermissionProbe::Freestanding,
            &mut choice,
            CounterSource::Physical
        ),
        Err(CounterSourceError::NoPhysicalCounter)
    );
    assert_eq!(
        set_counter_source(
            Machine::Aarch64,
            PermissionProbe::Forked { outcome: ChildOutcome::NotForked },
            &mut choice,
            CounterSource::Physical
        ),
        Err(CounterSourceError::NotPermitted)
    );
    assert_ne!(
        CounterSourceError::NotPermitted.message(),
        CounterSourceError::NoPhysicalCounter.message()
    );
    assert!(!choice.physical);
}

#[test]
fn a_trapped_physical_read_is_noticed() {
    let probe = PermissionProbe::Freestanding;
    let check = physical_counter_check(Machine::Aarch64, probe, 20, 25).expect("a check");
    assert!(!check.trapped);
    let check = physical_counter_check(Machine::Aarch64, probe, 20, 2_000).expect("a check");
    assert!(check.trapped);
    assert_eq!(physical_counter_check(Machine::RiscVWide, probe, 20, 25), None);
}

/// A wait status as Linux lays it out: the exit code in the second byte.
fn exited_with(code: i32) -> ChildOutcome {
    ChildOutcome::Ended { status: code << 8 }
}

#[test]
fn only_a_child_that_ended_well_permits_the_read() {
    assert!(exited_with(0).ended_well());
    assert!(!exited_with(1).ended_well());
    // Killed by an illegal instruction: the low byte holds the signal.
    assert!(!ChildOutcome::Ended { status: 4 }.ended_well());
    assert!(!ChildOutcome::NotWaitedFor.ended_well());
    assert!(physical_permitted(PermissionProbe::Forked { outcome: exited_with(0) }));
    assert!(!physical_permitted(PermissionProbe::Forked { outcome: exited_with(1) }));
    assert!(physical_permitted(PermissionProbe::Handled { installed: true, faulted: false }));
    assert!(!physical_permitted(PermissionProbe::Handled { installed: false, faulted: false }));
}

#[test]
fn the_handler_steps_over_the_probe_alone() {
    assert_eq!(
        probe_handler(ILLEGAL_INSTRUCTION, 0x1000, 0x1000),
        HandlerAnswer::StepOver { to: 0x1004 }
    );
    assert_eq!(probe_handler(ILLEGAL_INSTRUCTION, 0x2000, 0x1000), HandlerAnswer::PassOn);
    assert_eq!(probe_handler(0xC000_0005, 0x1000, 0x1000), HandlerAnswer::PassOn);
}

#[test]
fn read_costs_are_the_best_batch() {
    // 64 reads in 64 ticks of a 1 GHz counter: one nanosecond each.
    assert_eq!(read_cost_ns(1_000_000_000, &[(0, 128), (200, 264)]), 1);
    assert_eq!(read_cost_ns(0, &[(0, 128)]), 0);
    let (bare, synchronised) = barrier_cost_pair(&[(0, 640)], &[(0, 6_400)]);
    assert!(bare < synchronised);
}

#[test]
fn the_cpuinfo_timebase_line_is_found() {
    let text = "processor\t: 0\ncpu\t\t: POWER9 (raw), altivec supported\n\
                clock\t\t: 2200.000000MHz\nrevision\t: 2.2 (pvr 004e 1202)\n\n\
                timebase\t: 512000000\nplatform\t: PowerNV\n";
    assert_eq!(powerpc::parse_cpuinfo_timebase(text), Some(512_000_000));
}

#[test]
fn a_missing_or_zero_timebase_is_none() {
    assert_eq!(powerpc::parse_cpuinfo_timebase("cpu : e500mc\n"), None);
    assert_eq!(powerpc::parse_cpuinfo_timebase("timebase : 0\n"), None);
    assert_eq!(powerpc::parse_cpuinfo_timebase("timebase : fast\n"), None);
    // A key that merely starts with the word is not the line.
    assert_eq!(powerpc::parse_cpuinfo_timebase("timebase-ish : 5\n"), None);
}

#[test]
fn dt_frequency_cells_decode() {
    assert_eq!(riscv::parse_dt_frequency(&10_000_000u32.to_be_bytes()), Some(10_000_000));
    assert_eq!(riscv::parse_dt_frequency(&24_000_000u64.to_be_bytes()), Some(24_000_000));
    assert_eq!(riscv::parse_dt_frequency(&[0, 0, 0, 0]), None);
    assert_eq!(riscv::parse_dt_frequency(&[1, 2, 3]), None);
}

#[test]
fn isa_strings_are_read_for_v() {
    assert!(riscv::isa_string_has_vector(b"rv64imafdcv_zicsr_zifencei"));
    assert!(riscv::isa_string_has_vector(b"rv64gcv\0"));
    assert!(!riscv::isa_string_has_vector(b"rv64imafdc_zicsr_zve32x"));
    assert!(!riscv::isa_string_has_vector(b"rv32imac"));
    // `v` inside a multi-letter extension name does not count.
    assert!(!riscv::isa_string_has_vector(b"rv64imac_zvkb"));
}

#[test]
fn the_time_counter_moves() {
    let since = Instant::now();
    let a = execute(&riscv::rdtime_start(true), &since);
    let mut x = 0u64;
    for i in 0..100_000u64 {
        x = core::hint::black_box(x.wrapping_add(i));
    }
    assert!(execute(&riscv::rdtime_end(true), &since) > a);
}

#[test]
fn rates_told_to_a_core_are_kept() {
    let mut hart = riscv::HartFacts::default();
    assert_eq!(hart.timebase_hz(), None);
    hart.set_timebase_hz(10_000_000);
    hart.set_vector_available(true);
    assert_eq!(hart.timebase_hz(), Some(10_000_000));
    assert!(hart.vector_available());
    let mut rate = powerpc::TimebaseRate::default();
    assert_eq!(rate.timebase_hz(), None);
    rate.set_timebase_hz(512_000_000);
    assert_eq!(rate.timebase_hz(), Some(512_000_000));
    assert_eq!(powerpc::timebase_hz(&None), None);
    assert_eq!(riscv::timebase_hz(&Some(vec![0, 0, 0, 7])), Some(7));
}

#[test]
fn a_timer_the_kernel_refuses_is_not_read() {
    let target = target(Machine::Arm);
    assert_eq!(arm32::generic_timer(target, exited_with(0), 19_200_000), Some(19_200_000));
    let refused = arm32::generic_timer(target, exited_with(1), 19_200_000);
    assert_eq!(refused, None);
    assert!(!arm32::uses_generic_timer(refused));
    assert_eq!(arm32::counter_raw(refused), vec![Insn::Monotonic]);
    assert_eq!(arm32::counter_hz(refused), Some(1_000_000_000));
    assert_eq!(arm32::probe_exit_code(0), 2);
    assert_eq!(arm32::probe_exit_code(24_000_000), 0);
}

#[test]
fn halves_that_moved_are_read_again() {
    assert_eq!(join_halves(1, 2, 1), Some(0x1_0000_0002));
    assert_eq!(join_halves(1, 0xFFFF_FFFF, 2), None);
}

#[test]
fn differences_do_not_run_backwards() {
    assert_eq!(between(10, 25), 15);
    assert_eq!(between(25, 10), 0u64.wrapping_sub(15));
    assert_eq!(between_forward(10, 25), 15);
    assert_eq!(between_forward(25, 10), 0);
    assert_eq!(least_elapsed(&[(10, 25), (30, 37)]), Some(7));
    assert_eq!(least_elapsed(&[]), None);
}

#[test]
fn a_bracket_holds_its_barriers() {
    let plan = bracket(vec![Insn::Rdtsc], Insn::Lfence, 3, vec![Insn::Rdtsc]);
    assert_eq!(
        plan,
        vec![Insn::Rdtsc, Insn::Lfence, Insn::Lfence, Insn::Lfence, Insn::Rdtsc]
    );
}

#[test]
fn the_scalar_kernel_does_work() {
    assert_ne!(scalar_kernel(64), scalar_kernel(0));
    assert_ne!(scalar_kernel(64), scalar_kernel(65));
    assert_eq!(scalar_kernel(64), riscv::kernel_scalar(64));
}

#[test]
fn x86_reads_are_ordered_as_the_processor_allows() {
    let with = with_rdtscp();
    let without = CpuidTable { leaves: Vec::new(), xcr0: 0 };
    assert!(has_rdtscp(&with) && !has_rdtscp(&without));
    assert_eq!(rdtscp_lfence(&with), Some(vec![Insn::Rdtscp, Insn::Lfence]));
    assert_eq!(rdtscp_lfence(&without), None);
    assert!(!tsc_end_portable(&without).contains(&Insn::Rdtscp));
    assert_eq!(tsc_aux_checked(&with, 7), Some(7));
    assert_eq!(tsc_aux_checked(&without, 7), None);
    // Reading XCR0 needs OSXSAVE.
    assert_eq!(xcr0_safe(&CpuidTable { leaves: Vec::new(), xcr0: 7 }), 0);
    let saves = CpuidTable {
        leaves: vec![leaf(0, 0, 1, 0, 0, 0), leaf(1, 0, 0, 0, 1 << 27, 0)],
        xcr0: 7,
    };
    assert_eq!(xcr0_safe(&saves), 7);
}

#[test]
fn every_family_reads_its_own_counter() {
    for (machine, insn) in [
        (Machine::X86Wide, Insn::Rdtsc),
        (Machine::Aarch64, Insn::Cntvct),
        (Machine::PowerPcWide, Insn::Timebase),
        (Machine::RiscVWide, Insn::Time),
        (Machine::Other, Insn::Monotonic),
    ] {
        let host = host(machine);
        assert!(counter_raw(&host).contains(&insn), "{machine:?}");
        assert!(!counter_start(&host).is_empty());
        assert!(!counter_ordered(&host).is_empty());
        assert_eq!(barrier_overhead_plan(&host, 5).len() > counter_raw(&host).len(), true);
        let (first, second) = read_overhead_plan(&host);
        assert!(!first.is_empty() && !second.is_empty());
    }
    assert_eq!(read_overhead(10, 42), 32);
    assert_eq!(barrier_overhead(10, 42), 32);
}

#[test]
fn only_x86_says_which_core_it_read() {
    assert_eq!(counter_aux(&host(Machine::X86Wide), 3), Some(3));
    assert_eq!(counter_aux(&host(Machine::Aarch64), 3), None);
}

#[test]
fn each_family_has_its_hint_and_its_fence() {
    assert_eq!(cpu_relax(Machine::X86Wide), Insn::Pause);
    assert_eq!(cpu_relax(Machine::Aarch64), Insn::Yield);
    assert_eq!(memory_barrier(&target(Machine::X86Wide)), Insn::Mfence);
    assert_eq!(memory_barrier(&target(Machine::PowerPcWide)), Insn::Sync);
    assert_eq!(Arch::of(Machine::RiscV), Arch::RiscV);
    assert_eq!(Arch::of(Machine::X86Wide).name(&target(Machine::X86Wide)), "x86");
}

#[test]
fn declared_rates_come_from_whoever_states_them() {
    assert_eq!(declared_counter_hz(Machine::Aarch64, 24_000_000, None, None), Some(24_000_000));
    assert_eq!(
        declared_counter_hz(Machine::PowerPcWide, 0, Some(512_000_000), None),
        Some(512_000_000)
    );
    assert_eq!(declared_counter_hz(Machine::X86Wide, 24_000_000, None, None), None);
}
