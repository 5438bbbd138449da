//! The probes: what each executes between its two reads, and their work.
use nanochrono::arch::aarch64;
use nanochrono::arch::arm32;
use nanochrono::arch::insn::{branch_walk, pointer_chase, timed, Insn};
use nanochrono::arch::powerpc;
use nanochrono::arch::riscv;
use nanochrono::arch::x86;
use nanochrono::arch::x86::{CpuidLeaf, CpuidTable, Registers};

fn cpu(rdtscp: bool) -> CpuidTable {
    let edx = if rdtscp { 1 << 27 } else { 0 };
    CpuidTable {
        leaves: vec![
            CpuidLeaf {
                leaf: 0x8000_0000,
                subleaf: 0,
                registers: Registers { eax: 0x8000_0008, ebx: 0, ecx: 0, edx: 0 },
            },
            CpuidLeaf {
                leaf: 0x8000_0001,
                subleaf: 0,
                registers: Registers { eax: 0, ebx: 0, ecx: 0, edx },
            },
        ],
        xcr0: 0,
    }
}

/// Whether a plan is some work between a read at its start and one at its end.
fn brackets(plan: &[Insn], start: &[Insn], work: &[Insn], end: &[Insn]) -> bool {
    let mut whole = start.to_vec();
    whole.extend_from_slice(work);
    whole.extend_from_slice(end);
    plan == whole.as_slice()
}

#[test]
fn timed_work_stands_between_its_reads() {
    let plan = timed(vec![Insn::Rdtsc], vec![Insn::Load, Insn::Store], vec![Insn::Rdtscp]);
    assert_eq!(plan, vec![Insn::Rdtsc, Insn::Load, Insn::Store, Insn::Rdtscp]);
}

#[test]
fn x86_probes_are_fenced() {
    for rdtscp in [true, false] {
        let cpu = cpu(rdtscp);
        let (start, end) = (x86::rdtsc_lfence(), x86::tsc_end_portable(&cpu));
        let load = x86::probe_load_cycles(&cpu);
        assert!(brackets(&load, &start, &[Insn::Load], &end));
        assert_eq!(load.contains(&Insn::Rdtscp), rdtscp);
        let store = x86::probe_store_cycles(&cpu);
        assert!(brackets(&store, &start, &[Insn::Store, Insn::Mfence], &end));
        let flush = x86::probe_flush_reload_cycles(&cpu);
        assert_eq!(flush[..2], [Insn::Clflush, Insn::Mfence]);
        assert_eq!(flush[2..], load[..]);
        let prefetch = x86::probe_prefetch_reload_cycles(&cpu);
        assert_eq!(prefetch[..2], [Insn::PrefetchT0, Insn::Lfence]);
        assert_eq!(prefetch[2..], load[..]);
        assert_eq!(x86::counter(), start);
        assert!(brackets(&x86::vector_load_cycles(&cpu), &start, &[Insn::VectorLoad], &end));
        assert!(brackets(&x86::vector_xor_cycles(&cpu), &start, &[Insn::VectorXor], &end));
    }
}

#[test]
fn arm_probes_are_synchronised() {
    let read = [Insn::Isb, Insn::Cntvct];
    assert!(brackets(&aarch64::probe_load_ticks(), &read, &[Insn::Load], &read));
    let dsb = aarch64::probe_load_dsb_ticks();
    assert_eq!(dsb[0], Insn::DsbSy);
    assert!(brackets(&dsb[1..], &read, &[Insn::Load, Insn::DsbSy], &read));
    let store = aarch64::probe_store_ticks();
    assert!(brackets(&store, &read, &[Insn::Store, Insn::DmbSy], &read));
    let prefetch = aarch64::probe_prefetch_load_ticks();
    assert_eq!(prefetch[0], Insn::PrefetchKeep);
    assert!(brackets(&prefetch[1..], &read, &[Insn::Load], &read));
    assert_eq!(aarch64::counter(), read);
    assert!(brackets(&aarch64::vector_load_ticks(), &read, &[Insn::VectorLoad], &read));
    assert!(brackets(&aarch64::vector_xor_ticks(), &read, &[Insn::VectorXor], &read));
    assert_eq!(aarch64::barrier_ticks(5), aarch64::probe_barrier_plan(5));

    // A core whose timer is refused is timed by the system's clock.
    for rate in [Some(19_200_000), None] {
        let load = arm32::probe_load(true, rate);
        assert_eq!(load.contains(&Insn::Monotonic), rate.is_none());
        assert_eq!(load.iter().filter(|i| **i == Insn::Load).count(), 1);
        assert_eq!(arm32::counter(true, rate), arm32::counter_isb(true, rate));
        assert_eq!(arm32::counter(false, rate), arm32::counter_raw(rate));
        let vector = arm32::vector_load_units(true, rate);
        assert_eq!(vector.iter().filter(|i| **i == Insn::VectorLoad).count(), 1);
        let xor = arm32::vector_xor_units(true, rate);
        assert_eq!(xor.iter().filter(|i| **i == Insn::VectorXor).count(), 1);
    }
}

#[test]
fn riscv_probes_read_time() {
    assert_eq!(riscv::rdcycle_raw(true), vec![Insn::Cycle]);
    assert_eq!(
        riscv::rdcycle_raw(false),
        vec![Insn::CycleUpper, Insn::CycleLower, Insn::CycleUpper]
    );
    assert_eq!(riscv::rdinstret_raw(true), vec![Insn::Instret]);
    assert_eq!(
        riscv::rdinstret_raw(false),
        vec![Insn::InstretUpper, Insn::InstretLower, Insn::InstretUpper]
    );
    for wide in [true, false] {
        let (start, end) = (riscv::rdtime_start(wide), riscv::rdtime_end(wide));
        assert!(brackets(&riscv::probe_load_ticks(wide), &start, &[Insn::Load], &end));
        assert!(brackets(&riscv::probe_store_ticks(wide), &start, &[Insn::Store], &end));
        assert_eq!(riscv::counter(wide), start);
        let load = riscv::vector_load_ticks(wide);
        assert!(brackets(&load, &start, &[Insn::VectorLoad], &end));
        let xor = riscv::vector_xor_ticks(wide);
        assert!(brackets(&xor, &start, &[Insn::VectorXor], &end));
        assert_eq!(riscv::barrier_ticks(wide, 3), riscv::probe_barrier_plan(wide, 3));
    }
}

#[test]
fn powerpc_probes_read_the_time_base() {
    for wide in [true, false] {
        let (start, end) = (powerpc::timebase_start(wide), powerpc::timebase_end(wide));
        assert!(brackets(&powerpc::probe_load_ticks(wide), &start, &[Insn::Load], &end));
        let sync = powerpc::probe_load_sync_ticks(wide);
        assert_eq!(sync[0], Insn::Sync);
        assert!(brackets(&sync[1..], &start, &[Insn::Load, Insn::Sync], &end));
        let store = powerpc::probe_store_ticks(wide);
        assert!(brackets(&store, &start, &[Insn::Store, Insn::Sync], &end));
        let prefetch = powerpc::probe_prefetch_load_ticks(wide);
        assert_eq!(prefetch[0], Insn::Touch);
        assert!(brackets(&prefetch[1..], &start, &[Insn::Load], &end));
        assert_eq!(powerpc::counter(wide), start);
        let load = powerpc::vector_load_ticks(wide);
        assert!(brackets(&load, &start, &[Insn::VectorLoad], &end));
        let xor = powerpc::vector_xor_ticks(wide);
        assert!(brackets(&xor, &start, &[Insn::VectorXor], &end));
        assert_eq!(powerpc::barrier_ticks(wide, 3), powerpc::probe_barrier_plan(wide, 3));
    }
}

#[test]
fn branches_follow_the_pattern() {
    assert_eq!(branch_walk(&[]), 0);
    assert_eq!(branch_walk(&[1, 3, 5]), 3);
    // One, tripled, and one more.
    assert_eq!(branch_walk(&[1, 2, 1]), 4);
}

#[test]
fn chains_are_followed_link_by_link() {
    let links = [Some(2), None, Some(1)];
    assert_eq!(pointer_chase(&links, Some(0), 0), Some(0));
    assert_eq!(pointer_chase(&links, Some(0), 1), Some(2));
    assert_eq!(pointer_chase(&links, Some(0), 2), Some(1));
    assert_eq!(pointer_chase(&links, Some(0), 3), None);
    assert_eq!(pointer_chase(&links, Some(0), 100), None);
    assert_eq!(pointer_chase(&links, None, 1), None);
    // Two walks in a row are one longer walk.
    let ring = [Some(1), Some(2), Some(0)];
    let half = pointer_chase(&ring, Some(0), 4);
    assert_eq!(pointer_chase(&ring, half, 3), pointer_chase(&ring, Some(0), 7));
}
