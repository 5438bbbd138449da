//! Which clock a machine is timed with, and how it is read.
use crate::arch::insn::Insn;
use crate::clock::{ClockRoute, RouteHost, RoutePlanView};
use crate::machine::Machine;
use vstd::arithmetic::power2::*;
use vstd::prelude::*;

verus! {

/// The automatic route reads the processor's own counter behind a barrier:
/// nothing but a processor without one is timed with a system's clock, and
/// then with the one that cannot be stepped.
pub proof fn the_best_route_reads_the_counter(host: RouteHost)
    ensures
        ({
            let plan = ClockRoute::Auto.planned(host);
            let rdtscp = host.counter.cpuid.rdtscp();
            match host.counter.target.machine {
                Machine::X86 | Machine::X86Wide => plan == (RoutePlanView::Counter {
                    plan: if !host.simd && rdtscp {
                        seq![Insn::Rdtscp, Insn::Lfence]
                    } else {
                        seq![Insn::Lfence, Insn::Rdtsc]
                    },
                }),
                Machine::Aarch64 => plan == (RoutePlanView::Counter {
                    plan: if host.simd && host.counter.choice.physical {
                        seq![Insn::Isb, Insn::Cntpct]
                    } else {
                        seq![Insn::Isb, Insn::Cntvct]
                    },
                }),
                Machine::PowerPcWide => plan == (RoutePlanView::Counter {
                    plan: if host.simd {
                        seq![Insn::Timebase, Insn::Isync]
                    } else {
                        seq![Insn::Isync, Insn::Timebase]
                    },
                }),
                Machine::PowerPc => plan == (RoutePlanView::Counter {
                    plan: if host.simd {
                        seq![
                            Insn::TimebaseUpper,
                            Insn::TimebaseLower,
                            Insn::TimebaseUpper,
                            Insn::Isync,
                        ]
                    } else {
                        seq![
                            Insn::Isync,
                            Insn::TimebaseUpper,
                            Insn::TimebaseLower,
                            Insn::TimebaseUpper,
                        ]
                    },
                }),
                Machine::RiscVWide => plan == (RoutePlanView::Counter {
                    plan: seq![Insn::Fence, Insn::Time],
                }),
                Machine::RiscV => plan == (RoutePlanView::Counter {
                    plan: seq![Insn::Fence, Insn::TimeUpper, Insn::TimeLower, Insn::TimeUpper],
                }),
                Machine::Arm => plan == (RoutePlanView::Counter {
                    plan: arm_read(host.counter.target.v7, host.counter.timer is Some),
                }),
                Machine::Other => if host.simd {
                    plan == (RoutePlanView::Counter { plan: seq![Insn::Monotonic] })
                } else {
                    plan is Monotonic
                },
            }
        }),
{
    let route = ClockRoute::Auto.resolved(host);
    let read = route.counter_read(host);
    match host.counter.target.machine {
        Machine::PowerPcWide => {
            assert(seq![Insn::Timebase].push(Insn::Isync) =~= seq![Insn::Timebase, Insn::Isync]);
            assert(seq![Insn::Isync] + seq![Insn::Timebase] =~= seq![Insn::Isync, Insn::Timebase]);
        },
        Machine::PowerPc => {
            let halves = seq![Insn::TimebaseUpper, Insn::TimebaseLower, Insn::TimebaseUpper];
            assert(halves.push(Insn::Isync) =~= seq![
                Insn::TimebaseUpper,
                Insn::TimebaseLower,
                Insn::TimebaseUpper,
                Insn::Isync,
            ]);
            assert(seq![Insn::Isync] + halves =~= seq![
                Insn::Isync,
                Insn::TimebaseUpper,
                Insn::TimebaseLower,
                Insn::TimebaseUpper,
            ]);
        },
        Machine::RiscVWide => {
            assert(seq![Insn::Fence] + seq![Insn::Time] =~= seq![Insn::Fence, Insn::Time]);
        },
        Machine::RiscV => {
            assert(seq![Insn::Fence] + seq![Insn::TimeUpper, Insn::TimeLower, Insn::TimeUpper]
                =~= seq![Insn::Fence, Insn::TimeUpper, Insn::TimeLower, Insn::TimeUpper]);
        },
        Machine::Arm => {
            lemma_arm_read(host.counter.target.v7, host.counter.timer);
        },
        _ => {},
    }
}

/// How a 32-bit ARM is read: the virtual counter where it may be, else the
/// monotonic clock, between two `ISB`s where the processor has them.
pub open spec fn arm_read(v7: bool, timer: bool) -> Seq<Insn> {
    let read = if timer {
        Insn::Cntvct
    } else {
        Insn::Monotonic
    };
    if v7 {
        seq![Insn::Isb, read, Insn::Isb]
    } else {
        seq![read]
    }
}

proof fn lemma_arm_read(v7: bool, timer: Option<u32>)
    ensures
        crate::arch::arm32::isb_read(v7, timer) == arm_read(v7, timer is Some),
{
    assert(crate::arch::arm32::isb_read(v7, timer) =~= arm_read(v7, timer is Some));
}

/// No automatic route is ever the wall clock, nor a rate in place of a time.
pub proof fn the_best_route_is_never_the_wall_clock(host: RouteHost)
    ensures
        !(ClockRoute::Auto.planned(host) is Wall),
        !(ClockRoute::Auto.planned(host) is DeclaredRate),
        ClockRoute::Auto.planned(host) is Monotonic ==> host.counter.target.machine is Other
            && !host.simd,
{
    the_best_route_reads_the_counter(host);
}

/// A route that is asked for by name, and that the machine has, is read with
/// the instructions of its name.
pub proof fn a_named_route_is_read_as_named(host: RouteHost)
    ensures
        ClockRoute::WallRealtimeNs.planned(host) is Wall,
        ClockRoute::MonotonicNs.planned(host) is Monotonic,
        host.counter.target.machine is X86 || host.counter.target.machine is X86Wide ==> {
            &&& ClockRoute::X86RdtscRaw.planned(host) == (RoutePlanView::Counter {
                plan: seq![Insn::Rdtsc],
            })
            &&& ClockRoute::X86RdtscLfence.planned(host) == (RoutePlanView::Counter {
                plan: seq![Insn::Lfence, Insn::Rdtsc],
            })
            &&& ClockRoute::X86RdtscMfence.planned(host) == (RoutePlanView::Counter {
                plan: seq![Insn::Mfence, Insn::Lfence, Insn::Rdtsc],
            })
            &&& host.counter.cpuid.rdtscp() ==> ClockRoute::X86RdtscpLfence.planned(host) == (
            RoutePlanView::Counter { plan: seq![Insn::Rdtscp, Insn::Lfence] })
        },
        host.counter.target.machine is Aarch64 ==> {
            &&& ClockRoute::Arm64Cntfrq.planned(host) is DeclaredRate
            &&& ClockRoute::Arm64Cntvct.planned(host) == (RoutePlanView::Counter {
                plan: seq![Insn::Cntvct],
            })
            &&& ClockRoute::Arm64CntvctIsb.planned(host) == (RoutePlanView::Counter {
                plan: seq![Insn::Isb, Insn::Cntvct],
            })
        },
        host.counter.target.machine is PowerPcWide ==> {
            &&& ClockRoute::PpcTimebase.planned(host) == (RoutePlanView::Counter {
                plan: seq![Insn::Timebase],
            })
            &&& ClockRoute::PpcTimebaseIsync.planned(host) == (RoutePlanView::Counter {
                plan: seq![Insn::Isync, Insn::Timebase],
            })
        },
        host.counter.target.machine is RiscVWide ==> ClockRoute::RiscvRdtime.planned(host) == (
        RoutePlanView::Counter { plan: seq![Insn::Fence, Insn::Time] }),
        host.counter.target.machine is Arm ==> ClockRoute::Arm32Counter.planned(host) == (
        RoutePlanView::Counter {
            plan: arm_read(host.counter.target.v7, host.counter.timer is Some),
        }),
        host.counter.target.linux && host.perf ==> ClockRoute::LinuxPerfCycles.planned(host)
            is PerfCycles,
{
    assert(seq![Insn::Isync] + seq![Insn::Timebase] =~= seq![Insn::Isync, Insn::Timebase]);
    assert(seq![Insn::Fence] + seq![Insn::Time] =~= seq![Insn::Fence, Insn::Time]);
    lemma_arm_read(host.counter.target.v7, host.counter.timer);
}

/// A route of another processor does not exist here, and asking for it gives
/// what the automatic one gives.
pub proof fn a_foreign_route_is_the_best_route(route: ClockRoute, host: RouteHost)
    requires
        ({
            let m = host.counter.target.machine;
            match route {
                ClockRoute::X86RdtscRaw
                | ClockRoute::X86RdtscLfence
                | ClockRoute::X86RdtscMfence => !(m is X86 || m is X86Wide),
                ClockRoute::X86RdtscpLfence => !(m is X86 || m is X86Wide)
                    || !host.counter.cpuid.rdtscp(),
                ClockRoute::Arm64Cntfrq
                | ClockRoute::Arm64Cntvct
                | ClockRoute::Arm64CntvctIsb => !(m is Aarch64),
                ClockRoute::PpcTimebase | ClockRoute::PpcTimebaseIsync => !(m is PowerPc
                    || m is PowerPcWide),
                ClockRoute::RiscvRdtime => !(m is RiscV || m is RiscVWide),
                ClockRoute::Arm32Counter => !(m is Arm),
                ClockRoute::LinuxPerfCycles => !(host.counter.target.linux && host.perf),
                ClockRoute::BestSimdCounter => !host.simd,
                _ => false,
            }
        }),
    ensures
        !route.available(host),
        route.planned(host) == ClockRoute::Auto.planned(host),
{
}

/// A counter's units are converted; a clock that counts nanoseconds, and a
/// rate, are what they read as.
pub proof fn only_counters_are_converted(
    route: ClockRoute,
    host: RouteHost,
    raw: u64,
    converted: u64,
)
    ensures
        route.reading(host, raw, converted).0 == raw,
        route.planned(host) is Counter || route.planned(host) is PerfCycles ==> route.reading(
            host,
            raw,
            converted,
        ).1 == converted,
        route.planned(host) is Wall || route.planned(host) is Monotonic || route.planned(host)
            is DeclaredRate ==> route.reading(host, raw, converted).1 == raw,
{
}

/// `RDTSCP` is there where the extended leaves reach 80000001H and bit 27 of
/// its EDX is set.
pub proof fn rdtscp_is_a_feature_bit(cpu: crate::arch::x86::CpuidTable)
    ensures
        cpu.rdtscp() <==> cpu.at(0x8000_0000, 0).eax >= 0x8000_0001 && crate::laws::holds(
            cpu.at(0x8000_0001, 0).edx as int,
            0x800_0000,
        ),
{
    lemma2_to64();
    crate::laws::lemma_bit32(cpu.at(0x8000_0001, 0).edx, 27);
}

} // verus!
