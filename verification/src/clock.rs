//! Clock routes, snapshots and calibration.
//!
//! A route is one way of asking a machine what time it is, from a bare
//! counter read to a system call. Which routes exist, which one is best and
//! what each is made of is decided here; the reading itself is the caller's.
use crate::arch::insn::{between_forward, Insn};
use crate::arch::x86;
use crate::arch::{aarch64, arm32, counter_start, powerpc, riscv, Arch, CounterHost};
use crate::backend::Backend;
use crate::hypervisor::{Hypervisor, TimingImpact};
use crate::machine::Machine;
use crate::simd::same_ignoring_case;
use vstd::prelude::*;

verus! {

/// A way of reading the current time.
#[derive(Debug, Clone, Copy, PartialEq, Eq, Structural)]
pub enum ClockRoute {
    /// The best route this machine offers.
    Auto,
    /// The system's real-time clock, in nanoseconds. It can be stepped.
    WallRealtimeNs,
    /// The system's monotonic clock, in nanoseconds.
    MonotonicNs,
    X86RdtscRaw,
    X86RdtscLfence,
    X86RdtscMfence,
    X86RdtscpLfence,
    /// The counter's declared rate, not a time.
    Arm64Cntfrq,
    Arm64Cntvct,
    Arm64CntvctIsb,
    /// The hardware cycle counter, through the kernel.
    LinuxPerfCycles,
    /// The counter read tagged to the widest SIMD family.
    BestSimdCounter,
    PpcTimebase,
    PpcTimebaseIsync,
    RiscvRdtime,
    Arm32Counter,
}

impl Default for ClockRoute {
    fn default() -> (route: ClockRoute)
        ensures
            route is Auto,
    {
        ClockRoute::Auto
    }
}

/// What the choice of a route depends on.
#[derive(Debug)]
pub struct RouteHost {
    pub counter: CounterHost,
    /// Whether the kernel hands out cycle counts here.
    pub perf: bool,
    /// Whether there is a SIMD family that can be run.
    pub simd: bool,
}

impl RouteHost {
    pub open spec fn arch(self) -> Arch {
        self.counter.arch()
    }

    /// The best route: a counter read before any system call.
    pub open spec fn best_route(self) -> ClockRoute {
        if self.simd {
            ClockRoute::BestSimdCounter
        } else {
            match self.arch() {
                Arch::X86 => if self.counter.cpuid.rdtscp() {
                    ClockRoute::X86RdtscpLfence
                } else {
                    ClockRoute::X86RdtscLfence
                },
                Arch::Aarch64 => ClockRoute::Arm64CntvctIsb,
                Arch::PowerPc => ClockRoute::PpcTimebaseIsync,
                Arch::RiscV => ClockRoute::RiscvRdtime,
                Arch::Arm32 => ClockRoute::Arm32Counter,
                Arch::Portable => ClockRoute::MonotonicNs,
            }
        }
    }
}

/// What reading a route comes to.
#[derive(Debug)]
pub enum RoutePlan {
    /// Ask the system's real-time clock.
    Wall,
    /// Ask the system's monotonic clock.
    Monotonic,
    /// Report the counter's declared rate.
    DeclaredRate,
    /// Execute these instructions.
    Counter { plan: Vec<Insn> },
    /// Ask the kernel for cycles, and where it has none execute these.
    PerfCycles { otherwise: Vec<Insn> },
}

/// What a [`RoutePlan`] says.
pub enum RoutePlanView {
    Wall,
    Monotonic,
    DeclaredRate,
    Counter { plan: Seq<Insn> },
    PerfCycles { otherwise: Seq<Insn> },
}

impl View for RoutePlan {
    type V = RoutePlanView;

    open spec fn view(&self) -> RoutePlanView {
        match self {
            RoutePlan::Wall => RoutePlanView::Wall,
            RoutePlan::Monotonic => RoutePlanView::Monotonic,
            RoutePlan::DeclaredRate => RoutePlanView::DeclaredRate,
            RoutePlan::Counter { plan } => RoutePlanView::Counter { plan: plan@ },
            RoutePlan::PerfCycles { otherwise } => RoutePlanView::PerfCycles {
                otherwise: otherwise@,
            },
        }
    }
}

impl ClockRoute {
    pub open spec fn label(self) -> Seq<char> {
        match self {
            ClockRoute::Auto => "auto"@,
            ClockRoute::WallRealtimeNs => "wall-realtime-ns"@,
            ClockRoute::MonotonicNs => "monotonic-ns"@,
            ClockRoute::X86RdtscRaw => "x86-rdtsc-raw"@,
            ClockRoute::X86RdtscLfence => "x86-lfence-rdtsc"@,
            ClockRoute::X86RdtscMfence => "x86-mfence-lfence-rdtsc"@,
            ClockRoute::X86RdtscpLfence => "x86-rdtscp-lfence"@,
            ClockRoute::Arm64Cntfrq => "arm64-cntfrq-el0"@,
            ClockRoute::Arm64Cntvct => "arm64-cntvct-el0"@,
            ClockRoute::Arm64CntvctIsb => "arm64-isb-cntvct-el0"@,
            ClockRoute::LinuxPerfCycles => "linux-perf-cycles"@,
            ClockRoute::BestSimdCounter => "best-simd-counter"@,
            ClockRoute::PpcTimebase => "ppc-mftb"@,
            ClockRoute::PpcTimebaseIsync => "ppc-isync-mftb"@,
            ClockRoute::RiscvRdtime => "riscv-rdtime"@,
            ClockRoute::Arm32Counter => "arm32-isb-cntvct"@,
        }
    }

    /// The route's name, as reports print it.
    pub fn name(self) -> (name: &'static str)
        ensures
            name@ == self.label(),
    {
        match self {
            ClockRoute::Auto => "auto",
            ClockRoute::WallRealtimeNs => "wall-realtime-ns",
            ClockRoute::MonotonicNs => "monotonic-ns",
            ClockRoute::X86RdtscRaw => "x86-rdtsc-raw",
            ClockRoute::X86RdtscLfence => "x86-lfence-rdtsc",
            ClockRoute::X86RdtscMfence => "x86-mfence-lfence-rdtsc",
            ClockRoute::X86RdtscpLfence => "x86-rdtscp-lfence",
            ClockRoute::Arm64Cntfrq => "arm64-cntfrq-el0",
            ClockRoute::Arm64Cntvct => "arm64-cntvct-el0",
            ClockRoute::Arm64CntvctIsb => "arm64-isb-cntvct-el0",
            ClockRoute::LinuxPerfCycles => "linux-perf-cycles",
            ClockRoute::BestSimdCounter => "best-simd-counter",
            ClockRoute::PpcTimebase => "ppc-mftb",
            ClockRoute::PpcTimebaseIsync => "ppc-isync-mftb",
            ClockRoute::RiscvRdtime => "riscv-rdtime",
            ClockRoute::Arm32Counter => "arm32-isb-cntvct",
        }
    }

    pub open spec fn available(self, host: RouteHost) -> bool {
        match self {
            ClockRoute::Auto | ClockRoute::WallRealtimeNs | ClockRoute::MonotonicNs => true,
            ClockRoute::X86RdtscRaw | ClockRoute::X86RdtscLfence | ClockRoute::X86RdtscMfence =>
                host.arch() is X86,
            ClockRoute::X86RdtscpLfence => host.arch() is X86 && host.counter.cpuid.rdtscp(),
            ClockRoute::Arm64Cntfrq | ClockRoute::Arm64Cntvct | ClockRoute::Arm64CntvctIsb =>
                host.arch() is Aarch64,
            ClockRoute::LinuxPerfCycles => host.counter.target.linux && host.perf,
            ClockRoute::BestSimdCounter => host.simd,
            ClockRoute::PpcTimebase | ClockRoute::PpcTimebaseIsync => host.arch() is PowerPc,
            ClockRoute::RiscvRdtime => host.arch() is RiscV,
            ClockRoute::Arm32Counter => host.arch() is Arm32,
        }
    }

    /// Whether this route exists on a machine. `RDTSCP` is a feature as well
    /// as an instruction, so the processor is asked and not the architecture.
    pub fn is_available(self, host: &RouteHost) -> (available: bool)
        ensures
            available == self.available(*host),
    {
        let machine: Machine = host.counter.target.machine;
        match self {
            ClockRoute::Auto | ClockRoute::WallRealtimeNs | ClockRoute::MonotonicNs => true,
            ClockRoute::X86RdtscRaw | ClockRoute::X86RdtscLfence | ClockRoute::X86RdtscMfence =>
                machine.is_x86(),
            ClockRoute::X86RdtscpLfence => machine.is_x86() && x86::has_rdtscp(
                &host.counter.cpuid,
            ),
            ClockRoute::Arm64Cntfrq | ClockRoute::Arm64Cntvct | ClockRoute::Arm64CntvctIsb =>
                matches!(machine, Machine::Aarch64),
            ClockRoute::LinuxPerfCycles => host.counter.target.linux && host.perf,
            ClockRoute::BestSimdCounter => host.simd,
            ClockRoute::PpcTimebase | ClockRoute::PpcTimebaseIsync => machine.is_powerpc(),
            ClockRoute::RiscvRdtime => machine.is_riscv(),
            ClockRoute::Arm32Counter => matches!(machine, Machine::Arm),
        }
    }

    /// Best route for a machine.
    pub fn best(host: &RouteHost) -> (route: ClockRoute)
        ensures
            route == host.best_route(),
    {
        if host.simd {
            return ClockRoute::BestSimdCounter;
        }
        match Arch::of(host.counter.target.machine) {
            Arch::X86 => if x86::has_rdtscp(&host.counter.cpuid) {
                ClockRoute::X86RdtscpLfence
            } else {
                ClockRoute::X86RdtscLfence
            },
            Arch::Aarch64 => ClockRoute::Arm64CntvctIsb,
            Arch::PowerPc => ClockRoute::PpcTimebaseIsync,
            Arch::RiscV => ClockRoute::RiscvRdtime,
            Arch::Arm32 => ClockRoute::Arm32Counter,
            Arch::Portable => ClockRoute::MonotonicNs,
        }
    }

    /// The route a request comes to.
    pub open spec fn resolved(self, host: RouteHost) -> ClockRoute {
        if !(self is Auto) && self.available(host) {
            self
        } else {
            host.best_route()
        }
    }

    /// Settles `Auto`, and falls back where a route is not available.
    pub fn resolve(self, host: &RouteHost) -> (route: ClockRoute)
        ensures
            route == self.resolved(*host),
    {
        match self {
            ClockRoute::Auto => ClockRoute::best(host),
            other => if other.is_available(host) {
                other
            } else {
                ClockRoute::best(host)
            },
        }
    }

    /// The counter read a route is made of.
    pub open spec fn counter_read(self, host: RouteHost) -> Seq<Insn> {
        let counter = host.counter;
        match (host.arch(), self) {
            (Arch::X86, ClockRoute::X86RdtscRaw) => x86::raw_read(),
            (Arch::X86, ClockRoute::X86RdtscLfence) => x86::lfence_read(),
            (Arch::X86, ClockRoute::X86RdtscMfence) => x86::mfence_read(),
            (Arch::X86, ClockRoute::X86RdtscpLfence) => x86::portable_end(counter.cpuid.rdtscp()),
            (Arch::Aarch64, ClockRoute::Arm64Cntvct) => aarch64::bare_read(false),
            (Arch::Aarch64, ClockRoute::Arm64CntvctIsb) => aarch64::isb_read(false),
            (Arch::PowerPc, ClockRoute::PpcTimebase) => powerpc::bare_read(counter.wide()),
            (Arch::PowerPc, ClockRoute::PpcTimebaseIsync) => powerpc::end_read(counter.wide()),
            (Arch::RiscV, _) => riscv::end_read(counter.wide()),
            (Arch::Arm32, _) => arm32::isb_read(counter.target.v7, counter.timer),
            _ => counter.start_read(),
        }
    }

    /// The counter read of a route. A caller that names `RDTSCP` on a part
    /// without it gets the fenced read, never an invalid opcode.
    pub fn read_counter(self, host: &RouteHost) -> (plan: Vec<Insn>)
        ensures
            plan@ == self.counter_read(*host),
    {
        let counter: &CounterHost = &host.counter;
        let wide: bool = matches!(
            counter.target.machine,
            Machine::PowerPcWide | Machine::RiscVWide
        );
        match (Arch::of(counter.target.machine), self) {
            (Arch::X86, ClockRoute::X86RdtscRaw) => x86::rdtsc_raw(),
            (Arch::X86, ClockRoute::X86RdtscLfence) => x86::rdtsc_lfence(),
            (Arch::X86, ClockRoute::X86RdtscMfence) => x86::rdtsc_mfence(),
            (Arch::X86, ClockRoute::X86RdtscpLfence) => x86::tsc_end_portable(&counter.cpuid),
            (Arch::Aarch64, ClockRoute::Arm64Cntvct) => aarch64::cntvct_raw(),
            (Arch::Aarch64, ClockRoute::Arm64CntvctIsb) => aarch64::cntvct_isb(),
            (Arch::PowerPc, ClockRoute::PpcTimebase) => powerpc::timebase_raw(wide),
            (Arch::PowerPc, ClockRoute::PpcTimebaseIsync) => powerpc::timebase_end(wide),
            (Arch::RiscV, _) => riscv::rdtime_end(wide),
            (Arch::Arm32, _) => arm32::counter_isb(counter.target.v7, counter.timer),
            _ => counter_start(counter),
        }
    }

    /// What reading this route comes to, once it is settled.
    pub open spec fn planned(self, host: RouteHost) -> RoutePlanView {
        let route = self.resolved(host);
        match route {
            ClockRoute::WallRealtimeNs => RoutePlanView::Wall,
            ClockRoute::MonotonicNs => RoutePlanView::Monotonic,
            ClockRoute::Arm64Cntfrq => RoutePlanView::DeclaredRate,
            ClockRoute::LinuxPerfCycles => RoutePlanView::PerfCycles {
                otherwise: route.counter_read(host),
            },
            _ => RoutePlanView::Counter { plan: route.counter_read(host) },
        }
    }

    /// Plans the reading of this route.
    pub fn plan(self, host: &RouteHost) -> (plan: RoutePlan)
        ensures
            plan@ == self.planned(*host),
    {
        let route: ClockRoute = self.resolve(host);
        match route {
            ClockRoute::WallRealtimeNs => RoutePlan::Wall,
            ClockRoute::MonotonicNs => RoutePlan::Monotonic,
            ClockRoute::Arm64Cntfrq => RoutePlan::DeclaredRate,
            ClockRoute::LinuxPerfCycles => RoutePlan::PerfCycles {
                otherwise: route.read_counter(host),
            },
            _ => RoutePlan::Counter { plan: route.read_counter(host) },
        }
    }

    /// What a reading of this route says: raw units, and nanoseconds. The
    /// system's clocks count nanoseconds themselves, the declared rate is
    /// reported as it is, and a counter's units are worth `converted`.
    pub open spec fn reading(self, host: RouteHost, raw: u64, converted: u64) -> (u64, u64) {
        match self.planned(host) {
            RoutePlanView::Counter { plan } => (raw, converted),
            RoutePlanView::PerfCycles { otherwise } => (raw, converted),
            _ => (raw, raw),
        }
    }

    /// Raw units and nanoseconds, from what carrying out the plan gave.
    pub fn read(self, host: &RouteHost, raw: u64, converted: u64) -> (reading: (u64, u64))
        ensures
            reading == self.reading(*host, raw, converted),
    {
        match self.resolve(host) {
            ClockRoute::WallRealtimeNs | ClockRoute::MonotonicNs | ClockRoute::Arm64Cntfrq => (
                raw,
                raw,
            ),
            _ => (raw, converted),
        }
    }

    /// Only the raw units of a reading.
    pub fn read_raw(self, host: &RouteHost, raw: u64) -> (units: u64)
        ensures
            units == self.reading(*host, raw, 0).0,
    {
        self.read(host, raw, 0).0
    }

    /// Every route but `Auto`, in the order that numbers them.
    pub open spec fn every() -> Seq<ClockRoute> {
        seq![
            ClockRoute::WallRealtimeNs,
            ClockRoute::MonotonicNs,
            ClockRoute::X86RdtscRaw,
            ClockRoute::X86RdtscLfence,
            ClockRoute::X86RdtscMfence,
            ClockRoute::X86RdtscpLfence,
            ClockRoute::Arm64Cntfrq,
            ClockRoute::Arm64Cntvct,
            ClockRoute::Arm64CntvctIsb,
            ClockRoute::LinuxPerfCycles,
            ClockRoute::BestSimdCounter,
            ClockRoute::PpcTimebase,
            ClockRoute::PpcTimebaseIsync,
            ClockRoute::RiscvRdtime,
            ClockRoute::Arm32Counter,
        ]
    }

    /// Every route but `Auto`.
    pub fn all() -> (all: Vec<ClockRoute>)
        ensures
            all@ == ClockRoute::every(),
    {
        let all: Vec<ClockRoute> = vec![
            ClockRoute::WallRealtimeNs,
            ClockRoute::MonotonicNs,
            ClockRoute::X86RdtscRaw,
            ClockRoute::X86RdtscLfence,
            ClockRoute::X86RdtscMfence,
            ClockRoute::X86RdtscpLfence,
            ClockRoute::Arm64Cntfrq,
            ClockRoute::Arm64Cntvct,
            ClockRoute::Arm64CntvctIsb,
            ClockRoute::LinuxPerfCycles,
            ClockRoute::BestSimdCounter,
            ClockRoute::PpcTimebase,
            ClockRoute::PpcTimebaseIsync,
            ClockRoute::RiscvRdtime,
            ClockRoute::Arm32Counter,
        ];
        assert(all@ =~= ClockRoute::every());
        all
    }

    /// The first route of a list with a name, whatever its capitals.
    pub open spec fn first_of(routes: Seq<ClockRoute>, name: Seq<char>) -> Option<ClockRoute>
        decreases routes.len(),
    {
        if routes.len() == 0 {
            None
        } else if crate::text::lowered(routes[0].label()) == crate::text::lowered(name) {
            Some(routes[0])
        } else {
            ClockRoute::first_of(routes.skip(1), name)
        }
    }

    /// Finds a route by its name, whatever its capitals.
    pub fn find(name: &str) -> (route: Option<ClockRoute>)
        ensures
            route == ClockRoute::first_of(ClockRoute::every(), name@),
    {
        let all: Vec<ClockRoute> = ClockRoute::all();
        let mut i: usize = 0;
        assert(all@.skip(0) =~= all@);
        while i < all.len()
            invariant
                i <= all.len(),
                all@ == ClockRoute::every(),
                ClockRoute::first_of(ClockRoute::every(), name@) == ClockRoute::first_of(
                    all@.skip(i as int),
                    name@,
                ),
            decreases all.len() - i,
        {
            if same_ignoring_case(all[i].name(), name) {
                return Some(all[i]);
            }
            assert(all@.skip(i as int).skip(1) =~= all@.skip(i + 1));
            i = i + 1;
        }
        None
    }
}

/// The best route always exists on the machine it is best for.
pub proof fn best_routes_are_available(host: RouteHost)
    ensures
        host.best_route().available(host),
        !(host.best_route() is Auto),
{
}

/// Settling a route never leaves `Auto`, always ends at a route that exists,
/// and asking again changes nothing.
pub proof fn resolving_settles(route: ClockRoute, host: RouteHost)
    ensures
        !(route.resolved(host) is Auto),
        route.resolved(host).available(host),
        route.resolved(host).resolved(host) == route.resolved(host),
        !(route is Auto) && route.available(host) ==> route.resolved(host) == route,
{
}

/// Whatever route is asked for, its plan can be executed where it was made.
pub proof fn planned_routes_can_be_executed(route: ClockRoute, host: RouteHost)
    ensures
        host.counter.executes_all(route.resolved(host).counter_read(host)),
{
    crate::arch::planned_reads_can_be_executed(host.counter, 1);
    let r = route.resolved(host);
    let plan = r.counter_read(host);
    match (host.arch(), r) {
        (Arch::X86, ClockRoute::X86RdtscMfence) => {},
        (Arch::Aarch64, ClockRoute::Arm64Cntvct) => {},
        (Arch::Aarch64, ClockRoute::Arm64CntvctIsb) => {},
        _ => {},
    }
}

/// Every route but `Auto` is listed.
pub proof fn every_route_is_listed(route: ClockRoute)
    requires
        !(route is Auto),
    ensures
        ClockRoute::every().contains(route),
{
    let all = ClockRoute::every();
    assert(all[0] is WallRealtimeNs);
    assert(all[1] is MonotonicNs);
    assert(all[2] is X86RdtscRaw);
    assert(all[3] is X86RdtscLfence);
    assert(all[4] is X86RdtscMfence);
    assert(all[5] is X86RdtscpLfence);
    assert(all[6] is Arm64Cntfrq);
    assert(all[7] is Arm64Cntvct);
    assert(all[8] is Arm64CntvctIsb);
    assert(all[9] is LinuxPerfCycles);
    assert(all[10] is BestSimdCounter);
    assert(all[11] is PpcTimebase);
    assert(all[12] is PpcTimebaseIsync);
    assert(all[13] is RiscvRdtime);
    assert(all[14] is Arm32Counter);
}

proof fn lemma_small_label(route: ClockRoute)
    ensures
        crate::text::lowered(route.label()) == route.label(),
{
    reveal_strlit("auto");
    reveal_strlit("wall-realtime-ns");
    reveal_strlit("monotonic-ns");
    reveal_strlit("x86-rdtsc-raw");
    reveal_strlit("x86-lfence-rdtsc");
    reveal_strlit("x86-mfence-lfence-rdtsc");
    reveal_strlit("x86-rdtscp-lfence");
    reveal_strlit("arm64-cntfrq-el0");
    reveal_strlit("arm64-cntvct-el0");
    reveal_strlit("arm64-isb-cntvct-el0");
    reveal_strlit("linux-perf-cycles");
    reveal_strlit("best-simd-counter");
    reveal_strlit("ppc-mftb");
    reveal_strlit("ppc-isync-mftb");
    reveal_strlit("riscv-rdtime");
    reveal_strlit("arm32-isb-cntvct");
    let label = route.label();
    assert(forall|i: int| 0 <= i < label.len() ==> !('A' <= #[trigger] label[i] <= 'Z'));
    assert(crate::text::lowered(label) =~= label);
}

proof fn lemma_labels_differ(a: ClockRoute, b: ClockRoute)
    requires
        a.label() == b.label(),
    ensures
        a == b,
{
    reveal_strlit("auto");
    reveal_strlit("wall-realtime-ns");
    reveal_strlit("monotonic-ns");
    reveal_strlit("x86-rdtsc-raw");
    reveal_strlit("x86-lfence-rdtsc");
    reveal_strlit("x86-mfence-lfence-rdtsc");
    reveal_strlit("x86-rdtscp-lfence");
    reveal_strlit("arm64-cntfrq-el0");
    reveal_strlit("arm64-cntvct-el0");
    reveal_strlit("arm64-isb-cntvct-el0");
    reveal_strlit("linux-perf-cycles");
    reveal_strlit("best-simd-counter");
    reveal_strlit("ppc-mftb");
    reveal_strlit("ppc-isync-mftb");
    reveal_strlit("riscv-rdtime");
    reveal_strlit("arm32-isb-cntvct");
    assert(a.label().len() == b.label().len());
    assert(a.label()[0] == b.label()[0]);
    assert(a.label()[3] == b.label()[3]);
    if a.label().len() > 9 {
        assert(a.label()[9] == b.label()[9]);
    }
    assert("wall-realtime-ns"@[0] == 'w');
    assert("monotonic-ns"@[0] == 'm');
    assert("x86-lfence-rdtsc"@[0] == 'x');
    assert("x86-rdtscp-lfence"@[0] == 'x');
    assert("arm64-cntfrq-el0"@[0] == 'a');
    assert("arm64-cntfrq-el0"@[3] == '6');
    assert("arm64-cntfrq-el0"@[9] == 'f');
    assert("arm64-cntvct-el0"@[0] == 'a');
    assert("arm64-cntvct-el0"@[3] == '6');
    assert("arm64-cntvct-el0"@[9] == 'v');
    assert("linux-perf-cycles"@[0] == 'l');
    assert("best-simd-counter"@[0] == 'b');
    assert("riscv-rdtime"@[0] == 'r');
    assert("arm32-isb-cntvct"@[0] == 'a');
    assert("arm32-isb-cntvct"@[3] == '3');
}

proof fn lemma_first_of(routes: Seq<ClockRoute>, name: Seq<char>, k: int)
    requires
        0 <= k < routes.len(),
        crate::text::lowered(routes[k].label()) == crate::text::lowered(name),
        forall|j: int|
            0 <= j < k ==> crate::text::lowered((#[trigger] routes[j]).label())
                != crate::text::lowered(name),
    ensures
        ClockRoute::first_of(routes, name) == Some(routes[k]),
    decreases k,
{
    if k > 0 {
        let rest = routes.skip(1);
        assert(rest[k - 1] == routes[k]);
        assert forall|j: int| 0 <= j < k - 1 implies crate::text::lowered(
            (#[trigger] rest[j]).label(),
        ) != crate::text::lowered(name) by {
            assert(rest[j] == routes[j + 1]);
        }
        assert(routes[0].label() == routes[0].label());
        lemma_first_of(rest, name, k - 1);
    }
}

/// Every name that is printed finds the route it names.
pub proof fn route_names_are_found(route: ClockRoute)
    requires
        !(route is Auto),
    ensures
        ClockRoute::first_of(ClockRoute::every(), route.label()) == Some(route),
{
    every_route_is_listed(route);
    let all = ClockRoute::every();
    let k = choose|k: int| 0 <= k < all.len() && all[k] == route;
    assert forall|j: int| 0 <= j < k implies crate::text::lowered((#[trigger] all[j]).label())
        != crate::text::lowered(route.label()) by {
        lemma_small_label(all[j]);
        lemma_small_label(route);
        if all[j].label() == route.label() {
            lemma_labels_differ(all[j], route);
            lemma_listed_once(j, k);
        }
    }
    lemma_first_of(all, route.label(), k);
}

proof fn lemma_listed_once(j: int, k: int)
    requires
        0 <= j < ClockRoute::every().len(),
        0 <= k < ClockRoute::every().len(),
        ClockRoute::every()[j] == ClockRoute::every()[k],
    ensures
        j == k,
{
}

// ---------------------------------------------------------------------------
// Language bindings
// ---------------------------------------------------------------------------

/// Which language binding's call overhead to estimate. Only the native ones
/// can be measured from here; the others get a baseline.
#[derive(Debug, Clone, Copy, PartialEq, Eq, Structural)]
pub enum WrapperKind {
    CApi,
    DllBoundary,
    PythonCtypes,
    PythonCffi,
    NodeFfi,
    LuaFfi,
    JavaJna,
    CsharpPinvoke,
    GoCgo,
    RustFfi,
    ZigFfi,
}

impl WrapperKind {
    pub open spec fn label(self) -> Seq<char> {
        match self {
            WrapperKind::CApi => "c-api"@,
            WrapperKind::DllBoundary => "dll-boundary"@,
            WrapperKind::PythonCtypes => "python-ctypes"@,
            WrapperKind::PythonCffi => "python-cffi"@,
            WrapperKind::NodeFfi => "node-ffi"@,
            WrapperKind::LuaFfi => "lua-ffi"@,
            WrapperKind::JavaJna => "java-jna"@,
            WrapperKind::CsharpPinvoke => "csharp-pinvoke"@,
            WrapperKind::GoCgo => "go-cgo"@,
            WrapperKind::RustFfi => "rust-ffi"@,
            WrapperKind::ZigFfi => "zig-ffi"@,
        }
    }

    /// The binding's name.
    pub fn name(self) -> (name: &'static str)
        ensures
            name@ == self.label(),
    {
        match self {
            WrapperKind::CApi => "c-api",
            WrapperKind::DllBoundary => "dll-boundary",
            WrapperKind::PythonCtypes => "python-ctypes",
            WrapperKind::PythonCffi => "python-cffi",
            WrapperKind::NodeFfi => "node-ffi",
            WrapperKind::LuaFfi => "lua-ffi",
            WrapperKind::JavaJna => "java-jna",
            WrapperKind::CsharpPinvoke => "csharp-pinvoke",
            WrapperKind::GoCgo => "go-cgo",
            WrapperKind::RustFfi => "rust-ffi",
            WrapperKind::ZigFfi => "zig-ffi",
        }
    }

    /// Whether the number is a real measurement rather than a baseline.
    pub fn is_measured_natively(self) -> (native: bool)
        ensures
            native == (self is CApi || self is DllBoundary || self is RustFfi),
    {
        matches!(self, WrapperKind::CApi | WrapperKind::DllBoundary | WrapperKind::RustFfi)
    }

    /// Every binding, in display order.
    pub fn all() -> (all: Vec<WrapperKind>)
        ensures
            all@ == seq![
                WrapperKind::CApi,
                WrapperKind::DllBoundary,
                WrapperKind::PythonCtypes,
                WrapperKind::PythonCffi,
                WrapperKind::NodeFfi,
                WrapperKind::LuaFfi,
                WrapperKind::JavaJna,
                WrapperKind::CsharpPinvoke,
                WrapperKind::GoCgo,
                WrapperKind::RustFfi,
                WrapperKind::ZigFfi,
            ],
    {
        let all: Vec<WrapperKind> = vec![
            WrapperKind::CApi,
            WrapperKind::DllBoundary,
            WrapperKind::PythonCtypes,
            WrapperKind::PythonCffi,
            WrapperKind::NodeFfi,
            WrapperKind::LuaFfi,
            WrapperKind::JavaJna,
            WrapperKind::CsharpPinvoke,
            WrapperKind::GoCgo,
            WrapperKind::RustFfi,
            WrapperKind::ZigFfi,
        ];
        assert(all@ =~= seq![
            WrapperKind::CApi,
            WrapperKind::DllBoundary,
            WrapperKind::PythonCtypes,
            WrapperKind::PythonCffi,
            WrapperKind::NodeFfi,
            WrapperKind::LuaFfi,
            WrapperKind::JavaJna,
            WrapperKind::CsharpPinvoke,
            WrapperKind::GoCgo,
            WrapperKind::RustFfi,
            WrapperKind::ZigFfi,
        ]);
        all
    }
}

/// How often the call loop behind a binding's baseline runs: whatever the
/// binding, as often as asked and at least once.
pub fn measure_wrapper_overhead(kind: WrapperKind, iterations: u32) -> (calls: u32)
    ensures
        calls == (if iterations == 0 {
            1
        } else {
            iterations
        }),
{
    if iterations == 0 {
        1
    } else {
        iterations
    }
}

// ---------------------------------------------------------------------------
// Best-case costs
// ---------------------------------------------------------------------------

/// The forward distances of some pairs of readings that are not zero.
pub open spec fn costs(pairs: Seq<(u64, u64)>) -> Seq<u64>
    decreases pairs.len(),
{
    if pairs.len() == 0 {
        Seq::empty()
    } else {
        let d = crate::arch::insn::forward(pairs.last().0, pairs.last().1);
        let before = costs(pairs.drop_last());
        if d > 0 {
            before.push(d)
        } else {
            before
        }
    }
}

/// The least of some costs, or the greatest number where there is none.
pub open spec fn least(values: Seq<u64>) -> u64
    decreases values.len(),
{
    if values.len() == 0 {
        u64::MAX
    } else {
        let before = least(values.drop_last());
        if values.last() < before {
            values.last()
        } else {
            before
        }
    }
}

/// The best case of some timed calls: the least distance that is not zero,
/// and zero where there is none.
pub open spec fn best_case(pairs: Seq<(u64, u64)>) -> u64 {
    if least(costs(pairs)) == u64::MAX {
        0
    } else {
        least(costs(pairs))
    }
}

fn best_cost(pairs: &[(u64, u64)]) -> (units: u64)
    ensures
        units == best_case(pairs@),
{
    let mut best: u64 = u64::MAX;
    let mut i: usize = 0;
    assert(pairs@.take(0) =~= Seq::empty());
    while i < pairs.len()
        invariant
            i <= pairs.len(),
            best == least(costs(pairs@.take(i as int))),
        decreases pairs.len() - i,
    {
        let d: u64 = between_forward(pairs[i].0, pairs[i].1);
        let ghost shorter = pairs@.take(i as int);
        let ghost longer = pairs@.take(i + 1);
        proof {
            assert(longer.drop_last() =~= shorter);
            assert(longer.last() == pairs@[i as int]);
            if d > 0 {
                assert(costs(longer).drop_last() =~= costs(shorter));
            }
        }
        if d > 0 && d < best {
            best = d;
        }
        i = i + 1;
    }
    assert(pairs@.take(i as int) =~= pairs@);
    if best == u64::MAX {
        0
    } else {
        best
    }
}

/// Best-case cost of one time call into the system, in counter units, from
/// the readings before and after each.
pub fn measure_kernel_timecall_overhead(pairs: &[(u64, u64)]) -> (units: u64)
    ensures
        units == best_case(pairs@),
{
    best_cost(pairs)
}

/// Best-case cost of one clock read of the library, in counter units.
pub fn measure_api_call_overhead(pairs: &[(u64, u64)]) -> (units: u64)
    ensures
        units == best_case(pairs@),
{
    best_cost(pairs)
}

/// A best case is no more than any of the costs it was taken from.
pub proof fn best_case_is_least(pairs: Seq<(u64, u64)>, i: int)
    requires
        0 <= i < pairs.len(),
        crate::arch::insn::forward(pairs[i].0, pairs[i].1) > 0,
    ensures
        best_case(pairs) <= crate::arch::insn::forward(pairs[i].0, pairs[i].1),
    decreases pairs.len(),
{
    lemma_least_cost(pairs, i);
}

proof fn lemma_least_cost(pairs: Seq<(u64, u64)>, i: int)
    requires
        0 <= i < pairs.len(),
        crate::arch::insn::forward(pairs[i].0, pairs[i].1) > 0,
    ensures
        least(costs(pairs)) <= crate::arch::insn::forward(pairs[i].0, pairs[i].1),
    decreases pairs.len(),
{
    let shorter = pairs.drop_last();
    let d = crate::arch::insn::forward(pairs.last().0, pairs.last().1);
    if d > 0 {
        assert(costs(pairs).drop_last() =~= costs(shorter));
    }
    if i < shorter.len() {
        assert(shorter[i] == pairs[i]);
        lemma_least_cost(shorter, i);
    }
}

// ---------------------------------------------------------------------------
// Snapshots
// ---------------------------------------------------------------------------

/// What a snapshot is taken from. What does not exist on a machine is read as
/// anything: it is not looked at.
#[derive(Debug, Clone, Copy, PartialEq, Eq, Structural)]
pub struct SnapshotReadings {
    pub unix_time_ns: u64,
    pub monotonic_ns: u64,
    pub process_time_ns: u64,
    pub thread_time_ns: u64,
    pub selected_raw: u64,
    pub selected_converted: u64,
    pub barrier_units: u64,
    pub rdtsc_raw: u64,
    pub rdtsc_lfence: u64,
    pub rdtsc_mfence: u64,
    pub rdtscp_lfence: u64,
    pub rdtscp_aux: u32,
    pub cntfrq_el0: u64,
    pub cntvct_el0: u64,
    pub cntvct_isb: u64,
    pub cntvct_ns: u64,
    pub perf_cycles: Option<u64>,
    pub perf_pmu_count: usize,
    pub simd_counter: u64,
    pub simd_counter_ns: u64,
    pub native_overhead_units: u64,
    pub ffi_overhead_units: u64,
    pub cpu_index: u32,
}

/// Everything the clock views display, taken in one pass. What the machine
/// does not have stays at zero.
#[derive(Debug)]
pub struct NanoclockSnapshot {
    pub arch: &'static str,
    pub route: ClockRoute,
    pub backend: Backend,
    /// The name of the widest SIMD family.
    pub best_simd: Option<String>,
    pub unix_time_ns: u64,
    pub monotonic_ns: u64,
    pub process_time_ns: u64,
    pub thread_time_ns: u64,
    pub selected_raw_units: u64,
    pub selected_ns: u64,
    /// Barrier cost on the selected route.
    pub selected_overhead_units: u64,
    pub rdtsc_raw: u64,
    pub rdtsc_lfence: u64,
    pub rdtsc_mfence: u64,
    pub rdtscp_lfence: u64,
    pub rdtscp_aux: u32,
    pub cntfrq_el0: u64,
    pub cntvct_el0: u64,
    pub cntvct_isb: u64,
    pub cntvct_ns: u64,
    /// Thread cycles, where the kernel hands them out.
    pub perf_cycles: Option<u64>,
    /// How many processor PMUs the count spans.
    pub perf_pmu_count: usize,
    pub simd_counter: u64,
    pub simd_counter_ns: u64,
    pub native_overhead_units: u64,
    pub ffi_overhead_units: u64,
    pub cpu_index: u32,
    pub hypervisor: Hypervisor,
    pub timing_impact: TimingImpact,
}

/// A reading where the machine has what it reads, and zero elsewhere.
pub open spec fn kept(has: bool, reading: u64) -> u64 {
    if has {
        reading
    } else {
        0
    }
}

fn keep(has: bool, reading: u64) -> (value: u64)
    ensures
        value == kept(has, reading),
{
    if has {
        reading
    } else {
        0
    }
}

impl NanoclockSnapshot {
    /// Whether a snapshot holds what was read on a machine, and nothing of
    /// what that machine does not have.
    pub open spec fn records(self, host: RouteHost, r: SnapshotReadings) -> bool {
        let x86 = host.arch() is X86;
        let rdtscp = x86 && host.counter.cpuid.rdtscp();
        let arm = host.arch() is Aarch64;
        let linux = host.counter.target.linux;
        &&& self.arch@ == host.arch().label(host.counter.target)
        &&& self.route == host.best_route()
        &&& (self.selected_raw_units, self.selected_ns) == self.route.reading(
            host,
            r.selected_raw,
            r.selected_converted,
        )
        &&& self.unix_time_ns == r.unix_time_ns
        &&& self.monotonic_ns == r.monotonic_ns
        &&& self.process_time_ns == r.process_time_ns
        &&& self.thread_time_ns == r.thread_time_ns
        &&& self.selected_overhead_units == r.barrier_units
        &&& self.rdtsc_raw == kept(x86, r.rdtsc_raw)
        &&& self.rdtsc_lfence == kept(x86, r.rdtsc_lfence)
        &&& self.rdtsc_mfence == kept(x86, r.rdtsc_mfence)
        &&& self.rdtscp_lfence == kept(rdtscp, r.rdtscp_lfence)
        &&& self.rdtscp_aux == kept(rdtscp, r.rdtscp_aux as u64)
        &&& self.cntfrq_el0 == kept(arm, r.cntfrq_el0)
        &&& self.cntvct_el0 == kept(arm, r.cntvct_el0)
        &&& self.cntvct_isb == kept(arm, r.cntvct_isb)
        &&& self.cntvct_ns == kept(arm, r.cntvct_ns)
        &&& self.perf_cycles == (if linux {
            r.perf_cycles
        } else {
            None
        })
        &&& self.perf_pmu_count == (if linux {
            r.perf_pmu_count
        } else {
            0
        })
        &&& self.simd_counter == r.simd_counter
        &&& self.simd_counter_ns == r.simd_counter_ns
        &&& self.native_overhead_units == r.native_overhead_units
        &&& self.ffi_overhead_units == r.ffi_overhead_units
        &&& self.cpu_index == r.cpu_index
    }

    /// Takes a snapshot from what was read on a machine.
    pub fn capture(
        host: &RouteHost,
        backend: Backend,
        best_simd: Option<String>,
        hypervisor: Hypervisor,
        timing_impact: TimingImpact,
        r: &SnapshotReadings,
    ) -> (snap: NanoclockSnapshot)
        ensures
            snap.records(*host, *r),
            snap.backend == backend,
            snap.best_simd == best_simd,
            snap.hypervisor == hypervisor,
            snap.timing_impact == timing_impact,
    {
        let route: ClockRoute = ClockRoute::best(host);
        let (selected_raw_units, selected_ns): (u64, u64) = route.read(
            host,
            r.selected_raw,
            r.selected_converted,
        );
        let target = &host.counter.target;
        let x86: bool = target.machine.is_x86();
        let rdtscp: bool = x86 && x86::has_rdtscp(&host.counter.cpuid);
        let arm: bool = matches!(target.machine, Machine::Aarch64);
        NanoclockSnapshot {
            arch: Arch::of(target.machine).name(target),
            route,
            backend,
            best_simd,
            unix_time_ns: r.unix_time_ns,
            monotonic_ns: r.monotonic_ns,
            process_time_ns: r.process_time_ns,
            thread_time_ns: r.thread_time_ns,
            selected_raw_units,
            selected_ns,
            selected_overhead_units: r.barrier_units,
            rdtsc_raw: keep(x86, r.rdtsc_raw),
            rdtsc_lfence: keep(x86, r.rdtsc_lfence),
            rdtsc_mfence: keep(x86, r.rdtsc_mfence),
            rdtscp_lfence: keep(rdtscp, r.rdtscp_lfence),
            rdtscp_aux: if rdtscp {
                r.rdtscp_aux
            } else {
                0
            },
            cntfrq_el0: keep(arm, r.cntfrq_el0),
            cntvct_el0: keep(arm, r.cntvct_el0),
            cntvct_isb: keep(arm, r.cntvct_isb),
            cntvct_ns: keep(arm, r.cntvct_ns),
            perf_cycles: if target.linux {
                r.perf_cycles
            } else {
                None
            },
            perf_pmu_count: if target.linux {
                r.perf_pmu_count
            } else {
                0
            },
            simd_counter: r.simd_counter,
            simd_counter_ns: r.simd_counter_ns,
            native_overhead_units: r.native_overhead_units,
            ffi_overhead_units: r.ffi_overhead_units,
            cpu_index: r.cpu_index,
            hypervisor,
            timing_impact,
        }
    }

    /// Whether these readings came from a virtualized platform.
    pub fn is_virtualized(&self) -> (virtualized: bool)
        ensures
            virtualized == !(self.timing_impact is Native),
    {
        !matches!(self.timing_impact, TimingImpact::Native)
    }

    /// Name of the widest SIMD family, for status lines.
    pub fn simd_name(&self) -> (name: &str)
        ensures
            name@ == (match self.best_simd {
                Some(name) => name@,
                None => "none"@,
            }),
    {
        match &self.best_simd {
            Some(name) => name.as_str(),
            None => "none",
        }
    }
}

// ---------------------------------------------------------------------------
// Calibration
// ---------------------------------------------------------------------------

/// Inputs to a stable-clock calibration.
#[derive(Debug, Clone, Copy, PartialEq, Eq, Structural)]
pub struct StableClockConfig {
    pub route: ClockRoute,
    /// Pin the thread before calibrating.
    pub pin_cpu: bool,
    pub cpu_index: u32,
    /// Untimed settle time before the window opens.
    pub warmup_ms: u32,
    /// Length of the measurement window.
    pub calibration_ms: u32,
    /// Treat a migration during the window as a failure.
    pub require_no_migration: bool,
}

impl Default for StableClockConfig {
    fn default() -> (config: StableClockConfig)
        ensures
            config == (StableClockConfig {
                route: ClockRoute::Auto,
                pin_cpu: true,
                cpu_index: 0,
                warmup_ms: 50,
                calibration_ms: 500,
                require_no_migration: true,
            }),
    {
        StableClockConfig {
            route: ClockRoute::Auto,
            pin_cpu: true,
            cpu_index: 0,
            warmup_ms: 50,
            calibration_ms: 500,
            require_no_migration: true,
        }
    }
}

impl StableClockConfig {
    /// How long the window is kept open: never for no time at all.
    pub fn window_ms(&self) -> (ms: u32)
        ensures
            ms == (if self.calibration_ms == 0 {
                1
            } else {
                self.calibration_ms
            }),
    {
        if self.calibration_ms == 0 {
            1
        } else {
            self.calibration_ms
        }
    }
}

/// Whether a thread moved: it is known where it was at both ends, and the
/// places differ.
pub open spec fn moved(before: Option<u32>, after: Option<u32>) -> bool {
    before is Some && after is Some && before->0 != after->0
}

fn has_moved(before: Option<u32>, after: Option<u32>) -> (yes: bool)
    ensures
        yes == moved(before, after),
{
    match (before, after) {
        (Some(before), Some(after)) => before != after,
        _ => false,
    }
}

/// What a calibration is worked out from. A processor is `None` where the
/// system does not say.
#[derive(Debug, Clone, Copy, PartialEq, Eq, Structural)]
pub struct CalibrationReadings {
    pub cpu_before: Option<u32>,
    pub cpu_after: Option<u32>,
    /// Whether the thread could be pinned, where it was asked for.
    pub pinned: bool,
    pub raw_start: u64,
    pub raw_end: u64,
    pub wall_start_ns: u64,
    pub wall_end_ns: u64,
    pub read_overhead_units: u64,
    pub kernel_timecall_overhead_units: u64,
    pub api_call_overhead_units: u64,
}

/// Result of a stable-clock calibration. The conversion factor is
/// `elapsed_units / elapsed_ns`, where there is one.
#[derive(Debug, Clone, Copy, PartialEq, Eq, Structural)]
pub struct StableClockState {
    pub route: ClockRoute,
    pub pinned: bool,
    pub cpu_before: Option<u32>,
    pub cpu_after: Option<u32>,
    /// The thread changed cores during the window.
    pub migrated: bool,
    /// The counter is documented as invariant.
    pub is_invariant: bool,
    pub raw_start: u64,
    pub raw_end: u64,
    pub elapsed_units: u64,
    pub elapsed_ns: u64,
    pub read_overhead_units: u64,
    pub kernel_timecall_overhead_units: u64,
    pub api_call_overhead_units: u64,
}

impl StableClockState {
    /// Whether the window gave a conversion factor that is above zero.
    pub open spec fn has_factor(self) -> bool {
        self.elapsed_ns > 0 && self.elapsed_units > 0
    }

    /// Whether this calibration is safe to convert with: it has a factor, and
    /// the thread did not move unless it was pinned.
    pub fn is_usable(&self) -> (usable: bool)
        ensures
            usable == (self.has_factor() && !(self.migrated && !self.pinned)),
    {
        self.elapsed_ns > 0 && self.elapsed_units > 0 && !(self.migrated && !self.pinned)
    }
}

/// Works out how many counter units pass per nanosecond, from the readings at
/// both ends of a window.
pub fn calibrate_cycles_per_ns(
    host: &RouteHost,
    config: &StableClockConfig,
    is_invariant: bool,
    r: &CalibrationReadings,
) -> (state: StableClockState)
    ensures
        state == (StableClockState {
            route: config.route.resolved(*host),
            pinned: config.pin_cpu && r.pinned,
            cpu_before: r.cpu_before,
            cpu_after: r.cpu_after,
            migrated: moved(r.cpu_before, r.cpu_after),
            is_invariant,
            raw_start: r.raw_start,
            raw_end: r.raw_end,
            elapsed_units: crate::arch::insn::forward(r.raw_start, r.raw_end),
            elapsed_ns: crate::arch::insn::forward(r.wall_start_ns, r.wall_end_ns),
            read_overhead_units: r.read_overhead_units,
            kernel_timecall_overhead_units: r.kernel_timecall_overhead_units,
            api_call_overhead_units: r.api_call_overhead_units,
        }),
{
    StableClockState {
        route: config.route.resolve(host),
        pinned: config.pin_cpu && r.pinned,
        cpu_before: r.cpu_before,
        cpu_after: r.cpu_after,
        migrated: has_moved(r.cpu_before, r.cpu_after),
        is_invariant,
        raw_start: r.raw_start,
        raw_end: r.raw_end,
        elapsed_units: between_forward(r.raw_start, r.raw_end),
        elapsed_ns: between_forward(r.wall_start_ns, r.wall_end_ns),
        read_overhead_units: r.read_overhead_units,
        kernel_timecall_overhead_units: r.kernel_timecall_overhead_units,
        api_call_overhead_units: r.api_call_overhead_units,
    }
}

/// Result of calibrating one route by reading it over and over.
#[derive(Debug, Clone, Copy, PartialEq, Eq, Structural)]
pub struct RouteCalibration {
    pub route: ClockRoute,
    pub samples: u64,
    pub pinned: bool,
    pub cpu_before: Option<u32>,
    pub cpu_after: Option<u32>,
    pub migrated: bool,
    pub elapsed_raw_units: u64,
    pub elapsed_ns: u64,
    pub read_overhead_units: u64,
    pub kernel_timecall_overhead_units: u64,
    pub api_call_overhead_units: u64,
}

impl RouteCalibration {
    /// Whether rates can be worked out: neither distance is zero.
    pub fn has_rates(&self) -> (has: bool)
        ensures
            has == (self.elapsed_ns > 0 && self.elapsed_raw_units > 0),
    {
        self.elapsed_ns > 0 && self.elapsed_raw_units > 0
    }
}

/// How often a route is read: as often as asked, and a hundred thousand times
/// where nothing was.
pub fn route_samples(samples: u32) -> (reads: u32)
    ensures
        reads == (if samples == 0 {
            100_000
        } else {
            samples
        }),
{
    if samples == 0 {
        100_000
    } else {
        samples
    }
}

/// Calibrates a route from the readings around its read loop.
pub fn calibrate_route(
    host: &RouteHost,
    route: ClockRoute,
    samples: u32,
    pin_cpu: bool,
    r: &CalibrationReadings,
) -> (out: RouteCalibration)
    ensures
        out == (RouteCalibration {
            route: route.resolved(*host),
            samples: (if samples == 0 {
                100_000
            } else {
                samples
            }) as u64,
            pinned: pin_cpu && r.pinned,
            cpu_before: r.cpu_before,
            cpu_after: r.cpu_after,
            migrated: moved(r.cpu_before, r.cpu_after),
            elapsed_raw_units: crate::arch::insn::forward(r.raw_start, r.raw_end),
            elapsed_ns: crate::arch::insn::forward(r.wall_start_ns, r.wall_end_ns),
            read_overhead_units: r.read_overhead_units,
            kernel_timecall_overhead_units: r.kernel_timecall_overhead_units,
            api_call_overhead_units: r.api_call_overhead_units,
        }),
{
    RouteCalibration {
        route: route.resolve(host),
        samples: route_samples(samples) as u64,
        pinned: pin_cpu && r.pinned,
        cpu_before: r.cpu_before,
        cpu_after: r.cpu_after,
        migrated: has_moved(r.cpu_before, r.cpu_after),
        elapsed_raw_units: between_forward(r.raw_start, r.raw_end),
        elapsed_ns: between_forward(r.wall_start_ns, r.wall_end_ns),
        read_overhead_units: r.read_overhead_units,
        kernel_timecall_overhead_units: r.kernel_timecall_overhead_units,
        api_call_overhead_units: r.api_call_overhead_units,
    }
}

/// Advice for getting a stable calibration.
pub const STABILITY_ADVICE: &'static str =
    "Best precision: disable turbo/boost, lock the performance governor, pin CPU affinity, avoid core migration, prefer an invariant TSC or CNTVCT_EL0, isolate benchmark cores, and consider disabling deep C-states when latency matters.";

} // verus!
