//! Counter reads, whatever the processor.
//!
//! Each family has a module of its own. What stands here picks between them,
//! so that nothing outside has to know which processor it runs on.
pub mod aarch64;
pub mod arm32;
pub mod insn;
pub mod powerpc;
pub mod riscv;
pub mod x86;

use crate::arch::aarch64::{CounterChoice, PermissionProbe};
use crate::arch::insn::{between, between_forward, bracket, Insn};
use crate::arch::x86::CpuidTable;
use crate::machine::{Machine, Target};
use vstd::prelude::*;

verus! {

/// The counter family a target exposes.
#[derive(Debug, Clone, Copy, PartialEq, Eq, Structural)]
pub enum Arch {
    /// `RDTSC`: core cycles.
    X86,
    /// `CNTVCT_EL0`: architectural counter ticks.
    Aarch64,
    /// The Time Base: its ticks.
    PowerPc,
    /// The `time` counter: timebase ticks.
    RiscV,
    /// The generic timer where it may be read, else nanoseconds.
    Arm32,
    /// No architectural counter: nanoseconds from the system's clock.
    Portable,
}

impl Arch {
    /// The family of a processor.
    pub open spec fn family(machine: Machine) -> Arch {
        if machine.x86() {
            Arch::X86
        } else if machine is Aarch64 {
            Arch::Aarch64
        } else if machine.powerpc() {
            Arch::PowerPc
        } else if machine.riscv() {
            Arch::RiscV
        } else if machine is Arm {
            Arch::Arm32
        } else {
            Arch::Portable
        }
    }

    /// The counter family of a processor.
    pub fn of(machine: Machine) -> (arch: Arch)
        ensures
            arch == Arch::family(machine),
    {
        match machine {
            Machine::X86 | Machine::X86Wide => Arch::X86,
            Machine::Aarch64 => Arch::Aarch64,
            Machine::PowerPc | Machine::PowerPcWide => Arch::PowerPc,
            Machine::RiscV | Machine::RiscVWide => Arch::RiscV,
            Machine::Arm => Arch::Arm32,
            Machine::Other => Arch::Portable,
        }
    }

    /// The family's name, down to width and byte order.
    pub open spec fn label(self, target: Target) -> Seq<char> {
        match self {
            Arch::X86 => "x86"@,
            Arch::Aarch64 => "arm64"@,
            Arch::PowerPc => if target.machine is PowerPcWide {
                if target.little_endian {
                    "ppc64le"@
                } else {
                    "ppc64"@
                }
            } else {
                "ppc"@
            },
            Arch::RiscV => if target.machine is RiscVWide {
                "riscv64"@
            } else {
                "riscv32"@
            },
            Arch::Arm32 => "arm"@,
            Arch::Portable => "portable"@,
        }
    }

    /// The family's name, as reports print it.
    pub fn name(self, target: &Target) -> (name: &'static str)
        ensures
            name@ == self.label(*target),
    {
        match self {
            Arch::X86 => "x86",
            Arch::Aarch64 => "arm64",
            Arch::PowerPc => {
                if matches!(target.machine, Machine::PowerPcWide) {
                    if target.little_endian {
                        "ppc64le"
                    } else {
                        "ppc64"
                    }
                } else {
                    "ppc"
                }
            },
            Arch::RiscV => {
                if matches!(target.machine, Machine::RiscVWide) {
                    "riscv64"
                } else {
                    "riscv32"
                }
            },
            Arch::Arm32 => "arm",
            Arch::Portable => "portable",
        }
    }
}

/// What a counter read depends on.
#[derive(Debug)]
pub struct CounterHost {
    pub target: Target,
    /// x86: what `CPUID` answered.
    pub cpuid: CpuidTable,
    /// AArch64: which counter was chosen.
    pub choice: CounterChoice,
    /// 32-bit ARM: the generic timer's rate, where it may be read.
    pub timer: Option<u32>,
}

impl CounterHost {
    pub open spec fn arch(self) -> Arch {
        Arch::family(self.target.machine)
    }

    /// Whether the processor reads its counter in one piece.
    pub open spec fn wide(self) -> bool {
        self.target.machine is PowerPcWide || self.target.machine is RiscVWide
    }

    /// The cheapest read.
    pub open spec fn raw_read(self) -> Seq<Insn> {
        match self.arch() {
            Arch::X86 => x86::raw_read(),
            Arch::Aarch64 => aarch64::bare_read(self.choice.physical),
            Arch::PowerPc => powerpc::bare_read(self.wide()),
            Arch::RiscV => riscv::bare_read(self.wide()),
            Arch::Arm32 => arm32::bare_read(self.timer),
            Arch::Portable => seq![Insn::Monotonic],
        }
    }

    /// The ordered read an interval starts with.
    pub open spec fn start_read(self) -> Seq<Insn> {
        match self.arch() {
            Arch::X86 => x86::lfence_read(),
            Arch::Aarch64 => aarch64::isb_read(self.choice.physical),
            Arch::PowerPc => powerpc::start_read(self.wide()),
            Arch::RiscV => riscv::start_read(self.wide()),
            Arch::Arm32 => arm32::isb_read(self.target.v7, self.timer),
            Arch::Portable => seq![Insn::Monotonic],
        }
    }

    /// The ordered read an interval ends with.
    pub open spec fn end_read(self) -> Seq<Insn> {
        match self.arch() {
            Arch::X86 => x86::portable_end(self.cpuid.rdtscp()),
            Arch::Aarch64 => aarch64::isb_read(self.choice.physical),
            Arch::PowerPc => powerpc::end_read(self.wide()),
            Arch::RiscV => riscv::end_read(self.wide()),
            Arch::Arm32 => arm32::isb_read(self.target.v7, self.timer),
            Arch::Portable => seq![Insn::Monotonic],
        }
    }

    /// Barriers between two reads.
    pub open spec fn barrier_probe(self, iterations: u32) -> Seq<Insn> {
        match self.arch() {
            Arch::X86 => x86::barrier_probe(iterations, self.cpuid.rdtscp()),
            Arch::Aarch64 => aarch64::barrier_probe(iterations),
            Arch::PowerPc => powerpc::barrier_probe(self.wide(), iterations),
            Arch::RiscV => riscv::barrier_probe(self.wide(), iterations),
            Arch::Arm32 => arm32::barrier_probe(self.target.v7, self.timer, iterations),
            Arch::Portable => insn::bracketed(
                seq![Insn::Monotonic],
                Insn::FullFence,
                iterations,
                seq![Insn::Monotonic],
            ),
        }
    }

    /// Whether one instruction can be executed here: it belongs to the
    /// processor's family, and what it needs beyond that is there.
    pub open spec fn executes(self, insn: Insn) -> bool {
        let arch = self.arch();
        match insn {
            Insn::Cpuid | Insn::Lfence | Insn::Mfence | Insn::Pause | Insn::Rdtsc => arch is X86,
            Insn::Rdtscp => arch is X86 && self.cpuid.rdtscp(),
            Insn::DsbSy | Insn::DmbSy | Insn::Yield => arch is Aarch64,
            Insn::Cntpct => arch is Aarch64 && self.choice.physical,
            Insn::Isb => arch is Aarch64 || (arch is Arm32 && self.target.v7),
            Insn::Dmb => arch is Arm32 && self.target.v7,
            Insn::Cntvct => arch is Aarch64 || (arch is Arm32 && self.timer is Some),
            Insn::Isync | Insn::Sync | Insn::LowPriority => arch is PowerPc,
            Insn::Timebase => arch is PowerPc && self.wide(),
            Insn::TimebaseUpper | Insn::TimebaseLower => arch is PowerPc,
            Insn::Fence | Insn::RiscvPause => arch is RiscV,
            Insn::Time => arch is RiscV && self.wide(),
            Insn::TimeUpper | Insn::TimeLower => arch is RiscV && !self.wide(),
            Insn::Clflush | Insn::PrefetchT0 => arch is X86,
            Insn::PrefetchKeep => arch is Aarch64,
            Insn::Touch => arch is PowerPc,
            // Whether these are let through is the level above's to say.
            Insn::Cycle | Insn::CycleUpper | Insn::CycleLower => false,
            Insn::Instret | Insn::InstretUpper | Insn::InstretLower => false,
            Insn::VectorLoad | Insn::VectorXor => self.target.simd,
            Insn::Load | Insn::Store => true,
            Insn::Monotonic | Insn::FullFence | Insn::SpinHint => true,
        }
    }

    pub open spec fn executes_all(self, plan: Seq<Insn>) -> bool {
        forall|i: int| 0 <= i < plan.len() ==> self.executes(#[trigger] plan[i])
    }

    fn is_wide(&self) -> (wide: bool)
        ensures
            wide == self.wide(),
    {
        matches!(self.target.machine, Machine::PowerPcWide | Machine::RiscVWide)
    }
}

fn monotonic() -> (plan: Vec<Insn>)
    ensures
        plan@ == seq![Insn::Monotonic],
{
    let plan: Vec<Insn> = vec![Insn::Monotonic];
    assert(plan@ =~= seq![Insn::Monotonic]);
    plan
}

/// Cheapest counter read, with no ordering guarantee.
pub fn counter_raw(host: &CounterHost) -> (plan: Vec<Insn>)
    ensures
        plan@ == host.raw_read(),
{
    match Arch::of(host.target.machine) {
        Arch::X86 => x86::rdtsc_raw(),
        Arch::Aarch64 => host.choice.counter_raw(),
        Arch::PowerPc => powerpc::timebase_raw(host.is_wide()),
        Arch::RiscV => riscv::rdtime_raw(host.is_wide()),
        Arch::Arm32 => arm32::counter_raw(host.timer),
        Arch::Portable => monotonic(),
    }
}

/// Ordered counter read for the start of an interval.
pub fn counter_start(host: &CounterHost) -> (plan: Vec<Insn>)
    ensures
        plan@ == host.start_read(),
{
    match Arch::of(host.target.machine) {
        Arch::X86 => x86::rdtsc_lfence(),
        Arch::Aarch64 => host.choice.counter_isb(),
        Arch::PowerPc => powerpc::timebase_start(host.is_wide()),
        Arch::RiscV => riscv::rdtime_start(host.is_wide()),
        Arch::Arm32 => arm32::counter_isb(host.target.v7, host.timer),
        Arch::Portable => monotonic(),
    }
}

/// Ordered counter read for the end of an interval. On x86 it differs from
/// the start read on purpose: it also waits for older instructions.
pub fn counter_end(host: &CounterHost) -> (plan: Vec<Insn>)
    ensures
        plan@ == host.end_read(),
{
    match Arch::of(host.target.machine) {
        Arch::X86 => x86::tsc_end_portable(&host.cpuid),
        Arch::Aarch64 => host.choice.counter_isb(),
        Arch::PowerPc => powerpc::timebase_end(host.is_wide()),
        Arch::RiscV => riscv::rdtime_end(host.is_wide()),
        Arch::Arm32 => arm32::counter_isb(host.target.v7, host.timer),
        Arch::Portable => monotonic(),
    }
}

/// [`counter_end`], for callers that read it as "now".
pub fn counter_ordered(host: &CounterHost) -> (plan: Vec<Insn>)
    ensures
        plan@ == host.end_read(),
{
    counter_end(host)
}

/// The core the last read came from, where the processor says: what `RDTSCP`
/// left in its auxiliary register.
pub fn counter_aux(host: &CounterHost, aux: u32) -> (core: Option<u32>)
    ensures
        core == (if host.arch() is X86 && host.cpuid.rdtscp() {
            Some(aux)
        } else {
            None
        }),
{
    if host.target.machine.is_x86() {
        x86::tsc_aux_checked(&host.cpuid, aux)
    } else {
        None
    }
}

/// The reads whose distance is the cost of reading: on AArch64 always of the
/// virtual counter.
pub open spec fn floor_reads(host: CounterHost) -> (Seq<Insn>, Seq<Insn>) {
    if host.arch() is Aarch64 {
        (aarch64::isb_read(false), aarch64::isb_read(false))
    } else {
        (host.start_read(), host.end_read())
    }
}

/// Plans the back-to-back reads whose distance is the measurement floor.
pub fn read_overhead_plan(host: &CounterHost) -> (plans: (Vec<Insn>, Vec<Insn>))
    ensures
        (plans.0@, plans.1@) == floor_reads(*host),
{
    if matches!(host.target.machine, Machine::Aarch64) {
        (aarch64::cntvct_isb(), aarch64::cntvct_isb())
    } else {
        (counter_start(host), counter_end(host))
    }
}

/// Cost of a back-to-back pair of reads, in raw units.
pub fn read_overhead(first: u64, second: u64) -> (units: u64)
    ensures
        units == insn::forward(first, second),
{
    between_forward(first, second)
}

/// Plans `iterations` back-to-back memory barriers between two reads.
pub fn barrier_overhead_plan(host: &CounterHost, iterations: u32) -> (plan: Vec<Insn>)
    ensures
        plan@ == host.barrier_probe(iterations),
{
    match Arch::of(host.target.machine) {
        Arch::X86 => x86::probe_barrier_plan(&host.cpuid, iterations),
        Arch::Aarch64 => aarch64::probe_barrier_plan(iterations),
        Arch::PowerPc => powerpc::probe_barrier_plan(host.is_wide(), iterations),
        Arch::RiscV => riscv::probe_barrier_plan(host.is_wide(), iterations),
        Arch::Arm32 => arm32::probe_barrier_plan(host.target.v7, host.timer, iterations),
        Arch::Portable => bracket(monotonic(), Insn::FullFence, iterations, monotonic()),
    }
}

/// Cost of the barriers between the two reads, in raw units.
pub fn barrier_overhead(start: u64, end: u64) -> (units: u64)
    ensures
        units == insn::elapsed(start, end),
{
    between(start, end)
}

/// The spin hint of each family.
pub open spec fn spin_hint(arch: Arch) -> Insn {
    match arch {
        Arch::X86 => Insn::Pause,
        Arch::Aarch64 => Insn::Yield,
        Arch::PowerPc => Insn::LowPriority,
        Arch::RiscV => Insn::RiscvPause,
        Arch::Arm32 => Insn::SpinHint,
        Arch::Portable => Insn::SpinHint,
    }
}

/// Spin hint for calibration loops.
pub fn cpu_relax(machine: Machine) -> (insn: Insn)
    ensures
        insn == spin_hint(Arch::family(machine)),
{
    match Arch::of(machine) {
        Arch::X86 => Insn::Pause,
        Arch::Aarch64 => Insn::Yield,
        Arch::PowerPc => Insn::LowPriority,
        Arch::RiscV => Insn::RiscvPause,
        Arch::Arm32 => Insn::SpinHint,
        Arch::Portable => Insn::SpinHint,
    }
}

/// The full memory barrier of each family.
pub open spec fn full_barrier(target: Target) -> Insn {
    match Arch::family(target.machine) {
        Arch::X86 => Insn::Mfence,
        Arch::Aarch64 => Insn::DmbSy,
        Arch::PowerPc => Insn::Sync,
        Arch::RiscV => Insn::Fence,
        Arch::Arm32 => arm32::barrier(target.v7),
        Arch::Portable => Insn::FullFence,
    }
}

/// Full memory barrier.
pub fn memory_barrier(target: &Target) -> (insn: Insn)
    ensures
        insn == full_barrier(*target),
{
    match Arch::of(target.machine) {
        Arch::X86 => Insn::Mfence,
        Arch::Aarch64 => Insn::DmbSy,
        Arch::PowerPc => Insn::Sync,
        Arch::RiscV => Insn::Fence,
        Arch::Arm32 => arm32::dmb(target.v7),
        Arch::Portable => Insn::FullFence,
    }
}

// ---------------------------------------------------------------------------
// Virtual or physical counter
// ---------------------------------------------------------------------------

/// Which of the architecture's fixed-rate counters the reads use. Only
/// AArch64 offers the choice.
#[derive(Debug, Clone, Copy, PartialEq, Eq, Structural)]
pub enum CounterSource {
    Virtual,
    Physical,
}

impl CounterSource {
    pub open spec fn label(self, machine: Machine) -> Seq<char> {
        match (self, machine) {
            (CounterSource::Virtual, Machine::Aarch64) => "cntvct_el0"@,
            (CounterSource::Physical, Machine::Aarch64) => "cntpct_el0"@,
            (CounterSource::Virtual, _) => "architectural counter"@,
            (CounterSource::Physical, _) => "physical counter (unavailable)"@,
        }
    }

    /// The register's name on this processor.
    pub fn name(self, machine: Machine) -> (name: &'static str)
        ensures
            name@ == self.label(machine),
    {
        match (self, machine) {
            (CounterSource::Virtual, Machine::Aarch64) => "cntvct_el0",
            (CounterSource::Physical, Machine::Aarch64) => "cntpct_el0",
            (CounterSource::Virtual, _) => "architectural counter",
            (CounterSource::Physical, _) => "physical counter (unavailable)",
        }
    }
}

/// Why the physical counter could not be selected.
#[derive(Debug, Clone, Copy, PartialEq, Eq, Structural)]
pub enum CounterSourceError {
    /// This processor has no separate physical counter.
    NoPhysicalCounter,
    /// The system does not let this process read it.
    NotPermitted,
}

impl CounterSourceError {
    pub open spec fn text(self) -> Seq<char> {
        match self {
            CounterSourceError::NoPhysicalCounter =>
                "this architecture has no separate physical counter (only AArch64 does)"@,
            CounterSourceError::NotPermitted =>
                "the operating system does not let this process read CNTPCT_EL0"@,
        }
    }

    /// The error in words.
    pub fn message(self) -> (text: &'static str)
        ensures
            text@ == self.text(),
    {
        match self {
            CounterSourceError::NoPhysicalCounter =>
                "this architecture has no separate physical counter (only AArch64 does)",
            CounterSourceError::NotPermitted =>
                "the operating system does not let this process read CNTPCT_EL0",
        }
    }
}

/// The warning every interface shows next to the setting.
pub const PHYSICAL_COUNTER_WARNING: &'static str =
    "The physical counter (CNTPCT_EL0) is for timing on real hardware. Inside a virtual machine the hypervisor may trap every read, and under nested virtualization that trap passes through two hypervisors: slow and unstable. Use it on bare metal, not in VMs.";

/// Whether this processor has a physical counter to choose.
pub fn has_physical_counter(machine: Machine) -> (has: bool)
    ensures
        has == (machine is Aarch64),
{
    matches!(machine, Machine::Aarch64)
}

/// The counter the reads use.
pub open spec fn source_of(machine: Machine, choice: CounterChoice) -> CounterSource {
    if machine is Aarch64 && choice.physical {
        CounterSource::Physical
    } else {
        CounterSource::Virtual
    }
}

/// The counter the reads currently use.
pub fn counter_source(machine: Machine, choice: &CounterChoice) -> (source: CounterSource)
    ensures
        source == source_of(machine, *choice),
{
    if matches!(machine, Machine::Aarch64) && choice.physical_selected() {
        CounterSource::Physical
    } else {
        CounterSource::Virtual
    }
}

/// Selects the counter every read uses. The physical one only where the
/// process was shown that it may read it; a refusal changes nothing.
pub fn set_counter_source(
    machine: Machine,
    probe: PermissionProbe,
    choice: &mut CounterChoice,
    source: CounterSource,
) -> (selected: Result<(), CounterSourceError>)
    ensures
        selected == (if source is Virtual || (machine is Aarch64 && probe.permits()) {
            Ok::<(), CounterSourceError>(())
        } else if machine is Aarch64 {
            Err(CounterSourceError::NotPermitted)
        } else {
            Err(CounterSourceError::NoPhysicalCounter)
        }),
        *final(choice) == (if machine is Aarch64 && selected is Ok {
            CounterChoice { physical: source is Physical }
        } else {
            *old(choice)
        }),
{
    let physical: bool = matches!(source, CounterSource::Physical);
    if matches!(machine, Machine::Aarch64) {
        if physical && !aarch64::physical_permitted(probe) {
            return Err(CounterSourceError::NotPermitted);
        }
        choice.select_physical(physical);
        Ok(())
    } else if physical {
        Err(CounterSourceError::NoPhysicalCounter)
    } else {
        Ok(())
    }
}

/// What one read of each counter costs, and whether the physical one looks
/// trapped.
#[derive(Debug, Clone, Copy, PartialEq, Eq, Structural)]
pub struct PhysicalCounterCheck {
    pub virtual_read_ns: u64,
    pub physical_read_ns: u64,
    /// The physical read costs over a hundred nanoseconds and ten times the
    /// virtual one: every read is an exit to a hypervisor or a trap.
    pub trapped: bool,
}

/// Judges what both counters cost, if the physical one may be read here.
pub fn physical_counter_check(
    machine: Machine,
    probe: PermissionProbe,
    virtual_read_ns: u64,
    physical_read_ns: u64,
) -> (check: Option<PhysicalCounterCheck>)
    ensures
        check == (if machine is Aarch64 && probe.permits() {
            Some(
                PhysicalCounterCheck {
                    virtual_read_ns,
                    physical_read_ns,
                    trapped: physical_read_ns > 100 && physical_read_ns > 10 * virtual_read_ns,
                },
            )
        } else {
            None
        }),
{
    if matches!(machine, Machine::Aarch64) && aarch64::physical_permitted(probe) {
        Some(
            PhysicalCounterCheck {
                virtual_read_ns,
                physical_read_ns,
                trapped: physical_read_ns > 100 && physical_read_ns as u128 > 10
                    * virtual_read_ns as u128,
            },
        )
    } else {
        None
    }
}

/// The rate the hardware states for its counter.
pub open spec fn declared_rate(
    machine: Machine,
    cntfrq: u64,
    timebase: Option<u64>,
    timer: Option<u32>,
) -> Option<u64> {
    match Arch::family(machine) {
        Arch::Aarch64 => if cntfrq > 0 {
            Some(cntfrq)
        } else {
            None
        },
        Arch::PowerPc => timebase,
        Arch::RiscV => timebase,
        Arch::Arm32 => arm32::rate_of(timer),
        Arch::X86 => None,
        Arch::Portable => None,
    }
}

/// Native tick rate of the architectural counter, where it is stated. x86
/// states none, so there it has to be measured.
pub fn declared_counter_hz(
    machine: Machine,
    cntfrq: u64,
    timebase: Option<u64>,
    timer: Option<u32>,
) -> (hz: Option<u64>)
    ensures
        hz == declared_rate(machine, cntfrq, timebase, timer),
{
    match Arch::of(machine) {
        Arch::Aarch64 => if cntfrq > 0 {
            Some(cntfrq)
        } else {
            None
        },
        Arch::PowerPc => timebase,
        Arch::RiscV => timebase,
        Arch::Arm32 => arm32::counter_hz(timer),
        _ => None,
    }
}

proof fn lemma_brackets_execute(
    host: CounterHost,
    start: Seq<Insn>,
    barrier: Insn,
    iterations: u32,
    end: Seq<Insn>,
)
    requires
        host.executes_all(start),
        host.executes(barrier),
        host.executes_all(end),
    ensures
        host.executes_all(insn::bracketed(start, barrier, iterations, end)),
{
    let plan = insn::bracketed(start, barrier, iterations, end);
    let n: int = if iterations == 0 {
        1
    } else {
        iterations as int
    };
    assert forall|i: int| 0 <= i < plan.len() implies host.executes(#[trigger] plan[i]) by {
        if i < start.len() {
            assert(plan[i] == start[i]);
        } else if i < start.len() + n {
            assert(plan[i] == barrier);
        } else {
            assert(plan[i] == end[i - start.len() - n]);
        }
    }
}

proof fn lemma_reads_execute(host: CounterHost)
    ensures
        host.executes_all(host.raw_read()),
        host.executes_all(host.start_read()),
        host.executes_all(host.end_read()),
{
    match host.arch() {
        Arch::X86 => {},
        Arch::Aarch64 => {},
        Arch::PowerPc => {},
        Arch::RiscV => {},
        Arch::Arm32 => {},
        Arch::Portable => {},
    }
}

/// Whatever the processor, everything that is planned for it can be executed
/// on it.
pub proof fn planned_reads_can_be_executed(host: CounterHost, iterations: u32)
    ensures
        host.executes_all(host.raw_read()),
        host.executes_all(host.start_read()),
        host.executes_all(host.end_read()),
        host.executes_all(host.barrier_probe(iterations)),
        host.executes_all(floor_reads(host).0),
        host.executes_all(floor_reads(host).1),
        host.executes(spin_hint(host.arch())),
        host.executes(full_barrier(host.target)),
{
    lemma_reads_execute(host);
    let barrier = match host.arch() {
        Arch::X86 => Insn::Lfence,
        Arch::Aarch64 => Insn::DmbSy,
        Arch::PowerPc => Insn::Sync,
        Arch::RiscV => Insn::Fence,
        Arch::Arm32 => arm32::barrier(host.target.v7),
        Arch::Portable => Insn::FullFence,
    };
    let reads = floor_reads(host);
    assert(host.executes_all(reads.0) && host.executes_all(reads.1));
    lemma_brackets_execute(host, reads.0, barrier, iterations, reads.1);
}

/// Selecting a counter and asking for it give the same answer, and the
/// virtual one can always be selected.
pub proof fn selection_takes_effect(machine: Machine, choice: CounterChoice)
    ensures
        source_of(machine, CounterChoice { physical: false }) is Virtual,
        machine is Aarch64 ==> source_of(machine, CounterChoice { physical: true }) is Physical,
        !(machine is Aarch64) ==> source_of(machine, choice) is Virtual,
{
}

} // verus!
