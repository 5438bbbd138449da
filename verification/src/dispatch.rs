//! Picks the widest usable implementation of everything, once.
//!
//! Nothing is selected that detection did not confirm, and an override is
//! held to the same test: one that cannot be met falls back, with a recorded
//! reason, instead of being trusted.
use crate::arch::insn::Insn;
use crate::arch::{aarch64, arm32, counter_end, counter_start, insn, powerpc, riscv, x86};
use crate::arch::{Arch, CounterHost};
use crate::backend::Backend;
use crate::clock::{ClockRoute, RouteHost};
use crate::cpu::CpuFeatures;
use crate::hypervisor::HypervisorReport;
use crate::machine::{Machine, Target};
use crate::simd::SimdCatalogue;
use crate::text::{chars_of, push_text, string_of, trim, Trim};
use vstd::prelude::*;

verus! {

/// Why the dispatcher ended up with the selection it did.
#[derive(Debug, Clone, Copy, PartialEq, Eq, Structural)]
pub enum SelectionReason {
    /// Widest family the processor and the system both support.
    Detected,
    /// An override was accepted.
    Overridden,
    /// An override was asked for that the machine cannot run.
    OverrideRejected,
    /// Nothing wider was available.
    Fallback,
}

impl SelectionReason {
    pub open spec fn label(self) -> Seq<char> {
        match self {
            SelectionReason::Detected => "detected"@,
            SelectionReason::Overridden => "overridden"@,
            SelectionReason::OverrideRejected => "override-rejected"@,
            SelectionReason::Fallback => "fallback"@,
        }
    }

    /// The reason, as reports print it.
    pub fn name(self) -> (name: &'static str)
        ensures
            name@ == self.label(),
    {
        match self {
            SelectionReason::Detected => "detected",
            SelectionReason::Overridden => "overridden",
            SelectionReason::OverrideRejected => "override-rejected",
            SelectionReason::Fallback => "fallback",
        }
    }
}

/// One loop of bare cryptographic instructions.
#[derive(Debug, Clone, PartialEq, Eq)]
pub struct CryptoKernel {
    pub name: String,
    /// Whether the processor has the instructions.
    pub available: bool,
    /// Whether this build carries the loop.
    pub built: bool,
}

/// What a machine offers to choose from.
#[derive(Debug)]
pub struct Offer {
    pub features: CpuFeatures,
    pub counter: CounterHost,
    /// Whether the kernel hands out cycle counts.
    pub perf: bool,
    pub simd: SimdCatalogue,
    pub crypto: Vec<CryptoKernel>,
}

/// What an operator asked for, as the environment holds it.
#[derive(Debug, Clone, PartialEq, Eq)]
pub struct Overrides {
    pub backend: Option<String>,
    pub simd: Option<String>,
    pub route: Option<String>,
}

/// What running a kernel comes to.
#[derive(Debug, Clone, Copy, PartialEq, Eq, Structural)]
pub enum KernelRun {
    /// The scalar loop, and the word it ended with.
    Scalar { word: u64 },
    /// A vector loop, for the processor to run.
    Vector { backend: Backend, loops: usize },
    /// A loop of cryptographic instructions, for the processor to run.
    Crypto { kernel: usize, loops: usize },
}

/// The word the scalar loop of a processor ends with.
pub open spec fn scalar_word(machine: Machine, loops: usize) -> u64 {
    if machine.x86() {
        x86::scalar_rounds(loops as nat) as u64
    } else {
        insn::scalar_rounds(loops as nat)
    }
}

/// Runs the scalar loop of a processor.
pub fn scalar_kernel(machine: Machine, loops: usize) -> (word: u64)
    ensures
        word == scalar_word(machine, loops),
{
    match Arch::of(machine) {
        Arch::X86 => x86::kernel_scalar(loops),
        Arch::Aarch64 => aarch64::kernel_scalar(loops),
        Arch::PowerPc => powerpc::kernel_scalar(loops),
        Arch::RiscV => riscv::kernel_scalar(loops),
        Arch::Arm32 => arm32::kernel_scalar(loops),
        Arch::Portable => insn::scalar_kernel(loops),
    }
}

/// What a backend's kernel comes to.
pub open spec fn kernel_of(machine: Machine, backend: Backend, loops: usize) -> KernelRun {
    if backend is Legacy {
        KernelRun::Scalar { word: scalar_word(machine, loops) }
    } else {
        KernelRun::Vector { backend, loops }
    }
}

/// What a backend's kernel comes to.
pub fn resolve_kernel(machine: Machine, backend: Backend, loops: usize) -> (run: KernelRun)
    ensures
        run == kernel_of(machine, backend, loops),
{
    match backend {
        Backend::Legacy => KernelRun::Scalar { word: scalar_kernel(machine, loops) },
        _ => KernelRun::Vector { backend, loops },
    }
}

/// The words of an override, or nothing where there are none.
pub open spec fn asked(value: Option<String>) -> Option<Seq<char>> {
    match value {
        Some(text) => {
            let words = crate::text::trimmed(text@, Trim::Space);
            if words.len() > 0 {
                Some(words)
            } else {
                None
            }
        },
        None => None,
    }
}

fn env_var(value: &Option<String>) -> (words: Option<String>)
    ensures
        match words {
            Some(words) => asked(*value) == Some(words@),
            None => asked(*value) is None,
        },
{
    match value {
        Some(text) => {
            let chars: Vec<char> = chars_of(text.as_str());
            let words: &[char] = trim(chars.as_slice(), Trim::Space);
            if words.len() > 0 {
                Some(string_of(words))
            } else {
                None
            }
        },
        None => None,
    }
}

/// The backend, and why. An override that names no backend is reported as
/// one that cannot be run is.
pub open spec fn backend_choice(f: CpuFeatures, target: Target, value: Option<String>) -> (
    Backend,
    SelectionReason,
) {
    let best = Backend::widest(f, target);
    match asked(value) {
        Some(words) => match crate::backend::named(crate::backend::plain_name(words)) {
            Some(b) => if b.available(f, target) {
                (b, SelectionReason::Overridden)
            } else {
                (best, SelectionReason::OverrideRejected)
            },
            None => (best, SelectionReason::OverrideRejected),
        },
        None => if best is Legacy && !f.sse2 {
            (best, SelectionReason::Fallback)
        } else {
            (best, SelectionReason::Detected)
        },
    }
}

/// Selects the backend: an override that can be run, or the widest family.
pub fn select_backend(f: &CpuFeatures, target: &Target, value: &Option<String>) -> (choice: (
    Backend,
    SelectionReason,
))
    ensures
        choice == backend_choice(*f, *target, *value),
{
    match env_var(value) {
        Some(words) => {
            match Backend::parse(words.as_str()) {
                Some(b) => {
                    if b.is_available(f, target) {
                        return (b, SelectionReason::Overridden);
                    }
                },
                None => {},
            }
            (Backend::best(f, target), SelectionReason::OverrideRejected)
        },
        None => {
            let best: Backend = Backend::best(f, target);
            if matches!(best, Backend::Legacy) && !f.sse2 {
                (best, SelectionReason::Fallback)
            } else {
                (best, SelectionReason::Detected)
            }
        },
    }
}

/// The SIMD family, and why.
pub open spec fn simd_choice(simd: SimdCatalogue, value: Option<String>) -> (
    Option<usize>,
    SelectionReason,
) {
    match asked(value) {
        Some(words) => match simd.place(words) {
            Some(i) => if simd.families@[i].available {
                (Some(i as usize), SelectionReason::Overridden)
            } else {
                (simd.preferred(), SelectionReason::OverrideRejected)
            },
            None => (simd.preferred(), SelectionReason::OverrideRejected),
        },
        None => (
            simd.preferred(),
            if simd.preferred() is Some {
                SelectionReason::Detected
            } else {
                SelectionReason::Fallback
            },
        ),
    }
}

/// Selects the SIMD family: an override that can be run, or the widest.
pub fn select_simd(simd: &SimdCatalogue, value: &Option<String>) -> (choice: (
    Option<usize>,
    SelectionReason,
))
    ensures
        choice == simd_choice(*simd, *value),
{
    match env_var(value) {
        Some(words) => {
            match simd.find(words.as_str()) {
                Some(i) => {
                    if simd.is_available(i) {
                        return (Some(i), SelectionReason::Overridden);
                    }
                },
                None => {},
            }
            (simd.best(), SelectionReason::OverrideRejected)
        },
        None => match simd.best() {
            Some(i) => (Some(i), SelectionReason::Detected),
            None => (None, SelectionReason::Fallback),
        },
    }
}

/// The clock route, and why.
pub open spec fn route_choice(host: RouteHost, value: Option<String>) -> (
    ClockRoute,
    SelectionReason,
) {
    let best = host.best_route();
    match asked(value) {
        Some(words) => match ClockRoute::first_of(ClockRoute::every(), words) {
            Some(r) => if r.available(host) {
                (r, SelectionReason::Overridden)
            } else {
                (best, SelectionReason::OverrideRejected)
            },
            None => (best, SelectionReason::OverrideRejected),
        },
        None => (
            best,
            if best is MonotonicNs {
                SelectionReason::Fallback
            } else {
                SelectionReason::Detected
            },
        ),
    }
}

/// Selects the clock route: an override that exists here, or the best.
pub fn select_route(host: &RouteHost, value: &Option<String>) -> (choice: (
    ClockRoute,
    SelectionReason,
))
    ensures
        choice == route_choice(*host, *value),
{
    match env_var(value) {
        Some(words) => {
            match ClockRoute::find(words.as_str()) {
                Some(r) => {
                    if r.is_available(host) {
                        return (r, SelectionReason::Overridden);
                    }
                },
                None => {},
            }
            (ClockRoute::best(host), SelectionReason::OverrideRejected)
        },
        None => {
            let best: ClockRoute = ClockRoute::best(host);
            if matches!(best, ClockRoute::MonotonicNs) {
                (best, SelectionReason::Fallback)
            } else {
                (best, SelectionReason::Detected)
            }
        },
    }
}

/// The resolved selection.
#[derive(Debug)]
pub struct Dispatcher {
    pub features: CpuFeatures,
    pub host: RouteHost,
    pub catalogue: SimdCatalogue,
    pub crypto: Vec<CryptoKernel>,
    pub backend: Backend,
    pub backend_reason: SelectionReason,
    /// The place of the selected SIMD family in the catalogue.
    pub simd: Option<usize>,
    pub simd_reason: SelectionReason,
    pub route: ClockRoute,
    pub route_reason: SelectionReason,
}

/// The backends of a list that can be run, as a report names them: separated
/// by spaces. And whether there was one.
pub open spec fn runnable_names(list: Seq<Backend>, f: CpuFeatures, target: Target) -> (
    Seq<char>,
    bool,
)
    decreases list.len(),
{
    if list.len() == 0 {
        (Seq::empty(), false)
    } else {
        let (before, any) = runnable_names(list.drop_last(), f, target);
        if !list.last().available(f, target) {
            (before, any)
        } else if any {
            (before + " "@ + list.last().label(), true)
        } else {
            (before + list.last().label(), true)
        }
    }
}

fn push_runnable(out: &mut String, f: &CpuFeatures, target: &Target)
    ensures
        final(out)@ == old(out)@ + runnable_names(Backend::every(), *f, *target).0,
{
    let all: Vec<Backend> = Backend::all();
    let ghost start = out@;
    let mut any: bool = false;
    let mut i: usize = 0;
    assert(all@.take(0) =~= Seq::empty());
    assert(out@ =~= start + Seq::<char>::empty());
    while i < all.len()
        invariant
            i <= all.len(),
            all@ == Backend::every(),
            any == runnable_names(all@.take(i as int), *f, *target).1,
            out@ == start + runnable_names(all@.take(i as int), *f, *target).0,
        decreases all.len() - i,
    {
        let b: Backend = all[i];
        let ghost before = runnable_names(all@.take(i as int), *f, *target).0;
        assert(all@.take(i + 1).drop_last() =~= all@.take(i as int));
        assert(all@.take(i + 1).last() == b);
        if b.is_available(f, target) {
            if any {
                push_text(out, " ");
            }
            push_text(out, b.name());
            assert(out@ =~= start + (before + (if any {
                " "@
            } else {
                Seq::empty()
            }) + b.label()));
            assert(before + Seq::<char>::empty() =~= before);
            any = true;
        }
        i = i + 1;
    }
    assert(all@.take(i as int) =~= all@);
}

fn push_bool(out: &mut String, value: bool)
    ensures
        final(out)@ == old(out)@ + bool_text(value),
{
    push_text(
        out,
        if value {
            "true"
        } else {
            "false"
        },
    );
}

/// A truth value in words.
pub open spec fn bool_text(value: bool) -> Seq<char> {
    if value {
        "true"@
    } else {
        "false"@
    }
}

impl Dispatcher {
    /// Whether this is what an offer and some overrides resolve to.
    pub open spec fn resolves(self, offer: Offer, overrides: Overrides) -> bool {
        &&& self.features == offer.features
        &&& self.host == (RouteHost {
            counter: offer.counter,
            perf: offer.perf,
            simd: offer.simd.preferred() is Some,
        })
        &&& self.catalogue == offer.simd
        &&& self.crypto == offer.crypto
        &&& (self.backend, self.backend_reason) == backend_choice(
            offer.features,
            offer.counter.target,
            overrides.backend,
        )
        &&& (self.simd, self.simd_reason) == simd_choice(offer.simd, overrides.simd)
        &&& (self.route, self.route_reason) == route_choice(self.host, overrides.route)
    }

    /// Whether everything that was selected can be run.
    pub open spec fn runnable(self) -> bool {
        &&& self.backend.available(self.features, self.host.counter.target)
        &&& (self.simd matches Some(i) ==> self.catalogue.runs(i))
        &&& self.route.available(self.host)
    }

    /// Selects from what a machine offers.
    pub fn resolve(offer: Offer, overrides: &Overrides) -> (table: Dispatcher)
        ensures
            table.resolves(offer, *overrides),
            table.runnable(),
    {
        let (backend, backend_reason): (Backend, SelectionReason) = select_backend(
            &offer.features,
            &offer.counter.target,
            &overrides.backend,
        );
        let (simd, simd_reason): (Option<usize>, SelectionReason) = select_simd(
            &offer.simd,
            &overrides.simd,
        );
        let best_simd: Option<usize> = offer.simd.best();
        let host: RouteHost = RouteHost {
            counter: offer.counter,
            perf: offer.perf,
            simd: best_simd.is_some(),
        };
        let (route, route_reason): (ClockRoute, SelectionReason) = select_route(
            &host,
            &overrides.route,
        );
        let table: Dispatcher = Dispatcher {
            features: offer.features,
            host,
            catalogue: offer.simd,
            crypto: offer.crypto,
            backend,
            backend_reason,
            simd,
            simd_reason,
            route,
            route_reason,
        };
        proof {
            selections_can_be_run(offer, *overrides, table.host);
        }
        table
    }

    /// The one table of a process: what was resolved first stays.
    pub fn global(kept: Option<Dispatcher>, offer: Offer, overrides: &Overrides) -> (table:
        Dispatcher)
        ensures
            match kept {
                Some(first) => table == first,
                None => table.resolves(offer, *overrides) && table.runnable(),
            },
    {
        match kept {
            Some(first) => first,
            None => Dispatcher::resolve(offer, overrides),
        }
    }

    /// Features detected on this machine.
    pub fn features(&self) -> (features: &CpuFeatures)
        ensures
            *features == self.features,
    {
        &self.features
    }

    /// The selected timer backend.
    pub fn backend(&self) -> (backend: Backend)
        ensures
            backend == self.backend,
    {
        self.backend
    }

    /// The selected SIMD family, by its place in the catalogue.
    pub fn simd_family(&self) -> (family: Option<usize>)
        ensures
            family == self.simd,
    {
        self.simd
    }

    /// The selected clock route.
    pub fn clock_route(&self) -> (route: ClockRoute)
        ensures
            route == self.route,
    {
        self.route
    }

    /// Ordered counter read for the start of an interval.
    pub fn counter_start(&self) -> (plan: Vec<Insn>)
        ensures
            plan@ == self.host.counter.start_read(),
    {
        counter_start(&self.host.counter)
    }

    /// Ordered counter read for the end of an interval.
    pub fn counter_end(&self) -> (plan: Vec<Insn>)
        ensures
            plan@ == self.host.counter.end_read(),
    {
        counter_end(&self.host.counter)
    }

    /// Runs the kernel of the selected backend.
    pub fn run_kernel(&self, loops: usize) -> (run: KernelRun)
        ensures
            run == kernel_of(self.host.counter.target.machine, self.backend, loops),
    {
        resolve_kernel(self.host.counter.target.machine, self.backend, loops)
    }

    /// Runs the kernel of one backend, or `None` where it cannot be run here.
    pub fn run_kernel_for(&self, backend: Backend, loops: usize) -> (run: Option<KernelRun>)
        ensures
            run == (if backend.available(self.features, self.host.counter.target) {
                Some(kernel_of(self.host.counter.target.machine, backend, loops))
            } else {
                None
            }),
    {
        if !backend.is_available(&self.features, &self.host.counter.target) {
            return None;
        }
        Some(resolve_kernel(self.host.counter.target.machine, backend, loops))
    }

    /// What running one loop of cryptographic instructions comes to, or `None`
    /// where it cannot be run here.
    pub open spec fn crypto_kernel_of(self, kernel: usize, loops: usize) -> Option<KernelRun> {
        if kernel < self.crypto@.len() && self.crypto@[kernel as int].available
            && self.crypto@[kernel as int].built {
            Some(KernelRun::Crypto { kernel, loops })
        } else {
            None
        }
    }

    /// Whether one loop of cryptographic instructions may be run: which one,
    /// and how often, or `None` where it cannot be run here.
    pub fn run_crypto_kernel(&self, kernel: usize, loops: usize) -> (run: Option<KernelRun>)
        ensures
            run == self.crypto_kernel_of(kernel, loops),
    {
        if kernel < self.crypto.len() && self.crypto[kernel].available && self.crypto[kernel].built {
            Some(KernelRun::Crypto { kernel, loops })
        } else {
            None
        }
    }

    /// Every crypto loop, and whether it can be run here.
    pub fn crypto_matrix(&self) -> (matrix: Vec<(usize, bool)>)
        ensures
            matrix@ == Seq::new(
                self.crypto@.len(),
                |i: int| (i as usize, self.crypto@[i].available),
            ),
    {
        let mut matrix: Vec<(usize, bool)> = Vec::new();
        let mut i: usize = 0;
        while i < self.crypto.len()
            invariant
                i <= self.crypto.len(),
                matrix@ == Seq::new(
                    i as nat,
                    |i: int| (i as usize, self.crypto@[i].available),
                ),
            decreases self.crypto.len() - i,
        {
            matrix.push((i, self.crypto[i].available));
            i = i + 1;
            assert(matrix@ =~= Seq::new(
                i as nat,
                |i: int| (i as usize, self.crypto@[i].available),
            ));
        }
        matrix
    }

    /// One row of the backend matrix.
    pub open spec fn row(self, b: Backend) -> (Backend, bool, bool) {
        (b, b.available(self.features, self.host.counter.target), b == self.backend)
    }

    /// Every backend, whether it can be run, and whether it was chosen.
    pub fn backend_matrix(&self) -> (matrix: Vec<(Backend, bool, bool)>)
        ensures
            matrix@ == Backend::every().map_values(|b: Backend| self.row(b)),
    {
        let all: Vec<Backend> = Backend::all();
        let mut matrix: Vec<(Backend, bool, bool)> = Vec::new();
        let mut i: usize = 0;
        while i < all.len()
            invariant
                i <= all.len(),
                all@ == Backend::every(),
                matrix@ == Backend::every().take(i as int).map_values(
                    |b: Backend| self.row(b),
                ),
            decreases all.len() - i,
        {
            let b: Backend = all[i];
            matrix.push(
                (
                    b,
                    b.is_available(&self.features, &self.host.counter.target),
                    b == self.backend,
                ),
            );
            i = i + 1;
            assert(matrix@ =~= Backend::every().take(i as int).map_values(
                |b: Backend| self.row(b),
            ));
        }
        assert(all@.take(i as int) =~= all@);
        matrix
    }

    /// The account of what was selected, and why.
    pub open spec fn account(self, platform: HypervisorReport) -> Seq<char> {
        let target = self.host.counter.target;
        "arch="@ + self.host.arch().label(target) + " backend="@ + self.backend.label() + " ("@
            + self.backend_reason.label() + ") simd="@ + self.catalogue.name_of(self.simd) + " ("@
            + self.simd_reason.label() + ") route="@ + self.route.label() + " ("@
            + self.route_reason.label() + ")\nplatform="@ + crate::hypervisor::summary_text(
            platform@,
        ) + " ("@ + platform.timing_impact.shown() + ")\ninvariant_counter="@ + bool_text(
            self.features.invariant_counter,
        ) + " available=["@ + runnable_names(Backend::every(), self.features, target).0 + "]"@
    }

    /// A readable account of what was selected, and why.
    pub fn report(&self, platform: &HypervisorReport) -> (text: String)
        requires
            self.simd matches Some(i) ==> i < self.catalogue.families@.len(),
        ensures
            text@ == self.account(*platform),
    {
        let target: &Target = &self.host.counter.target;
        let mut out: String = String::new();
        push_text(&mut out, "arch=");
        assert(out@ =~= "arch="@);
        push_text(&mut out, Arch::of(target.machine).name(target));
        push_text(&mut out, " backend=");
        push_text(&mut out, self.backend.name());
        push_text(&mut out, " (");
        push_text(&mut out, self.backend_reason.name());
        push_text(&mut out, ") simd=");
        push_text(&mut out, self.catalogue.label(self.simd));
        push_text(&mut out, " (");
        push_text(&mut out, self.simd_reason.name());
        push_text(&mut out, ") route=");
        push_text(&mut out, self.route.name());
        push_text(&mut out, " (");
        push_text(&mut out, self.route_reason.name());
        push_text(&mut out, ")\nplatform=");
        let summary: String = platform.summary();
        push_text(&mut out, summary.as_str());
        push_text(&mut out, " (");
        push_text(&mut out, platform.timing_impact.name());
        push_text(&mut out, ")\ninvariant_counter=");
        push_bool(&mut out, self.features.invariant_counter);
        push_text(&mut out, " available=[");
        push_runnable(&mut out, &self.features, target);
        push_text(&mut out, "]");
        out
    }
}

/// Whatever a machine offers and whatever was asked for, what is selected can
/// be run: no path that is handed out may fault.
pub proof fn selections_can_be_run(offer: Offer, overrides: Overrides, host: RouteHost)
    ensures
        backend_choice(offer.features, offer.counter.target, overrides.backend).0.available(
            offer.features,
            offer.counter.target,
        ),
        simd_choice(offer.simd, overrides.simd).0 matches Some(i) ==> offer.simd.runs(i),
        route_choice(host, overrides.route).0.available(host),
{
    crate::backend::resolved_backends_can_be_run(
        Backend::Legacy,
        offer.features,
        offer.counter.target,
    );
    crate::clock::best_routes_are_available(host);
    if let Some(words) = asked(overrides.simd) {
        crate::simd::lemma_place(offer.simd, words);
        assert(offer.simd.families.len() == offer.simd.families@.len());
    }
}

/// An override is accepted exactly where it names a backend that the machine
/// can run, and then it is what is selected. Any other one is rejected in
/// favour of the widest family, and nothing is called rejected or overridden
/// where none was asked for.
pub proof fn overrides_are_honoured_where_they_can_be(
    f: CpuFeatures,
    target: Target,
    value: Option<String>,
)
    ensures
        asked(value) matches Some(words) ==> match crate::backend::named(
            crate::backend::plain_name(words),
        ) {
            Some(b) if b.available(f, target) => backend_choice(f, target, value) == (
                b,
                SelectionReason::Overridden,
            ),
            _ => backend_choice(f, target, value) == (
                Backend::widest(f, target),
                SelectionReason::OverrideRejected,
            ),
        },
        asked(value) is None ==> {
            &&& backend_choice(f, target, value).0 == Backend::widest(f, target)
            &&& backend_choice(f, target, value).1 is Detected || backend_choice(
                f,
                target,
                value,
            ).1 is Fallback
        },
{
}

} // verus!
