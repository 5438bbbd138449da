//! Hypervisor and emulation detection.
//!
//! Virtualization changes what a counter reading means. On bare metal the
//! value is the core's own counter. Under a hardware-assisted hypervisor reads
//! stay cheap, but longer intervals absorb time the guest cannot see. Under
//! emulation the counter is synthesised and measures the emulator.
//!
//! The evidence comes from the CPUID leaves, the files an operating system
//! publishes, the firmware's strings, a timed trap, and an optional kernel
//! module that can try a hypercall. Each piece is recorded as a source, and
//! the verdict is drawn from the sources at the end.
use crate::arch::x86::{CpuidTable, Registers};
use crate::bytes::{bytes_are, test32, twelve_bytes, until_nul};
use crate::cpu::Vendor;
use crate::reprobe::{seconds_up, Gate};
use crate::text::{
    any_is, chars_of, contains, lines, parse_i64, parse_unsigned, push_chars, push_decimal,
    push_hex, push_signed, push_text, same, split_once, split_words, starts_with, string_of,
    strip_prefix, to_lower, trim, trim_end, Trim,
};
use vstd::prelude::*;

verus! {

// ---------------------------------------------------------------------------
// What can be found
// ---------------------------------------------------------------------------

/// A hypervisor or emulator, identified by its published signature.
#[derive(Debug, Clone, PartialEq, Eq)]
pub enum Hypervisor {
    /// Nothing detected. On a well-behaved platform this means bare metal.
    Absent,
    Kvm,
    /// QEMU's pure-software interpreter. Everything is emulated, the counter
    /// too.
    QemuTcg,
    VMware,
    HyperV,
    Xen,
    VirtualBox,
    Parallels,
    Bhyve,
    Acrn,
    Jailhouse,
    /// Apple's Virtualization.framework.
    AppleVz,
    Qnx,
    /// Windows Subsystem for Linux, which is built on Hyper-V but reports
    /// distinctly.
    Wsl,
    /// A signature that was found but is not in the table.
    Other(String),
}

/// A hypervisor with the text of an unknown one as a sequence.
pub enum HypervisorView {
    Absent,
    Kvm,
    QemuTcg,
    VMware,
    HyperV,
    Xen,
    VirtualBox,
    Parallels,
    Bhyve,
    Acrn,
    Jailhouse,
    AppleVz,
    Qnx,
    Wsl,
    Other(Seq<char>),
}

impl View for Hypervisor {
    type V = HypervisorView;

    open spec fn view(&self) -> HypervisorView {
        match self {
            Hypervisor::Absent => HypervisorView::Absent,
            Hypervisor::Kvm => HypervisorView::Kvm,
            Hypervisor::QemuTcg => HypervisorView::QemuTcg,
            Hypervisor::VMware => HypervisorView::VMware,
            Hypervisor::HyperV => HypervisorView::HyperV,
            Hypervisor::Xen => HypervisorView::Xen,
            Hypervisor::VirtualBox => HypervisorView::VirtualBox,
            Hypervisor::Parallels => HypervisorView::Parallels,
            Hypervisor::Bhyve => HypervisorView::Bhyve,
            Hypervisor::Acrn => HypervisorView::Acrn,
            Hypervisor::Jailhouse => HypervisorView::Jailhouse,
            Hypervisor::AppleVz => HypervisorView::AppleVz,
            Hypervisor::Qnx => HypervisorView::Qnx,
            Hypervisor::Wsl => HypervisorView::Wsl,
            Hypervisor::Other(text) => HypervisorView::Other(text@),
        }
    }
}

impl HypervisorView {
    /// The name it is shown under.
    pub open spec fn shown(self) -> Seq<char> {
        match self {
            HypervisorView::Absent => "none"@,
            HypervisorView::Kvm => "KVM"@,
            HypervisorView::QemuTcg => "QEMU TCG"@,
            HypervisorView::VMware => "VMware"@,
            HypervisorView::HyperV => "Hyper-V"@,
            HypervisorView::Xen => "Xen"@,
            HypervisorView::VirtualBox => "VirtualBox"@,
            HypervisorView::Parallels => "Parallels"@,
            HypervisorView::Bhyve => "bhyve"@,
            HypervisorView::Acrn => "ACRN"@,
            HypervisorView::Jailhouse => "Jailhouse"@,
            HypervisorView::AppleVz => "Apple Virtualization"@,
            HypervisorView::Qnx => "QNX"@,
            HypervisorView::Wsl => "WSL"@,
            HypervisorView::Other(text) => text,
        }
    }
}

impl Default for Hypervisor {
    fn default() -> (hypervisor: Hypervisor)
        ensures
            hypervisor is Absent,
    {
        Hypervisor::Absent
    }
}

impl Hypervisor {
    /// The name it is shown under.
    pub fn name(&self) -> (name: &str)
        ensures
            name@ == self@.shown(),
    {
        match self {
            Hypervisor::Absent => "none",
            Hypervisor::Kvm => "KVM",
            Hypervisor::QemuTcg => "QEMU TCG",
            Hypervisor::VMware => "VMware",
            Hypervisor::HyperV => "Hyper-V",
            Hypervisor::Xen => "Xen",
            Hypervisor::VirtualBox => "VirtualBox",
            Hypervisor::Parallels => "Parallels",
            Hypervisor::Bhyve => "bhyve",
            Hypervisor::Acrn => "ACRN",
            Hypervisor::Jailhouse => "Jailhouse",
            Hypervisor::AppleVz => "Apple Virtualization",
            Hypervisor::Qnx => "QNX",
            Hypervisor::Wsl => "WSL",
            Hypervisor::Other(text) => text.as_str(),
        }
    }

    /// Whether this platform emulates the instruction set rather than running
    /// it natively, the case where counter readings stop being physical.
    pub fn is_emulated(&self) -> (emulated: bool)
        ensures
            emulated == (self@ is QemuTcg),
    {
        match self {
            Hypervisor::QemuTcg => true,
            _ => false,
        }
    }

    /// Whether nothing has been named yet.
    pub fn is_none(&self) -> (none: bool)
        ensures
            none == (self@ is Absent),
    {
        match self {
            Hypervisor::Absent => true,
            _ => false,
        }
    }
}

/// How a conclusion was reached.
#[derive(Debug, Clone, Copy, PartialEq, Eq, Structural)]
pub enum DetectionSource {
    /// `CPUID.1:ECX[31]`, the architectural "hypervisor present" bit.
    CpuidFeatureBit,
    /// The vendor signature at `CPUID.40000000H`.
    CpuidVendorLeaf,
    /// `CNTFRQ_EL0` reports a tick rate no physical part uses.
    ArmCounterFrequency,
    /// `MIDR_EL1` names an implementer that only appears under emulation.
    ArmMidr,
    /// Darwin's `kern.hv_vmm_present`.
    MacSysctl,
    /// A registry key Windows only creates inside a guest.
    WindowsRegistry,
    /// SMBIOS strings.
    Dmi,
    /// `/sys/hypervisor/type`.
    SysHypervisor,
    /// `/proc/device-tree/hypervisor/compatible`.
    DeviceTree,
    /// The `hypervisor` flag in `/proc/cpuinfo`.
    ProcCpuinfo,
    /// A paravirtual clocksource.
    Clocksource,
    /// Paravirtual devices: virtio, VMBus, or the Xen bus.
    ParavirtualBus,
    /// The optional ring 0 kernel module.
    KernelModule,
    /// A measured trap cost, not a declaration.
    ExitCostTiming,
}

impl DetectionSource {
    /// The name it is shown under.
    pub open spec fn shown(self) -> Seq<char> {
        match self {
            DetectionSource::CpuidFeatureBit => "cpuid-feature-bit"@,
            DetectionSource::CpuidVendorLeaf => "cpuid-vendor-leaf"@,
            DetectionSource::ArmCounterFrequency => "arm-cntfrq-el0"@,
            DetectionSource::ArmMidr => "arm-midr-el1"@,
            DetectionSource::MacSysctl => "mac-sysctl"@,
            DetectionSource::WindowsRegistry => "windows-registry"@,
            DetectionSource::Dmi => "dmi"@,
            DetectionSource::SysHypervisor => "sys-hypervisor"@,
            DetectionSource::DeviceTree => "device-tree"@,
            DetectionSource::ProcCpuinfo => "proc-cpuinfo"@,
            DetectionSource::Clocksource => "clocksource"@,
            DetectionSource::ParavirtualBus => "paravirtual-bus"@,
            DetectionSource::KernelModule => "kernel-module"@,
            DetectionSource::ExitCostTiming => "exit-cost-timing"@,
        }
    }

    /// Whether the source is a declaration rather than an inference: a timing
    /// ratio and an unusual register value only look wrong.
    pub open spec fn declares(self) -> bool {
        !(self is ExitCostTiming || self is ArmCounterFrequency || self is ArmMidr)
    }

    pub fn name(self) -> (name: &'static str)
        ensures
            name@ == self.shown(),
    {
        match self {
            DetectionSource::CpuidFeatureBit => "cpuid-feature-bit",
            DetectionSource::CpuidVendorLeaf => "cpuid-vendor-leaf",
            DetectionSource::ArmCounterFrequency => "arm-cntfrq-el0",
            DetectionSource::ArmMidr => "arm-midr-el1",
            DetectionSource::MacSysctl => "mac-sysctl",
            DetectionSource::WindowsRegistry => "windows-registry",
            DetectionSource::Dmi => "dmi",
            DetectionSource::SysHypervisor => "sys-hypervisor",
            DetectionSource::DeviceTree => "device-tree",
            DetectionSource::ProcCpuinfo => "proc-cpuinfo",
            DetectionSource::Clocksource => "clocksource",
            DetectionSource::ParavirtualBus => "paravirtual-bus",
            DetectionSource::KernelModule => "kernel-module",
            DetectionSource::ExitCostTiming => "exit-cost-timing",
        }
    }

    /// Whether the source is a declaration by the platform rather than an
    /// inference. An inference can raise suspicion but never confirms on its
    /// own, or an unusual piece of silicon becomes a false positive.
    pub fn is_declared(self) -> (declared: bool)
        ensures
            declared == self.declares(),
    {
        match self {
            DetectionSource::ExitCostTiming => false,
            DetectionSource::ArmCounterFrequency => false,
            DetectionSource::ArmMidr => false,
            _ => true,
        }
    }
}

/// How much weight the evidence carries.
#[derive(Debug, Clone, Copy, PartialEq, Eq, PartialOrd, Ord, Structural)]
pub enum Confidence {
    /// No evidence of virtualization.
    Absent,
    /// Something is off, but nothing declared itself.
    Suspected,
    /// The platform declared itself, or ring 0 confirmed a hypercall.
    Confirmed,
}

impl Default for Confidence {
    fn default() -> (confidence: Confidence)
        ensures
            confidence is Absent,
    {
        Confidence::Absent
    }
}

impl Confidence {
    /// The name it is shown under.
    pub open spec fn shown(self) -> Seq<char> {
        match self {
            Confidence::Absent => "none"@,
            Confidence::Suspected => "suspected"@,
            Confidence::Confirmed => "confirmed"@,
        }
    }

    pub fn name(self) -> (name: &'static str)
        ensures
            name@ == self.shown(),
    {
        match self {
            Confidence::Absent => "none",
            Confidence::Suspected => "suspected",
            Confidence::Confirmed => "confirmed",
        }
    }
}

/// What virtualization means for the numbers that are measured.
#[derive(Debug, Clone, Copy, PartialEq, Eq, Structural)]
pub enum TimingImpact {
    /// Bare metal: nanosecond figures mean what they say.
    Native,
    /// Hardware-assisted virtualization: short intervals hold up, longer ones
    /// absorb steal time.
    HardwareAssisted,
    /// Instruction-set emulation: nanosecond figures describe the emulator.
    Emulated,
}

impl Default for TimingImpact {
    fn default() -> (impact: TimingImpact)
        ensures
            impact is Native,
    {
        TimingImpact::Native
    }
}

impl TimingImpact {
    /// The name it is shown under.
    pub open spec fn shown(self) -> Seq<char> {
        match self {
            TimingImpact::Native => "native"@,
            TimingImpact::HardwareAssisted => "hardware-assisted"@,
            TimingImpact::Emulated => "emulated"@,
        }
    }

    /// What to trust, in a sentence.
    pub open spec fn advised(self) -> Seq<char> {
        match self {
            TimingImpact::Native =>
                "Bare metal: counter readings are physical and nanosecond figures are meaningful."@,
            TimingImpact::HardwareAssisted =>
                "Virtualized: short intervals are sound, but anything spanning a VM exit or steal time is not. Pin the vCPU and prefer minimum-of-N over the mean."@,
            TimingImpact::Emulated =>
                "Emulated: the counter is synthesised, so nanosecond figures measure the emulator, not the workload. Use these numbers for correctness checks only, never for performance claims."@,
        }
    }

    pub fn name(self) -> (name: &'static str)
        ensures
            name@ == self.shown(),
    {
        match self {
            TimingImpact::Native => "native",
            TimingImpact::HardwareAssisted => "hardware-assisted",
            TimingImpact::Emulated => "emulated",
        }
    }

    /// One sentence on what to trust, for the status bar and report headers.
    pub fn advice(self) -> (advice: &'static str)
        ensures
            advice@ == self.advised(),
    {
        match self {
            TimingImpact::Native =>
                "Bare metal: counter readings are physical and nanosecond figures are meaningful.",
            TimingImpact::HardwareAssisted =>
                "Virtualized: short intervals are sound, but anything spanning a VM exit or steal time is not. Pin the vCPU and prefer minimum-of-N over the mean.",
            TimingImpact::Emulated =>
                "Emulated: the counter is synthesised, so nanosecond figures measure the emulator, not the workload. Use these numbers for correctness checks only, never for performance claims.",
        }
    }
}

// ---------------------------------------------------------------------------
// The cost of a trap
// ---------------------------------------------------------------------------

/// A measured trap cost.
///
/// `CPUID` on most hypervisors exits to the VMM. Comparing it against a plain
/// counter read pair gives a number that no amount of CPUID spoofing can hide.
#[derive(Debug, Clone, Copy, PartialEq, Eq, Structural)]
pub struct ExitCost {
    /// Minimum cycles observed for one trapping instruction.
    pub trap_cycles: u64,
    /// Minimum cycles observed for a bare counter read pair.
    pub baseline_cycles: u64,
    /// Whether the ratio of the two exceeds [`EXIT_RATIO_THRESHOLD`].
    pub suggests_exit: bool,
}

/// Ratio above which a trapping instruction is taken to exit to a VMM. A native
/// ratio sits under 10; a VM exit and re-entry lands well above 20.
pub const EXIT_RATIO_THRESHOLD: u64 = 20;

impl ExitCost {
    /// Whether a trap of this cost suggests an exit: there is a baseline to
    /// compare with, and the trap costs more than the threshold times it.
    pub open spec fn suggestive(trap: u64, baseline: u64) -> bool {
        baseline > 0 && trap > EXIT_RATIO_THRESHOLD * baseline
    }

    /// The cost with its verdict.
    pub open spec fn measured(trap: u64, baseline: u64) -> ExitCost {
        ExitCost {
            trap_cycles: trap,
            baseline_cycles: baseline,
            suggests_exit: ExitCost::suggestive(trap, baseline),
        }
    }

    /// Weighs a trap against a baseline.
    pub fn of(trap: u64, baseline: u64) -> (cost: ExitCost)
        ensures
            cost == ExitCost::measured(trap, baseline),
    {
        let times: u128 = EXIT_RATIO_THRESHOLD as u128;
        assert(times * baseline <= u128::MAX) by (nonlinear_arith)
            requires
                times == 20,
                baseline <= u64::MAX,
        ;
        ExitCost {
            trap_cycles: trap,
            baseline_cycles: baseline,
            suggests_exit: baseline > 0 && trap as u128 > times * baseline as u128,
        }
    }
}

/// Whether `least` is the least of these readings.
pub open spec fn is_least(least: u64, readings: Seq<u64>) -> bool {
    readings.contains(least) && forall|i: int|
        0 <= i < readings.len() ==> least <= #[trigger] readings[i]
}

/// The least of these readings, if there are any. Any sample above the
/// minimum contains interference.
pub fn least_of(readings: &[u64]) -> (least: Option<u64>)
    ensures
        match least {
            Some(least) => is_least(least, readings@),
            None => readings.len() == 0,
        },
{
    if readings.len() == 0 {
        return None;
    }
    let mut least: u64 = readings[0];
    let mut i: usize = 1;
    assert(readings@.take(1)[0] == least);
    while i < readings.len()
        invariant
            1 <= i <= readings.len(),
            is_least(least, readings@.take(i as int)),
        decreases readings.len() - i,
    {
        let ghost shorter = readings@.take(i as int);
        let ghost longer = readings@.take(i + 1);
        proof {
            assert(longer =~= shorter.push(readings@[i as int]));
            let w = choose|w: int| 0 <= w < shorter.len() && shorter[w] == least;
            assert(longer[w] == least);
            assert(longer[i as int] == readings@[i as int]);
        }
        if readings[i] < least {
            least = readings[i];
        }
        i = i + 1;
    }
    assert(readings@.take(i as int) =~= readings@);
    Some(least)
}

/// Weighs the least trap against the least baseline.
pub fn measure_trap_cost(baselines: &[u64], traps: &[u64]) -> (cost: Option<ExitCost>)
    ensures
        match cost {
            Some(cost) => is_least(cost.baseline_cycles, baselines@) && is_least(
                cost.trap_cycles,
                traps@,
            ) && cost == ExitCost::measured(cost.trap_cycles, cost.baseline_cycles),
            None => baselines.len() == 0 || traps.len() == 0,
        },
{
    match (least_of(baselines), least_of(traps)) {
        (Some(baseline), Some(trap)) => Some(ExitCost::of(trap, baseline)),
        _ => None,
    }
}

// ---------------------------------------------------------------------------
// Firmware strings
// ---------------------------------------------------------------------------

/// The view of an optional text.
pub open spec fn text_of(text: Option<String>) -> Option<Seq<char>> {
    match text {
        Some(text) => Some(text@),
        None => None,
    }
}

/// A text as it is taken from a file: without white space and NULs at its
/// ends, and nothing where that leaves nothing.
pub open spec fn tidied(text: Option<Seq<char>>) -> Option<Seq<char>> {
    match text {
        Some(text) => {
            let inner = crate::text::trimmed(text, Trim::SpaceOrNul);
            if inner.len() == 0 {
                None
            } else {
                Some(inner)
            }
        },
        None => None,
    }
}

/// Tidies what was read from a file, if it could be read.
pub fn read_trimmed(text: &Option<String>) -> (inner: Option<String>)
    ensures
        text_of(inner) == tidied(text_of(*text)),
{
    match text {
        Some(text) => {
            let chars: Vec<char> = chars_of(text.as_str());
            let inner: &[char] = trim(chars.as_slice(), Trim::SpaceOrNul);
            if inner.len() == 0 {
                None
            } else {
                Some(string_of(inner))
            }
        },
        None => None,
    }
}

/// SMBIOS strings, when the platform exposes them.
#[derive(Debug, Clone, PartialEq, Eq)]
pub struct DmiHints {
    pub sys_vendor: Option<String>,
    pub product_name: Option<String>,
    pub bios_vendor: Option<String>,
}

/// What the firmware strings hold.
pub struct DmiView {
    pub sys_vendor: Option<Seq<char>>,
    pub product_name: Option<Seq<char>>,
    pub bios_vendor: Option<Seq<char>>,
}

impl View for DmiHints {
    type V = DmiView;

    open spec fn view(&self) -> DmiView {
        DmiView {
            sys_vendor: text_of(self.sys_vendor),
            product_name: text_of(self.product_name),
            bios_vendor: text_of(self.bios_vendor),
        }
    }
}

/// The virtual platform that a firmware string in small letters names. The
/// order matters: a text that names several is taken for the first.
pub open spec fn named_platform(lowered: Seq<char>) -> Option<HypervisorView> {
    if crate::text::has_text(lowered, "vmware"@) {
        Some(HypervisorView::VMware)
    } else if crate::text::has_text(lowered, "virtualbox"@) || crate::text::has_text(
        lowered,
        "innotek"@,
    ) {
        Some(HypervisorView::VirtualBox)
    } else if crate::text::has_text(lowered, "parallels"@) {
        Some(HypervisorView::Parallels)
    } else if crate::text::has_text(lowered, "xen"@) {
        Some(HypervisorView::Xen)
    } else if crate::text::has_text(lowered, "bhyve"@) {
        Some(HypervisorView::Bhyve)
    } else if crate::text::has_text(lowered, "kvm"@) || crate::text::has_text(lowered, "qemu"@) {
        Some(HypervisorView::Kvm)
    } else if crate::text::has_text(lowered, "bochs"@) {
        Some(HypervisorView::QemuTcg)
    } else if crate::text::has_text(lowered, "apple virtualization"@) || crate::text::has_text(
        lowered,
        "virtualmac"@,
    ) {
        Some(HypervisorView::AppleVz)
    } else {
        None
    }
}

/// What an optional firmware string names, whatever its capitals.
pub open spec fn identified_by(text: Option<Seq<char>>) -> Option<HypervisorView> {
    match text {
        Some(text) => named_platform(crate::text::lowered(text)),
        None => None,
    }
}

impl DmiView {
    /// The platform the strings name: the product's name first, since it is
    /// the specific one, then the system's vendor, then the BIOS's.
    pub open spec fn identified(self) -> Option<HypervisorView> {
        if identified_by(self.product_name) is Some {
            identified_by(self.product_name)
        } else if identified_by(self.sys_vendor) is Some {
            identified_by(self.sys_vendor)
        } else {
            identified_by(self.bios_vendor)
        }
    }
}

/// The view of an optional hypervisor.
pub open spec fn hypervisor_of(hypervisor: Option<Hypervisor>) -> Option<HypervisorView> {
    match hypervisor {
        Some(hypervisor) => Some(hypervisor@),
        None => None,
    }
}

fn identify_text(text: &Option<String>) -> (hypervisor: Option<Hypervisor>)
    ensures
        hypervisor_of(hypervisor) == identified_by(text_of(*text)),
{
    let text: &String = match text {
        Some(text) => text,
        None => return None,
    };
    let lowered: Vec<char> = to_lower(chars_of(text.as_str()).as_slice());
    let s: &[char] = lowered.as_slice();
    if contains(s, "vmware") {
        Some(Hypervisor::VMware)
    } else if contains(s, "virtualbox") || contains(s, "innotek") {
        Some(Hypervisor::VirtualBox)
    } else if contains(s, "parallels") {
        Some(Hypervisor::Parallels)
    } else if contains(s, "xen") {
        Some(Hypervisor::Xen)
    } else if contains(s, "bhyve") {
        Some(Hypervisor::Bhyve)
    } else if contains(s, "kvm") || contains(s, "qemu") {
        Some(Hypervisor::Kvm)
    } else if contains(s, "bochs") {
        Some(Hypervisor::QemuTcg)
    } else if contains(s, "apple virtualization") || contains(s, "virtualmac") {
        Some(Hypervisor::AppleVz)
    } else {
        None
    }
}

impl Default for DmiHints {
    fn default() -> (hints: DmiHints)
        ensures
            hints@ == (DmiView { sys_vendor: None, product_name: None, bios_vendor: None }),
    {
        DmiHints { sys_vendor: None, product_name: None, bios_vendor: None }
    }
}

impl DmiHints {
    /// Takes the three strings as an operating system publishes them.
    pub fn read(
        sys_vendor: &Option<String>,
        product_name: &Option<String>,
        bios_vendor: &Option<String>,
    ) -> (hints: DmiHints)
        ensures
            hints@ == (DmiView {
                sys_vendor: tidied(text_of(*sys_vendor)),
                product_name: tidied(text_of(*product_name)),
                bios_vendor: tidied(text_of(*bios_vendor)),
            }),
    {
        DmiHints {
            sys_vendor: read_trimmed(sys_vendor),
            product_name: read_trimmed(product_name),
            bios_vendor: read_trimmed(bios_vendor),
        }
    }

    /// Matches the strings against known virtual platforms.
    pub fn identify(&self) -> (hypervisor: Option<Hypervisor>)
        ensures
            hypervisor_of(hypervisor) == self@.identified(),
    {
        match identify_text(&self.product_name) {
            Some(found) => Some(found),
            None => match identify_text(&self.sys_vendor) {
                Some(found) => Some(found),
                None => identify_text(&self.bios_vendor),
            },
        }
    }
}

// ---------------------------------------------------------------------------
// A raw SMBIOS table
// ---------------------------------------------------------------------------

/// Whether a byte is a printable ASCII character.
pub open spec fn printable(b: u8) -> bool {
    0x20 <= b < 0x7F
}

/// Whether these bytes are long enough to be a vendor's name and are all
/// printable.
pub open spec fn is_name(part: Seq<u8>) -> bool {
    part.len() >= 3 && forall|i: int| 0 <= i < part.len() ==> printable(#[trigger] part[i])
}

/// ASCII bytes as text.
pub open spec fn ascii_text(part: Seq<u8>) -> Seq<char> {
    part.map_values(|b: u8| b as char)
}

/// `joined` with one more part of the table: left as it is where the part is
/// no name, and with a bar between names.
pub open spec fn with_name(joined: Option<Seq<char>>, part: Seq<u8>) -> Option<Seq<char>> {
    if is_name(part) {
        let name = crate::text::trimmed(ascii_text(part), Trim::Space);
        match joined {
            Some(before) => Some(before + " | "@ + name),
            None => Some(name),
        }
    } else {
        joined
    }
}

/// The names in what is left of a table, after those in `joined`. Parts end
/// at a NUL or at the end of the table.
pub open spec fn names_in(table: Seq<u8>, joined: Option<Seq<char>>) -> Option<Seq<char>>
    decreases table.len(),
    via names_in_decreases
{
    let part = crate::bytes::before_nul(table);
    if part.len() == table.len() {
        with_name(joined, part)
    } else {
        names_in(table.skip(part.len() as int + 1), with_name(joined, part))
    }
}

#[via_fn]
proof fn names_in_decreases(table: Seq<u8>, joined: Option<Seq<char>>) {
    crate::bytes::lemma_before_nul(table);
}

fn all_printable(part: &[u8]) -> (all: bool)
    ensures
        all == (forall|i: int| 0 <= i < part.len() ==> printable(#[trigger] part@[i])),
{
    let mut i: usize = 0;
    while i < part.len()
        invariant
            i <= part.len(),
            forall|k: int| 0 <= k < i ==> printable(#[trigger] part@[k]),
        decreases part.len() - i,
    {
        if part[i] < 0x20 || part[i] >= 0x7F {
            assert(!printable(part@[i as int]));
            return false;
        }
        i = i + 1;
    }
    true
}

fn chars_of_ascii(part: &[u8]) -> (chars: Vec<char>)
    ensures
        chars@ == ascii_text(part@),
{
    let mut chars: Vec<char> = Vec::new();
    let mut i: usize = 0;
    while i < part.len()
        invariant
            i <= part.len(),
            chars@ == ascii_text(part@.take(i as int)),
        decreases part.len() - i,
    {
        chars.push(part[i] as char);
        i = i + 1;
        assert(chars@ =~= ascii_text(part@.take(i as int)));
    }
    assert(part@.take(i as int) =~= part@);
    chars
}

impl DmiHints {
    /// Takes the names out of the raw table Windows hands over.
    ///
    /// The whole list is offered as the product's name: matching looks for
    /// substrings and does not care which field a name came from.
    pub fn from_smbios(table: &[u8]) -> (hints: DmiHints)
        ensures
            hints@ == (DmiView {
                sys_vendor: None,
                product_name: names_in(table@, None),
                bios_vendor: None,
            }),
    {
        let mut joined: Option<String> = None;
        let mut rest: &[u8] = table;
        loop
            invariant
                names_in(rest@, text_of(joined)) == names_in(table@, None),
            decreases rest.len(),
        {
            let part: &[u8] = until_nul(rest);
            proof {
                crate::bytes::lemma_before_nul(rest@);
            }
            if part.len() >= 3 && all_printable(part) {
                let chars: Vec<char> = chars_of_ascii(part);
                let name: &[char] = trim(chars.as_slice(), Trim::Space);
                let mut text: String = match joined {
                    Some(before) => {
                        let mut text: String = before;
                        push_text(&mut text, " | ");
                        text
                    },
                    None => String::new(),
                };
                push_chars(&mut text, name);
                assert(Seq::<char>::empty() + name@ =~= name@);
                joined = Some(text);
            }
            if part.len() == rest.len() {
                return DmiHints { sys_vendor: None, product_name: joined, bios_vendor: None };
            }
            let next: usize = part.len() + 1;
            let after = vstd::slice::slice_subrange(rest, next, rest.len());
            assert(after@ =~= rest@.skip(next as int));
            rest = after;
        }
    }
}

// ---------------------------------------------------------------------------
// The kernel module's report
// ---------------------------------------------------------------------------

/// What the optional kernel module reported.
#[derive(Debug, Clone, PartialEq, Eq)]
pub struct KernelProbe {
    /// The module's own format version, so a stale module is not misparsed.
    pub version: u32,
    /// `VMCALL` executed without faulting. Intel VMX guest.
    pub vmcall_ok: Option<bool>,
    /// `VMMCALL` executed without faulting. AMD SVM guest.
    pub vmmcall_ok: Option<bool>,
    /// `HVC #0` executed without faulting. AArch64 guest.
    pub hvc_ok: Option<bool>,
    /// Value the hypercall returned, when one answered.
    pub hypercall_result: Option<i64>,
    /// The host processor exposes VMX.
    pub vmx_available: Option<bool>,
    /// The host processor exposes SVM.
    pub svm_available: Option<bool>,
    /// Exception level the kernel runs at, on AArch64.
    pub current_el: Option<u32>,
    /// Trap cost measured from ring 0, free of userspace scheduling noise.
    pub exit_cycles: Option<u64>,
    /// The lineage the module named.
    pub cpu_family: Option<String>,
    /// The highest Centaur extended leaf the part answers.
    pub centaur_max_leaf: Option<u32>,
    /// The AArch64 vendor hypervisor UID, as four raw words.
    pub hvc_vendor_uid: Option<[u32; 4]>,
    /// How many times the module has run its exit-inducing probes.
    pub hypercall_probes: Option<u32>,
    /// Milliseconds since the last probe, as of the read.
    pub hypercall_age_ms: Option<u64>,
    /// The module's re-probe cooldown in seconds; 0 is disabled.
    pub hypercall_cooldown_s: Option<u32>,
    /// Milliseconds until the module accepts a re-probe.
    pub hypercall_next_ms: Option<u64>,
}

/// What a kernel module's report says.
pub struct ProbeView {
    pub version: u32,
    pub vmcall_ok: Option<bool>,
    pub vmmcall_ok: Option<bool>,
    pub hvc_ok: Option<bool>,
    pub hypercall_result: Option<i64>,
    pub vmx_available: Option<bool>,
    pub svm_available: Option<bool>,
    pub current_el: Option<u32>,
    pub exit_cycles: Option<u64>,
    pub cpu_family: Option<Seq<char>>,
    pub centaur_max_leaf: Option<u32>,
    pub hvc_vendor_uid: Option<Seq<u32>>,
    pub hypercall_probes: Option<u32>,
    pub hypercall_age_ms: Option<u64>,
    pub hypercall_cooldown_s: Option<u32>,
    pub hypercall_next_ms: Option<u64>,
}

impl View for KernelProbe {
    type V = ProbeView;

    open spec fn view(&self) -> ProbeView {
        ProbeView {
            version: self.version,
            vmcall_ok: self.vmcall_ok,
            vmmcall_ok: self.vmmcall_ok,
            hvc_ok: self.hvc_ok,
            hypercall_result: self.hypercall_result,
            vmx_available: self.vmx_available,
            svm_available: self.svm_available,
            current_el: self.current_el,
            exit_cycles: self.exit_cycles,
            cpu_family: text_of(self.cpu_family),
            centaur_max_leaf: self.centaur_max_leaf,
            hvc_vendor_uid: match self.hvc_vendor_uid {
                Some(uid) => Some(uid@),
                None => None,
            },
            hypercall_probes: self.hypercall_probes,
            hypercall_age_ms: self.hypercall_age_ms,
            hypercall_cooldown_s: self.hypercall_cooldown_s,
            hypercall_next_ms: self.hypercall_next_ms,
        }
    }
}

impl ProbeView {
    /// Nothing reported.
    pub open spec fn empty() -> ProbeView {
        ProbeView {
            version: 0,
            vmcall_ok: None,
            vmmcall_ok: None,
            hvc_ok: None,
            hypercall_result: None,
            vmx_available: None,
            svm_available: None,
            current_el: None,
            exit_cycles: None,
            cpu_family: None,
            centaur_max_leaf: None,
            hvc_vendor_uid: None,
            hypercall_probes: None,
            hypercall_age_ms: None,
            hypercall_cooldown_s: None,
            hypercall_next_ms: None,
        }
    }

    /// Whether any hypercall instruction was accepted.
    pub open spec fn accepted(self) -> bool {
        self.vmcall_ok == Some(true) || self.vmmcall_ok == Some(true) || self.hvc_ok == Some(true)
    }

    /// Whether the report says anything of a hypervisor at all.
    pub open spec fn has_section(self) -> bool {
        self.version != 0 || self.vmcall_ok is Some || self.vmmcall_ok is Some || self.hvc_ok
            is Some || self.exit_cycles is Some
    }
}

impl Default for KernelProbe {
    fn default() -> (probe: KernelProbe)
        ensures
            probe@ == ProbeView::empty(),
    {
        KernelProbe {
            version: 0,
            vmcall_ok: None,
            vmmcall_ok: None,
            hvc_ok: None,
            hypercall_result: None,
            vmx_available: None,
            svm_available: None,
            current_el: None,
            exit_cycles: None,
            cpu_family: None,
            centaur_max_leaf: None,
            hvc_vendor_uid: None,
            hypercall_probes: None,
            hypercall_age_ms: None,
            hypercall_cooldown_s: None,
            hypercall_next_ms: None,
        }
    }
}

fn is_yes(flag: Option<bool>) -> (yes: bool)
    ensures
        yes == (flag == Some(true)),
{
    match flag {
        Some(yes) => yes,
        None => false,
    }
}

impl KernelProbe {
    /// Whether any hypercall instruction was accepted.
    ///
    /// A hypercall that returns instead of faulting is proof of a hypervisor
    /// even when CPUID says nothing, because the instruction is only valid
    /// inside a guest.
    pub fn hypercall_accepted(&self) -> (accepted: bool)
        ensures
            accepted == self@.accepted(),
    {
        is_yes(self.vmcall_ok) || is_yes(self.vmmcall_ok) || is_yes(self.hvc_ok)
    }
}

/// The flag that a value spells: `1`, `0`, or neither.
pub open spec fn flag_value(value: Seq<char>) -> Option<bool> {
    if value == "1"@ {
        Some(true)
    } else if value == "0"@ {
        Some(false)
    } else {
        None
    }
}

/// The 32-bit number that a value spells, if it does.
pub open spec fn u32_value(value: Seq<char>) -> Option<u32> {
    match crate::text::unsigned_value(value, 10, u32::MAX as int) {
        Some(n) => Some(n as u32),
        None => None,
    }
}

/// The 64-bit number that a value spells, if it does.
pub open spec fn u64_value(value: Seq<char>) -> Option<u64> {
    match crate::text::unsigned_value(value, 10, u64::MAX as int) {
        Some(n) => Some(n as u64),
        None => None,
    }
}

/// The 32-bit number that a value spells in hexadecimal, if it does.
pub open spec fn hex_value(value: Seq<char>) -> Option<u32> {
    match crate::text::unsigned_value(value, 16, u32::MAX as int) {
        Some(n) => Some(n as u32),
        None => None,
    }
}

/// The leaf that a value spells: hexadecimal behind an `0x`, nothing else.
pub open spec fn leaf_value(value: Seq<char>) -> Option<u32> {
    match crate::text::after_prefix(value, "0x"@) {
        Some(digits) => hex_value(digits),
        None => None,
    }
}

/// The vendor UID that a value spells: four words, each one hexadecimal,
/// nothing else.
pub open spec fn uid_value(value: Seq<char>) -> Option<Seq<u32>> {
    let words = crate::text::words(value);
    if words.len() == 4 && forall|i: int| 0 <= i < 4 ==> hex_value(#[trigger] words[i]) is Some {
        Some(Seq::new(4, |i: int| hex_value(words[i])->0))
    } else {
        None
    }
}

/// The report after one `key=value` pair. Unknown keys are passed over, and a
/// malformed value leaves its field empty rather than failing the report. A
/// UID is four hexadecimal words or nothing: a malformed one is passed over.
pub open spec fn with_pair(p: ProbeView, key: Seq<char>, value: Seq<char>) -> ProbeView {
    if key == "version"@ {
        ProbeView {
            version: match u32_value(value) {
                Some(n) => n,
                None => 0,
            },
            ..p
        }
    } else if key == "vmcall_ok"@ {
        ProbeView { vmcall_ok: flag_value(value), ..p }
    } else if key == "vmmcall_ok"@ {
        ProbeView { vmmcall_ok: flag_value(value), ..p }
    } else if key == "hvc_ok"@ {
        ProbeView { hvc_ok: flag_value(value), ..p }
    } else if key == "hypercall_result"@ {
        ProbeView {
            hypercall_result: match crate::text::signed_value(
                value,
                i64::MIN as int,
                i64::MAX as int,
            ) {
                Some(n) => Some(n as i64),
                None => None,
            },
            ..p
        }
    } else if key == "vmx_available"@ {
        ProbeView { vmx_available: flag_value(value), ..p }
    } else if key == "svm_available"@ {
        ProbeView { svm_available: flag_value(value), ..p }
    } else if key == "current_el"@ {
        ProbeView { current_el: u32_value(value), ..p }
    } else if key == "exit_cycles"@ {
        ProbeView { exit_cycles: u64_value(value), ..p }
    } else if key == "cpu_family"@ {
        ProbeView { cpu_family: Some(value), ..p }
    } else if key == "hypercall_probes"@ {
        ProbeView { hypercall_probes: u32_value(value), ..p }
    } else if key == "hypercall_age_ms"@ {
        ProbeView { hypercall_age_ms: u64_value(value), ..p }
    } else if key == "hypercall_cooldown_s"@ {
        ProbeView { hypercall_cooldown_s: u32_value(value), ..p }
    } else if key == "hypercall_next_ms"@ {
        ProbeView { hypercall_next_ms: u64_value(value), ..p }
    } else if key == "centaur_max_leaf"@ {
        ProbeView { centaur_max_leaf: leaf_value(value), ..p }
    } else if key == "hvc_vendor_uid"@ {
        match uid_value(value) {
            Some(uid) => ProbeView { hvc_vendor_uid: Some(uid), ..p },
            None => p,
        }
    } else {
        p
    }
}

/// The report after one line: its key and value are what stands before and
/// after the first equals sign, without white space at their ends. A line
/// without one is passed over.
pub open spec fn with_line(p: ProbeView, line: Seq<char>) -> ProbeView {
    match crate::text::parted(line, '=') {
        Some((key, value)) => with_pair(
            p,
            crate::text::trimmed(key, Trim::Space),
            crate::text::trimmed(value, Trim::Space),
        ),
        None => p,
    }
}

/// The report that these lines make.
pub open spec fn report_of(lines: Seq<Seq<char>>) -> ProbeView
    decreases lines.len(),
{
    if lines.len() == 0 {
        ProbeView::empty()
    } else {
        with_line(report_of(lines.drop_last()), lines.last())
    }
}

fn flag_of(value: &[char]) -> (flag: Option<bool>)
    ensures
        flag == flag_value(value@),
{
    if same(value, "1") {
        Some(true)
    } else if same(value, "0") {
        Some(false)
    } else {
        None
    }
}

fn u32_of(value: &[char]) -> (n: Option<u32>)
    ensures
        n == u32_value(value@),
{
    match parse_unsigned(value, 10, 0xFFFF_FFFF) {
        Some(n) => Some(n as u32),
        None => None,
    }
}

fn u64_of(value: &[char]) -> (n: Option<u64>)
    ensures
        n == u64_value(value@),
{
    parse_unsigned(value, 10, 0xFFFF_FFFF_FFFF_FFFF)
}

fn hex_of(value: &[char]) -> (n: Option<u32>)
    ensures
        n == hex_value(value@),
{
    match parse_unsigned(value, 16, 0xFFFF_FFFF) {
        Some(n) => Some(n as u32),
        None => None,
    }
}

fn leaf_of(value: &[char]) -> (n: Option<u32>)
    ensures
        n == leaf_value(value@),
{
    match strip_prefix(value, "0x") {
        Some(digits) => hex_of(digits),
        None => None,
    }
}

fn uid_of(value: &[char]) -> (uid: Option<[u32; 4]>)
    ensures
        match uid {
            Some(uid) => uid_value(value@) == Some(uid@),
            None => uid_value(value@) is None,
        },
{
    let parts: Vec<&[char]> = split_words(value);
    let ghost words = crate::text::words(value@);
    assert(words == crate::text::parts_view(parts@));
    if parts.len() != 4 {
        return None;
    }
    let mut uid: [u32; 4] = [0, 0, 0, 0];
    let mut i: usize = 0;
    while i < 4
        invariant
            i <= 4,
            parts@.len() == 4,
            words == crate::text::words(value@),
            words == crate::text::parts_view(parts@),
            forall|k: int| 0 <= k < i ==> hex_value(#[trigger] words[k]) == Some(uid@[k]),
        decreases 4 - i,
    {
        assert(words[i as int] == parts@[i as int]@);
        match hex_of(parts[i]) {
            Some(n) => {
                uid[i] = n;
            },
            None => return None,
        }
        i = i + 1;
    }
    assert(uid@ =~= Seq::new(4, |i: int| hex_value(words[i])->0)) by {
        assert forall|k: int| 0 <= k < 4 implies uid@[k] == hex_value(words[k])->0 by {
            assert(hex_value(words[k]) == Some(uid@[k]));
        }
    }
    Some(uid)
}

fn apply_pair(p: &mut KernelProbe, key: &[char], value: &[char])
    ensures
        final(p)@ == with_pair(old(p)@, key@, value@),
{
    if same(key, "version") {
        p.version = match u32_of(value) {
            Some(n) => n,
            None => 0,
        };
    } else if same(key, "vmcall_ok") {
        p.vmcall_ok = flag_of(value);
    } else if same(key, "vmmcall_ok") {
        p.vmmcall_ok = flag_of(value);
    } else if same(key, "hvc_ok") {
        p.hvc_ok = flag_of(value);
    } else if same(key, "hypercall_result") {
        p.hypercall_result = parse_i64(value);
    } else if same(key, "vmx_available") {
        p.vmx_available = flag_of(value);
    } else if same(key, "svm_available") {
        p.svm_available = flag_of(value);
    } else if same(key, "current_el") {
        p.current_el = u32_of(value);
    } else if same(key, "exit_cycles") {
        p.exit_cycles = u64_of(value);
    } else if same(key, "cpu_family") {
        p.cpu_family = Some(string_of(value));
    } else if same(key, "hypercall_probes") {
        p.hypercall_probes = u32_of(value);
    } else if same(key, "hypercall_age_ms") {
        p.hypercall_age_ms = u64_of(value);
    } else if same(key, "hypercall_cooldown_s") {
        p.hypercall_cooldown_s = u32_of(value);
    } else if same(key, "hypercall_next_ms") {
        p.hypercall_next_ms = u64_of(value);
    } else if same(key, "centaur_max_leaf") {
        p.centaur_max_leaf = leaf_of(value);
    } else if same(key, "hvc_vendor_uid") {
        if let Some(uid) = uid_of(value) {
            p.hvc_vendor_uid = Some(uid);
        }
    }
}

/// Parses the module's `key=value` report.
///
/// A broken report must not take the rest of the detection down with it, so
/// every text parses to something.
pub fn parse_kernel_report(text: &str) -> (probe: KernelProbe)
    ensures
        probe@ == report_of(crate::text::text_lines(text@)),
{
    let chars: Vec<char> = chars_of(text);
    let parts: Vec<&[char]> = lines(chars.as_slice());
    let ghost all = crate::text::text_lines(text@);
    let mut probe = KernelProbe::default();
    let mut i: usize = 0;
    assert(all.take(0).len() == 0);
    while i < parts.len()
        invariant
            i <= parts.len(),
            all == crate::text::parts_view(parts@),
            probe@ == report_of(all.take(i as int)),
        decreases parts.len() - i,
    {
        proof {
            assert(all.take(i + 1).drop_last() =~= all.take(i as int));
            assert(all.take(i + 1).last() == parts@[i as int]@);
        }
        if let Some((key, value)) = split_once(parts[i], '=') {
            apply_pair(&mut probe, trim(key, Trim::Space), trim(value, Trim::Space));
        }
        i = i + 1;
    }
    assert(all.take(i as int) =~= all);
    probe
}

/// Whether one of these lines, without white space at its ends, is `wanted`.
pub open spec fn has_line(lines: Seq<Seq<char>>, wanted: Seq<char>) -> bool {
    exists|i: int|
        0 <= i < lines.len() && crate::text::trimmed(#[trigger] lines[i], Trim::Space) == wanted
}

/// What a report published at the module's place says of a hypervisor.
/// Nothing for the report of the older performance-counter module, which was
/// published there too, and nothing for one with no hypervisor keys.
pub open spec fn module_report(text: Seq<char>) -> Option<ProbeView> {
    let lines = crate::text::text_lines(text);
    if has_line(lines, "source=perf"@) {
        None
    } else if report_of(lines).has_section() {
        Some(report_of(lines))
    } else {
        None
    }
}

/// The view of an optional report.
pub open spec fn probe_of(probe: Option<KernelProbe>) -> Option<ProbeView> {
    match probe {
        Some(probe) => Some(probe@),
        None => None,
    }
}

/// Reads the text found where the kernel module publishes its findings.
pub fn read_kernel_module(text: &str) -> (probe: Option<KernelProbe>)
    ensures
        probe_of(probe) == module_report(text@),
{
    let chars: Vec<char> = chars_of(text);
    let parts: Vec<&[char]> = lines(chars.as_slice());
    let ghost all = crate::text::text_lines(text@);
    let mut i: usize = 0;
    while i < parts.len()
        invariant
            i <= parts.len(),
            all == crate::text::parts_view(parts@),
            all == crate::text::text_lines(text@),
            forall|k: int|
                0 <= k < i ==> crate::text::trimmed(#[trigger] all[k], Trim::Space)
                    != "source=perf"@,
        decreases parts.len() - i,
    {
        if same(trim(parts[i], Trim::Space), "source=perf") {
            assert(crate::text::trimmed(all[i as int], Trim::Space) == "source=perf"@);
            return None;
        }
        assert(all[i as int] == parts@[i as int]@);
        i = i + 1;
    }
    let probe: KernelProbe = parse_kernel_report(text);
    if probe.version == 0 && probe.vmcall_ok.is_none() && probe.vmmcall_ok.is_none()
        && probe.hvc_ok.is_none() && probe.exit_cycles.is_none() {
        return None;
    }
    Some(probe)
}

/// Where the kernel module publishes its findings and takes commands.
pub const KERNEL_MODULE_PATH: &'static str = "/proc/nanochrono";

/// The module's report as it stands, where its file could be read.
pub fn kernel_module_probe(text: &Option<String>) -> (probe: Option<KernelProbe>)
    ensures
        probe_of(probe) == (match text_of(*text) {
            Some(text) => module_report(text),
            None => None,
        }),
{
    match text {
        Some(text) => read_kernel_module(text.as_str()),
        None => None,
    }
}

/// What to write to the module to have it probe again.
pub fn kernel_module_reprobe() -> (command: &'static str)
    ensures
        command@ == "reprobe"@,
{
    "reprobe"
}

/// What to write to the module to set its re-probe cooldown; zero disables it.
pub fn kernel_module_set_cooldown(seconds: u32) -> (command: String)
    ensures
        command@ == "cooldown="@ + crate::text::decimal(seconds as int),
{
    let mut command: String = String::new();
    push_text(&mut command, "cooldown=");
    push_decimal(&mut command, seconds as u64);
    assert(command@ =~= "cooldown="@ + crate::text::decimal(seconds as int));
    command
}

// ---------------------------------------------------------------------------
// The report
// ---------------------------------------------------------------------------

/// The complete finding.
#[derive(Debug, Clone)]
pub struct HypervisorReport {
    pub hypervisor: Hypervisor,
    pub confidence: Confidence,
    pub timing_impact: TimingImpact,
    /// Every source that contributed, in the order they were consulted.
    pub sources: Vec<DetectionSource>,
    /// The CPUID signature as text, if one was found.
    pub signature: Option<String>,
    /// Highest hypervisor CPUID leaf the platform answers.
    pub max_hypervisor_leaf: Option<u32>,
    /// TSC frequency the hypervisor declares, in kHz.
    pub declared_tsc_khz: Option<u32>,
    pub exit_cost: Option<ExitCost>,
    pub dmi: DmiHints,
    pub kernel: Option<KernelProbe>,
    /// `CNTFRQ_EL0`, the AArch64 timer frequency in Hz. Zero elsewhere.
    pub arm_counter_hz: u64,
    /// `CTR_EL0`, the AArch64 Cache Type Register. Zero elsewhere.
    pub arm_ctr_el0: u64,
    /// `MIDR_EL1`, the AArch64 Main ID Register. Zero elsewhere.
    pub arm_midr_el1: u64,
}

/// What a finding holds.
#[verifier::ext_equal]
pub struct ReportView {
    pub hypervisor: HypervisorView,
    pub confidence: Confidence,
    pub timing_impact: TimingImpact,
    pub sources: Seq<DetectionSource>,
    pub signature: Option<Seq<char>>,
    pub max_hypervisor_leaf: Option<u32>,
    pub declared_tsc_khz: Option<u32>,
    pub exit_cost: Option<ExitCost>,
    pub dmi: DmiView,
    pub kernel: Option<ProbeView>,
    pub arm_counter_hz: u64,
    pub arm_ctr_el0: u64,
    pub arm_midr_el1: u64,
}

impl View for HypervisorReport {
    type V = ReportView;

    open spec fn view(&self) -> ReportView {
        ReportView {
            hypervisor: self.hypervisor@,
            confidence: self.confidence,
            timing_impact: self.timing_impact,
            sources: self.sources@,
            signature: text_of(self.signature),
            max_hypervisor_leaf: self.max_hypervisor_leaf,
            declared_tsc_khz: self.declared_tsc_khz,
            exit_cost: self.exit_cost,
            dmi: self.dmi@,
            kernel: probe_of(self.kernel),
            arm_counter_hz: self.arm_counter_hz,
            arm_ctr_el0: self.arm_ctr_el0,
            arm_midr_el1: self.arm_midr_el1,
        }
    }
}

impl ReportView {
    /// Nothing found, beside these firmware strings.
    pub open spec fn blank(dmi: DmiView) -> ReportView {
        ReportView {
            hypervisor: HypervisorView::Absent,
            confidence: Confidence::Absent,
            timing_impact: TimingImpact::Native,
            sources: Seq::empty(),
            signature: None,
            max_hypervisor_leaf: None,
            declared_tsc_khz: None,
            exit_cost: None,
            dmi,
            kernel: None,
            arm_counter_hz: 0,
            arm_ctr_el0: 0,
            arm_midr_el1: 0,
        }
    }

    /// The report with a source recorded, once.
    pub open spec fn noting(self, source: DetectionSource) -> ReportView {
        if self.sources.contains(source) {
            self
        } else {
            ReportView { sources: self.sources.push(source), ..self }
        }
    }

    /// The report with a hypervisor named, where none was yet.
    pub open spec fn naming(self, hypervisor: HypervisorView) -> ReportView {
        if self.hypervisor is Absent {
            ReportView { hypervisor, ..self }
        } else {
            self
        }
    }

    /// The report with a source recorded and, where none was yet, the
    /// hypervisor it names.
    pub open spec fn finding(self, source: DetectionSource, hypervisor: HypervisorView)
        -> ReportView {
        self.noting(source).naming(hypervisor)
    }

    /// Whether one of the sources is a declaration.
    pub open spec fn declared(self) -> bool {
        exists|i: int| 0 <= i < self.sources.len() && (#[trigger] self.sources[i]).declares()
    }

    /// Whether one of the sources is an inference.
    pub open spec fn inferred(self) -> bool {
        exists|i: int| 0 <= i < self.sources.len() && !(#[trigger] self.sources[i]).declares()
    }

    /// Whether ring 0 had a hypercall accepted.
    pub open spec fn hypercall(self) -> bool {
        self.kernel matches Some(probe) && probe.accepted()
    }

    /// How much the evidence weighs: confirmed by a declaration or a
    /// hypercall, suspected from an inference alone.
    pub open spec fn weight(self) -> Confidence {
        if self.declared() || self.hypercall() {
            Confidence::Confirmed
        } else if self.inferred() {
            Confidence::Suspected
        } else {
            Confidence::Absent
        }
    }

    /// The report with its verdict drawn.
    pub open spec fn concluded(self) -> ReportView {
        ReportView {
            confidence: self.weight(),
            timing_impact: if self.hypervisor is QemuTcg {
                TimingImpact::Emulated
            } else if self.weight() is Absent {
                TimingImpact::Native
            } else {
                TimingImpact::HardwareAssisted
            },
            ..self
        }
    }
}

impl Default for HypervisorReport {
    fn default() -> (report: HypervisorReport)
        ensures
            report@ == ReportView::blank(
                (DmiView { sys_vendor: None, product_name: None, bios_vendor: None }),
            ),
    {
        HypervisorReport::over(DmiHints::default())
    }
}

impl HypervisorReport {
    fn over(dmi: DmiHints) -> (report: HypervisorReport)
        ensures
            report@ == ReportView::blank(dmi@),
    {
        let report = HypervisorReport {
            hypervisor: Hypervisor::Absent,
            confidence: Confidence::Absent,
            timing_impact: TimingImpact::Native,
            sources: Vec::new(),
            signature: None,
            max_hypervisor_leaf: None,
            declared_tsc_khz: None,
            exit_cost: None,
            dmi,
            kernel: None,
            arm_counter_hz: 0,
            arm_ctr_el0: 0,
            arm_midr_el1: 0,
        };
        assert(report@ =~= ReportView::blank(dmi@));
        report
    }

    /// Whether anything indicates virtualization.
    pub fn is_virtualized(&self) -> (virtualized: bool)
        ensures
            virtualized == !(self@.confidence is Absent),
    {
        self.confidence != Confidence::Absent
    }

    /// Whether the optional kernel module contributed.
    pub fn has_kernel_module(&self) -> (has: bool)
        ensures
            has == (self@.kernel is Some),
    {
        self.kernel.is_some()
    }

    fn has_source(&self, source: DetectionSource) -> (has: bool)
        ensures
            has == self@.sources.contains(source),
    {
        let mut i: usize = 0;
        while i < self.sources.len()
            invariant
                i <= self.sources.len(),
                forall|k: int| 0 <= k < i ==> self.sources@[k] != source,
            decreases self.sources.len() - i,
        {
            if self.sources[i] == source {
                assert(self.sources@.contains(source));
                return true;
            }
            i = i + 1;
        }
        false
    }

    /// Records a source, once.
    pub fn note(&mut self, source: DetectionSource)
        ensures
            final(self)@ == old(self)@.noting(source),
    {
        if !self.has_source(source) {
            self.sources.push(source);
        }
        assert(self@ =~= old(self)@.noting(source));
    }

    /// Names the hypervisor, where none was named yet.
    fn name_it(&mut self, hypervisor: Hypervisor)
        ensures
            final(self)@ == old(self)@.naming(hypervisor@),
    {
        if self.hypervisor.is_none() {
            self.hypervisor = hypervisor;
        }
        assert(self@ =~= old(self)@.naming(hypervisor@));
    }

    fn any_declared(&self) -> (declared: bool)
        ensures
            declared == self@.declared(),
    {
        let mut i: usize = 0;
        while i < self.sources.len()
            invariant
                i <= self.sources.len(),
                forall|k: int| 0 <= k < i ==> !(#[trigger] self@.sources[k]).declares(),
            decreases self.sources.len() - i,
        {
            if self.sources[i].is_declared() {
                assert(self@.sources[i as int].declares());
                return true;
            }
            i = i + 1;
        }
        false
    }

    fn any_inferred(&self) -> (inferred: bool)
        ensures
            inferred == self@.inferred(),
    {
        let mut i: usize = 0;
        while i < self.sources.len()
            invariant
                i <= self.sources.len(),
                forall|k: int| 0 <= k < i ==> (#[trigger] self@.sources[k]).declares(),
            decreases self.sources.len() - i,
        {
            if !self.sources[i].is_declared() {
                assert(!self@.sources[i as int].declares());
                return true;
            }
            i = i + 1;
        }
        false
    }

    /// Weighs the evidence into a verdict and a timing impact.
    pub fn conclude(&mut self)
        ensures
            final(self)@ == old(self)@.concluded(),
    {
        let declared = self.any_declared();
        let inferred = self.any_inferred();
        let hypercall = match &self.kernel {
            Some(probe) => probe.hypercall_accepted(),
            None => false,
        };
        // Nothing declared itself, but something looks wrong: worth
        // reporting, not worth asserting.
        self.confidence = if declared || hypercall {
            Confidence::Confirmed
        } else if inferred {
            Confidence::Suspected
        } else {
            Confidence::Absent
        };
        self.timing_impact = if self.hypervisor.is_emulated() {
            TimingImpact::Emulated
        } else if self.confidence == Confidence::Absent {
            TimingImpact::Native
        } else {
            TimingImpact::HardwareAssisted
        };
        assert(self@ =~= old(self)@.concluded());
    }
}

// ---------------------------------------------------------------------------
// CPUID
// ---------------------------------------------------------------------------

/// The hypervisor that a twelve-byte CPUID signature names.
pub open spec fn signed_by(signature: Seq<u8>) -> Option<HypervisorView> {
    if signature == crate::bytes::ascii("KVMKVMKVM\0\0\0"@) {
        Some(HypervisorView::Kvm)
    } else if signature == crate::bytes::ascii("TCGTCGTCGTCG"@) {
        Some(HypervisorView::QemuTcg)
    } else if signature == crate::bytes::ascii("VMwareVMware"@) {
        Some(HypervisorView::VMware)
    } else if signature == crate::bytes::ascii("Microsoft Hv"@) {
        Some(HypervisorView::HyperV)
    } else if signature == crate::bytes::ascii("XenVMMXenVMM"@) {
        Some(HypervisorView::Xen)
    } else if signature == crate::bytes::ascii("VBoxVBoxVBox"@) {
        Some(HypervisorView::VirtualBox)
    } else if signature == crate::bytes::ascii("prl hyperv  "@) {
        Some(HypervisorView::Parallels)
    } else if signature == crate::bytes::ascii(" lrpepyh vr "@) {
        Some(HypervisorView::Parallels)
    } else if signature == crate::bytes::ascii("bhyve bhyve "@) {
        Some(HypervisorView::Bhyve)
    } else if signature == crate::bytes::ascii("ACRNACRNACRN"@) {
        Some(HypervisorView::Acrn)
    } else if signature == crate::bytes::ascii("Jailhouse\0\0\0"@) {
        Some(HypervisorView::Jailhouse)
    } else if signature == crate::bytes::ascii("Apple VZ\0\0\0\0"@) {
        Some(HypervisorView::AppleVz)
    } else if signature == crate::bytes::ascii("QNXQVMBSQG\0\0"@) {
        Some(HypervisorView::Qnx)
    } else if signature == crate::bytes::ascii("MicrosoftXTA"@) {
        Some(HypervisorView::HyperV)
    } else {
        None
    }
}

/// The signatures that are known.
pub open spec fn known_signatures() -> Seq<Seq<char>> {
    seq![
        "KVMKVMKVM\0\0\0"@,
        "TCGTCGTCGTCG"@,
        "VMwareVMware"@,
        "Microsoft Hv"@,
        "XenVMMXenVMM"@,
        "VBoxVBoxVBox"@,
        "prl hyperv  "@,
        " lrpepyh vr "@,
        "bhyve bhyve "@,
        "ACRNACRNACRN"@,
        "Jailhouse\0\0\0"@,
        "Apple VZ\0\0\0\0"@,
        "QNXQVMBSQG\0\0"@,
        "MicrosoftXTA"@,
    ]
}

/// Lists the signatures that are known.
pub fn cpuid_signatures() -> (signatures: Vec<&'static str>)
    ensures
        signatures@.map_values(|s: &'static str| s@) == known_signatures(),
{
    let signatures: Vec<&'static str> = vec![
        "KVMKVMKVM\0\0\0",
        "TCGTCGTCGTCG",
        "VMwareVMware",
        "Microsoft Hv",
        "XenVMMXenVMM",
        "VBoxVBoxVBox",
        "prl hyperv  ",
        " lrpepyh vr ",
        "bhyve bhyve ",
        "ACRNACRNACRN",
        "Jailhouse\0\0\0",
        "Apple VZ\0\0\0\0",
        "QNXQVMBSQG\0\0",
        "MicrosoftXTA",
    ];
    assert(signatures@.map_values(|s: &'static str| s@) =~= known_signatures());
    signatures
}

/// Splits the three CPUID registers into the twelve signature bytes.
pub fn signature_bytes(ebx: u32, ecx: u32, edx: u32) -> (signature: [u8; 12])
    ensures
        signature@ == crate::bytes::le_bytes(ebx) + crate::bytes::le_bytes(ecx)
            + crate::bytes::le_bytes(edx),
{
    twelve_bytes(ebx, ecx, edx)
}

/// Whether a byte is an ASCII letter, digit, mark or blank.
pub open spec fn visible(b: u8) -> bool {
    0x20 <= b <= 0x7E
}

/// A signature as text: what stands before the first NUL, where that is
/// something and all of it can be shown.
pub open spec fn signature_text(signature: Seq<u8>) -> Option<Seq<char>> {
    let part = crate::bytes::before_nul(signature);
    if part.len() > 0 && forall|i: int| 0 <= i < part.len() ==> visible(#[trigger] part[i]) {
        Some(ascii_text(part))
    } else {
        None
    }
}

/// Renders a signature as text, or `None` if it is empty or not printable.
///
/// A leaf that is not implemented reads back as zeros or as whatever the last
/// leaf returned, so the printability check is what stops garbage being
/// reported as a hypervisor.
pub fn decode_signature(signature: &[u8; 12]) -> (text: Option<String>)
    ensures
        text_of(text) == signature_text(signature@),
{
    let part: &[u8] = until_nul(signature.as_slice());
    if part.len() == 0 {
        return None;
    }
    let mut i: usize = 0;
    while i < part.len()
        invariant
            i <= part.len(),
            part@ == crate::bytes::before_nul(signature@),
            forall|k: int| 0 <= k < i ==> visible(#[trigger] part@[k]),
        decreases part.len() - i,
    {
        if part[i] < 0x20 || part[i] > 0x7E {
            assert(!visible(part@[i as int]));
            return None;
        }
        i = i + 1;
    }
    Some(string_of(chars_of_ascii(part).as_slice()))
}

/// Finds the hypervisor a signature names.
pub fn match_signature(signature: &[u8; 12]) -> (hypervisor: Option<Hypervisor>)
    ensures
        hypervisor_of(hypervisor) == signed_by(signature@),
{
    let s: &[u8] = signature.as_slice();
    if bytes_are(s, "KVMKVMKVM\0\0\0") {
        Some(Hypervisor::Kvm)
    } else if bytes_are(s, "TCGTCGTCGTCG") {
        Some(Hypervisor::QemuTcg)
    } else if bytes_are(s, "VMwareVMware") {
        Some(Hypervisor::VMware)
    } else if bytes_are(s, "Microsoft Hv") {
        Some(Hypervisor::HyperV)
    } else if bytes_are(s, "XenVMMXenVMM") {
        Some(Hypervisor::Xen)
    } else if bytes_are(s, "VBoxVBoxVBox") {
        Some(Hypervisor::VirtualBox)
    } else if bytes_are(s, "prl hyperv  ") {
        Some(Hypervisor::Parallels)
    } else if bytes_are(s, " lrpepyh vr ") {
        Some(Hypervisor::Parallels)
    } else if bytes_are(s, "bhyve bhyve ") {
        Some(Hypervisor::Bhyve)
    } else if bytes_are(s, "ACRNACRNACRN") {
        Some(Hypervisor::Acrn)
    } else if bytes_are(s, "Jailhouse\0\0\0") {
        Some(Hypervisor::Jailhouse)
    } else if bytes_are(s, "Apple VZ\0\0\0\0") {
        Some(Hypervisor::AppleVz)
    } else if bytes_are(s, "QNXQVMBSQG\0\0") {
        Some(Hypervisor::Qnx)
    } else if bytes_are(s, "MicrosoftXTA") {
        Some(Hypervisor::HyperV)
    } else {
        None
    }
}

/// The signature bytes of a hypervisor leaf, in EBX, ECX, EDX order.
pub open spec fn leaf_signature(r: Registers) -> Seq<u8> {
    crate::bytes::le_bytes(r.ebx) + crate::bytes::le_bytes(r.ecx) + crate::bytes::le_bytes(r.edx)
}

/// The first hypervisor leaf that holds a printable signature. Hyper-V nested
/// under another hypervisor moves its signature up in steps of `100H`.
pub open spec fn vendor_leaf(cpu: CpuidTable) -> Option<Registers> {
    if signature_text(leaf_signature(cpu.at(0x4000_0000, 0))) is Some {
        Some(cpu.at(0x4000_0000, 0))
    } else if signature_text(leaf_signature(cpu.at(0x4000_0100, 0))) is Some {
        Some(cpu.at(0x4000_0100, 0))
    } else if signature_text(leaf_signature(cpu.at(0x4000_0200, 0))) is Some {
        Some(cpu.at(0x4000_0200, 0))
    } else {
        None
    }
}

/// A signature without the blanks at its end.
pub open spec fn short_signature(r: Registers) -> Seq<char> {
    crate::text::trimmed_end(signature_text(leaf_signature(r))->0, Trim::Space)
}

impl ReportView {
    /// The report after the CPUID leaves: the feature bit, then the vendor
    /// leaf with its name, its highest leaf, and the TSC frequency where the
    /// leaves reach it and it is stated.
    pub open spec fn with_cpuid(self, cpu: CpuidTable) -> ReportView {
        let base = if crate::bytes::bit32(cpu.at(1, 0).ecx, 31) {
            self.noting(DetectionSource::CpuidFeatureBit)
        } else {
            self
        };
        match vendor_leaf(cpu) {
            None => base,
            Some(r) => ReportView {
                signature: Some(short_signature(r)),
                max_hypervisor_leaf: Some(r.eax),
                hypervisor: match signed_by(leaf_signature(r)) {
                    Some(hypervisor) => hypervisor,
                    None => HypervisorView::Other(short_signature(r)),
                },
                declared_tsc_khz: if r.eax >= 0x4000_0010 && cpu.at(0x4000_0010, 0).eax > 0 {
                    Some(cpu.at(0x4000_0010, 0).eax)
                } else {
                    base.declared_tsc_khz
                },
                ..base.noting(DetectionSource::CpuidVendorLeaf)
            },
        }
    }
}

impl HypervisorReport {
    /// Takes what a hypervisor leaf says; false where it holds no printable
    /// signature.
    fn take_vendor_leaf(&mut self, cpu: &CpuidTable, base: u32) -> (found: bool)
        ensures
            ({
                let r = cpu.at(base, 0);
                &&& found == (signature_text(leaf_signature(r)) is Some)
                &&& found ==> final(self)@ == (ReportView {
                    signature: Some(short_signature(r)),
                    max_hypervisor_leaf: Some(r.eax),
                    hypervisor: match signed_by(leaf_signature(r)) {
                        Some(hypervisor) => hypervisor,
                        None => HypervisorView::Other(short_signature(r)),
                    },
                    declared_tsc_khz: if r.eax >= 0x4000_0010 && cpu.at(0x4000_0010, 0).eax > 0 {
                        Some(cpu.at(0x4000_0010, 0).eax)
                    } else {
                        old(self)@.declared_tsc_khz
                    },
                    ..old(self)@.noting(DetectionSource::CpuidVendorLeaf)
                })
                &&& !found ==> final(self)@ == old(self)@
            }),
    {
        let r: Registers = cpu.cpuid(base, 0);
        let signature: [u8; 12] = signature_bytes(r.ebx, r.ecx, r.edx);
        let text: String = match decode_signature(&signature) {
            Some(text) => text,
            None => return false,
        };
        let chars: Vec<char> = chars_of(text.as_str());
        let short: &[char] = trim_end(chars.as_slice(), Trim::Space);
        self.note(DetectionSource::CpuidVendorLeaf);
        let ghost noted = self@;
        self.signature = Some(string_of(short));
        self.max_hypervisor_leaf = Some(r.eax);
        self.hypervisor = match match_signature(&signature) {
            Some(hypervisor) => hypervisor,
            None => Hypervisor::Other(string_of(short)),
        };
        if r.eax >= 0x4000_0010 {
            let khz: u32 = cpu.cpuid(0x4000_0010, 0).eax;
            if khz > 0 {
                self.declared_tsc_khz = Some(khz);
            }
        }
        assert(self@.sources =~= noted.sources);
        true
    }

    /// Reads the hypervisor's CPUID leaves.
    pub fn detect_cpuid(&mut self, cpu: &CpuidTable)
        ensures
            final(self)@ == old(self)@.with_cpuid(*cpu),
    {
        if test32(cpu.cpuid(1, 0).ecx, 31) {
            self.note(DetectionSource::CpuidFeatureBit);
        }
        let ghost base = self@;
        if self.take_vendor_leaf(cpu, 0x4000_0000) {
        } else if self.take_vendor_leaf(cpu, 0x4000_0100) {
        } else if self.take_vendor_leaf(cpu, 0x4000_0200) {
        }
        assert(self@ =~= old(self)@.with_cpuid(*cpu));
    }
}

// ---------------------------------------------------------------------------
// AArch64 registers
// ---------------------------------------------------------------------------

/// What a timer frequency gives away. Physical parts cluster around 19.2, 24,
/// 25 and 100 MHz; these are the ones virtual timers invented.
pub open spec fn frequency_signature(hz: u64) -> Option<HypervisorView> {
    if hz == 62_500_000 {
        Some(HypervisorView::Other("qemu/kvm (virt board)"@))
    } else if hz == 1_000_000_000 {
        Some(HypervisorView::QemuTcg)
    } else {
        None
    }
}

/// Matches `CNTFRQ_EL0` against the frequencies virtual timers use.
pub fn counter_frequency_signature(hz: u64) -> (hypervisor: Option<Hypervisor>)
    ensures
        hypervisor_of(hypervisor) == frequency_signature(hz),
{
    if hz == 62_500_000 {
        // QEMU's `virt` board, under both TCG and KVM.
        Some(Hypervisor::Other(string_of(chars_of("qemu/kvm (virt board)").as_slice())))
    } else if hz == 1_000_000_000 {
        // A counter straight off a nanosecond clock is emulation.
        Some(Hypervisor::QemuTcg)
    } else {
        None
    }
}

/// The implementer field of `MIDR_EL1`.
pub open spec fn implementer(midr: u64) -> u64 {
    (midr >> 24) & 0xFF
}

/// The part number field of `MIDR_EL1`.
pub open spec fn part_number(midr: u64) -> u64 {
    (midr >> 4) & 0xFFF
}

/// What a `MIDR_EL1` gives away: nothing that shipped has no implementer.
pub open spec fn null_implementer(midr: u64) -> Option<HypervisorView> {
    if implementer(midr) == 0 {
        Some(HypervisorView::Other("unidentified (null MIDR)"@))
    } else {
        None
    }
}

/// Matches `MIDR_EL1` against the implementer codes only an emulator reports.
pub fn midr_signature(midr: u64) -> (hypervisor: Option<Hypervisor>)
    ensures
        hypervisor_of(hypervisor) == null_implementer(midr),
{
    if (midr >> 24) & 0xFF == 0 {
        Some(Hypervisor::Other(string_of(chars_of("unidentified (null MIDR)").as_slice())))
    } else {
        None
    }
}

/// `s` without every `0x` at its start.
pub open spec fn without_0x(s: Seq<char>) -> Seq<char>
    decreases s.len(),
{
    if s.len() >= 2 && s[0] == '0' && s[1] == 'x' {
        without_0x(s.skip(2))
    } else {
        s
    }
}

/// The register value that a published text spells, if it does.
pub open spec fn midr_value(text: Option<Seq<char>>) -> Option<u64> {
    match tidied(text) {
        Some(inner) => match crate::text::unsigned_value(
            without_0x(crate::text::trimmed(inner, Trim::Space)),
            16,
            u64::MAX as int,
        ) {
            Some(n) => Some(n as u64),
            None => None,
        },
        None => None,
    }
}

/// Reads `MIDR_EL1` from the text Linux publishes for it.
pub fn read_midr_el1(text: &Option<String>) -> (midr: Option<u64>)
    ensures
        midr == midr_value(text_of(*text)),
{
    let inner: String = match read_trimmed(text) {
        Some(inner) => inner,
        None => return None,
    };
    let chars: Vec<char> = chars_of(inner.as_str());
    let mut digits: &[char] = trim(chars.as_slice(), Trim::Space);
    let ghost whole = digits@;
    while digits.len() >= 2 && digits[0] == '0' && digits[1] == 'x'
        invariant
            without_0x(digits@) == without_0x(whole),
        decreases digits.len(),
    {
        let rest = vstd::slice::slice_subrange(digits, 2, digits.len());
        assert(rest@ =~= digits@.skip(2));
        digits = rest;
    }
    parse_unsigned(digits, 16, 0xFFFF_FFFF_FFFF_FFFF)
}

/// The AArch64 registers that can be read without a trap, and the text Linux
/// publishes for the one that cannot.
#[derive(Debug)]
pub struct ArmEvidence {
    pub cntfrq: u64,
    pub ctr_el0: u64,
    pub midr_text: Option<String>,
}

impl ReportView {
    /// The report after the AArch64 registers.
    pub open spec fn with_arm(self, cntfrq: u64, ctr_el0: u64, midr: Option<u64>) -> ReportView {
        let timed = match frequency_signature(cntfrq) {
            Some(hypervisor) => self.finding(DetectionSource::ArmCounterFrequency, hypervisor),
            None => self,
        };
        let read = ReportView { arm_counter_hz: cntfrq, arm_ctr_el0: ctr_el0, ..timed };
        match midr {
            None => read,
            Some(midr) => {
                let named = ReportView { arm_midr_el1: midr, ..read };
                match null_implementer(midr) {
                    Some(hypervisor) => named.finding(DetectionSource::ArmMidr, hypervisor),
                    None => named,
                }
            },
        }
    }
}

impl HypervisorReport {
    /// Reads the AArch64 counterparts of the CPUID leaves.
    pub fn detect_arm(&mut self, arm: &ArmEvidence)
        ensures
            final(self)@ == old(self)@.with_arm(
                arm.cntfrq,
                arm.ctr_el0,
                midr_value(text_of(arm.midr_text)),
            ),
    {
        if let Some(hypervisor) = counter_frequency_signature(arm.cntfrq) {
            self.note(DetectionSource::ArmCounterFrequency);
            self.name_it(hypervisor);
        }
        let ghost timed = self@;
        self.arm_counter_hz = arm.cntfrq;
        self.arm_ctr_el0 = arm.ctr_el0;
        assert(self@ =~= (ReportView {
            arm_counter_hz: arm.cntfrq,
            arm_ctr_el0: arm.ctr_el0,
            ..timed
        }));
        if let Some(midr) = read_midr_el1(&arm.midr_text) {
            let ghost read = self@;
            self.arm_midr_el1 = midr;
            assert(self@ =~= (ReportView { arm_midr_el1: midr, ..read }));
            if let Some(hypervisor) = midr_signature(midr) {
                self.note(DetectionSource::ArmMidr);
                self.name_it(hypervisor);
            }
        }
    }
}

// ---------------------------------------------------------------------------
// Darwin and Windows
// ---------------------------------------------------------------------------

/// What the Darwin kernel answers.
#[derive(Debug)]
pub struct MacEvidence {
    /// `kern.hv_vmm_present`.
    pub vmm_present: Option<u64>,
    /// `hw.model`.
    pub hw_model: Option<String>,
}

/// The hypervisor behind a Mac that says it is a guest: its model is the only
/// string that names it.
pub open spec fn mac_guest(hw_model: Option<Seq<char>>) -> HypervisorView {
    match hw_model {
        Some(model) => if crate::text::has_text(crate::text::lowered(model), "virtualmac"@) {
            HypervisorView::AppleVz
        } else {
            HypervisorView::Other(model)
        },
        None => HypervisorView::Other("unidentified (kern.hv_vmm_present)"@),
    }
}

impl ReportView {
    /// The report after the Darwin kernel's answer.
    pub open spec fn with_mac(self, present: Option<u64>, hw_model: Option<Seq<char>>)
        -> ReportView {
        if present == Some(1u64) {
            self.finding(DetectionSource::MacSysctl, mac_guest(hw_model))
        } else {
            self
        }
    }
}

impl HypervisorReport {
    /// Takes the Darwin kernel's own answer, which is a declaration.
    pub fn detect_mac_sysctl(&mut self, mac: &MacEvidence)
        ensures
            final(self)@ == old(self)@.with_mac(mac.vmm_present, text_of(mac.hw_model)),
    {
        let present = match mac.vmm_present {
            Some(n) => n == 1,
            None => false,
        };
        if !present {
            return;
        }
        self.note(DetectionSource::MacSysctl);
        let hypervisor: Hypervisor = match &mac.hw_model {
            Some(model) => {
                let chars: Vec<char> = chars_of(model.as_str());
                if contains(to_lower(chars.as_slice()).as_slice(), "virtualmac") {
                    Hypervisor::AppleVz
                } else {
                    Hypervisor::Other(string_of(chars.as_slice()))
                }
            },
            None => Hypervisor::Other(
                string_of(chars_of("unidentified (kern.hv_vmm_present)").as_slice()),
            ),
        };
        self.name_it(hypervisor);
    }
}

/// What Windows keeps in its registry.
#[derive(Debug)]
pub struct RegistryEvidence {
    /// Whether the guest integration key exists, which Windows creates inside
    /// a Hyper-V guest and nowhere else.
    pub guest_parameters: bool,
    pub system_manufacturer: Option<String>,
    pub system_product_name: Option<String>,
    pub bios_vendor: Option<String>,
}

impl RegistryEvidence {
    /// The hypervisor the registry names.
    pub open spec fn named(self) -> Option<HypervisorView> {
        if self.guest_parameters {
            Some(HypervisorView::HyperV)
        } else if identified_by(text_of(self.system_manufacturer)) is Some {
            identified_by(text_of(self.system_manufacturer))
        } else if identified_by(text_of(self.system_product_name)) is Some {
            identified_by(text_of(self.system_product_name))
        } else {
            identified_by(text_of(self.bios_vendor))
        }
    }
}

/// Reads the hypervisor evidence Windows keeps in the registry, and says
/// which key gave it.
pub fn read_registry_evidence(registry: &RegistryEvidence) -> (evidence: Option<
    (Hypervisor, &'static str),
>)
    ensures
        match evidence {
            Some((hypervisor, which)) => registry.named() == Some(hypervisor@) && which@ == (
            if registry.guest_parameters {
                "hyper-v guest parameters"@
            } else {
                "bios description key"@
            }),
            None => registry.named() is None,
        },
{
    if registry.guest_parameters {
        return Some((Hypervisor::HyperV, "hyper-v guest parameters"));
    }
    let found: Option<Hypervisor> = match identify_text(&registry.system_manufacturer) {
        Some(found) => Some(found),
        None => match identify_text(&registry.system_product_name) {
            Some(found) => Some(found),
            None => identify_text(&registry.bios_vendor),
        },
    };
    match found {
        Some(hypervisor) => Some((hypervisor, "bios description key")),
        None => None,
    }
}

impl ReportView {
    /// The report after the Windows registry.
    pub open spec fn with_registry(self, registry: RegistryEvidence) -> ReportView {
        match registry.named() {
            Some(hypervisor) => self.finding(DetectionSource::WindowsRegistry, hypervisor),
            None => self,
        }
    }
}

impl HypervisorReport {
    /// Takes what Windows records of virtualization.
    pub fn detect_windows_registry(&mut self, registry: &RegistryEvidence)
        ensures
            final(self)@ == old(self)@.with_registry(*registry),
    {
        if let Some((hypervisor, _which)) = read_registry_evidence(registry) {
            self.note(DetectionSource::WindowsRegistry);
            self.name_it(hypervisor);
        }
    }
}

// ---------------------------------------------------------------------------
// The files Linux publishes
// ---------------------------------------------------------------------------

/// What the places where Linux records virtualization hold.
#[derive(Debug)]
pub struct PlatformFiles {
    /// `/sys/hypervisor/type`.
    pub hypervisor_type: Option<String>,
    /// `/proc/device-tree/hypervisor/compatible`.
    pub device_tree: Option<String>,
    /// `/proc/sys/kernel/osrelease`.
    pub osrelease: Option<String>,
    /// The clocksource the kernel settled on.
    pub clocksource: Option<String>,
    /// Whether `/sys/bus/vmbus/devices` holds anything.
    pub vmbus_devices: bool,
    /// Whether `/proc/xen` holds anything.
    pub xen_directory: bool,
    /// Whether `/sys/bus/virtio/devices` holds anything.
    pub virtio_devices: bool,
    /// `/proc/cpuinfo`.
    pub cpuinfo: Option<String>,
}

/// The hypervisor that a clocksource names.
pub open spec fn clocksource_names(clocksource: Seq<char>) -> Option<HypervisorView> {
    if clocksource == "kvm-clock"@ {
        Some(HypervisorView::Kvm)
    } else if clocksource == "xen"@ {
        Some(HypervisorView::Xen)
    } else if crate::text::begins_with(clocksource, "hyperv"@) {
        Some(HypervisorView::HyperV)
    } else if clocksource == "vmware"@ {
        Some(HypervisorView::VMware)
    } else {
        None
    }
}

/// Whether a line of `/proc/cpuinfo` lists the hypervisor flag.
pub open spec fn flags_hypervisor(line: Seq<char>) -> bool {
    crate::text::begins_with(line, "flags"@) && crate::text::has_part(
        crate::text::words(line),
        "hypervisor"@,
    )
}

/// Whether one of these lines lists the hypervisor flag.
pub open spec fn any_flags_hypervisor(lines: Seq<Seq<char>>) -> bool {
    exists|i: int| 0 <= i < lines.len() && flags_hypervisor(#[trigger] lines[i])
}

impl ReportView {
    /// The report after `/sys/hypervisor/type`.
    pub open spec fn with_type(self, text: Option<Seq<char>>) -> ReportView {
        match tidied(text) {
            Some(kind) => self.finding(
                DetectionSource::SysHypervisor,
                if crate::text::lowered(kind) == "xen"@ {
                    HypervisorView::Xen
                } else {
                    HypervisorView::Other(crate::text::lowered(kind))
                },
            ),
            None => self,
        }
    }

    /// The report after the device tree.
    pub open spec fn with_device_tree(self, text: Option<Seq<char>>) -> ReportView {
        match tidied(text) {
            Some(compatible) => self.finding(
                DetectionSource::DeviceTree,
                if crate::text::has_text(crate::text::lowered(compatible), "xen"@) {
                    HypervisorView::Xen
                } else if crate::text::has_text(crate::text::lowered(compatible), "kvm"@) {
                    HypervisorView::Kvm
                } else {
                    HypervisorView::Other(crate::text::trimmed_end(compatible, Trim::Nul))
                },
            ),
            None => self,
        }
    }

    /// The report after the kernel's release string, where WSL names itself.
    pub open spec fn with_release(self, text: Option<Seq<char>>) -> ReportView {
        match tidied(text) {
            Some(release) => if crate::text::has_text(
                crate::text::lowered(release),
                "microsoft"@,
            ) {
                let noted = self.noting(DetectionSource::ProcCpuinfo);
                if self.hypervisor is Absent || self.hypervisor is HyperV {
                    ReportView { hypervisor: HypervisorView::Wsl, ..noted }
                } else {
                    noted
                }
            } else {
                self
            },
            None => self,
        }
    }

    /// The report after the clocksource.
    pub open spec fn with_clocksource(self, text: Option<Seq<char>>) -> ReportView {
        match tidied(text) {
            Some(clocksource) => match clocksource_names(clocksource) {
                Some(hypervisor) => self.finding(DetectionSource::Clocksource, hypervisor),
                None => self,
            },
            None => self,
        }
    }

    /// The report after the paravirtual buses, which only exist inside a
    /// guest.
    pub open spec fn with_buses(self, vmbus: bool, xen: bool, virtio: bool) -> ReportView {
        let a = if vmbus {
            self.finding(DetectionSource::ParavirtualBus, HypervisorView::HyperV)
        } else {
            self
        };
        let b = if xen {
            a.finding(DetectionSource::ParavirtualBus, HypervisorView::Xen)
        } else {
            a
        };
        if virtio {
            b.noting(DetectionSource::ParavirtualBus)
        } else {
            b
        }
    }

    /// The report after `/proc/cpuinfo`.
    pub open spec fn with_cpuinfo(self, text: Option<Seq<char>>) -> ReportView {
        match tidied(text) {
            Some(cpuinfo) => if any_flags_hypervisor(crate::text::text_lines(cpuinfo)) {
                self.noting(DetectionSource::ProcCpuinfo)
            } else {
                self
            },
            None => self,
        }
    }

    /// The report after all the files, in the order they are consulted.
    pub open spec fn with_files(self, files: PlatformFiles) -> ReportView {
        self.with_type(text_of(files.hypervisor_type)).with_device_tree(
            text_of(files.device_tree),
        ).with_release(text_of(files.osrelease)).with_clocksource(
            text_of(files.clocksource),
        ).with_buses(files.vmbus_devices, files.xen_directory, files.virtio_devices).with_cpuinfo(
            text_of(files.cpuinfo),
        )
    }
}

impl HypervisorReport {
    fn take_type(&mut self, text: &Option<String>)
        ensures
            final(self)@ == old(self)@.with_type(text_of(*text)),
    {
        if let Some(kind) = read_trimmed(text) {
            let lowered: Vec<char> = to_lower(chars_of(kind.as_str()).as_slice());
            self.note(DetectionSource::SysHypervisor);
            if same(lowered.as_slice(), "xen") {
                self.name_it(Hypervisor::Xen);
            } else {
                self.name_it(Hypervisor::Other(string_of(lowered.as_slice())));
            }
        }
    }

    fn take_device_tree(&mut self, text: &Option<String>)
        ensures
            final(self)@ == old(self)@.with_device_tree(text_of(*text)),
    {
        if let Some(compatible) = read_trimmed(text) {
            let chars: Vec<char> = chars_of(compatible.as_str());
            let lowered: Vec<char> = to_lower(chars.as_slice());
            self.note(DetectionSource::DeviceTree);
            if contains(lowered.as_slice(), "xen") {
                self.name_it(Hypervisor::Xen);
            } else if contains(lowered.as_slice(), "kvm") {
                self.name_it(Hypervisor::Kvm);
            } else {
                self.name_it(
                    Hypervisor::Other(string_of(trim_end(chars.as_slice(), Trim::Nul))),
                );
            }
        }
    }

    fn take_release(&mut self, text: &Option<String>)
        ensures
            final(self)@ == old(self)@.with_release(text_of(*text)),
    {
        if let Some(release) = read_trimmed(text) {
            let lowered: Vec<char> = to_lower(chars_of(release.as_str()).as_slice());
            if contains(lowered.as_slice(), "microsoft") {
                self.note(DetectionSource::ProcCpuinfo);
                let ghost noted = self@;
                let replace = match self.hypervisor {
                    Hypervisor::Absent => true,
                    Hypervisor::HyperV => true,
                    _ => false,
                };
                if replace {
                    self.hypervisor = Hypervisor::Wsl;
                    assert(self@ =~= (ReportView { hypervisor: HypervisorView::Wsl, ..noted }));
                }
            }
        }
    }

    fn take_clocksource(&mut self, text: &Option<String>)
        ensures
            final(self)@ == old(self)@.with_clocksource(text_of(*text)),
    {
        if let Some(clocksource) = read_trimmed(text) {
            let chars: Vec<char> = chars_of(clocksource.as_str());
            let s: &[char] = chars.as_slice();
            let named: Option<Hypervisor> = if same(s, "kvm-clock") {
                Some(Hypervisor::Kvm)
            } else if same(s, "xen") {
                Some(Hypervisor::Xen)
            } else if starts_with(s, "hyperv") {
                Some(Hypervisor::HyperV)
            } else if same(s, "vmware") {
                Some(Hypervisor::VMware)
            } else {
                None
            };
            if let Some(hypervisor) = named {
                self.note(DetectionSource::Clocksource);
                self.name_it(hypervisor);
            }
        }
    }

    fn take_buses(&mut self, vmbus: bool, xen: bool, virtio: bool)
        ensures
            final(self)@ == old(self)@.with_buses(vmbus, xen, virtio),
    {
        if vmbus {
            self.note(DetectionSource::ParavirtualBus);
            self.name_it(Hypervisor::HyperV);
        }
        if xen {
            self.note(DetectionSource::ParavirtualBus);
            self.name_it(Hypervisor::Xen);
        }
        if virtio {
            self.note(DetectionSource::ParavirtualBus);
        }
    }

    fn take_cpuinfo(&mut self, text: &Option<String>)
        ensures
            final(self)@ == old(self)@.with_cpuinfo(text_of(*text)),
    {
        if let Some(cpuinfo) = read_trimmed(text) {
            let chars: Vec<char> = chars_of(cpuinfo.as_str());
            let parts: Vec<&[char]> = lines(chars.as_slice());
            let ghost all = crate::text::text_lines(chars@);
            let mut i: usize = 0;
            while i < parts.len()
                invariant
                    i <= parts.len(),
                    all == crate::text::parts_view(parts@),
                    all == crate::text::text_lines(chars@),
                    tidied(text_of(*text)) == Some(chars@),
                    self@ == old(self)@,
                    forall|k: int| 0 <= k < i ==> !flags_hypervisor(#[trigger] all[k]),
                decreases parts.len() - i,
            {
                assert(all[i as int] == parts@[i as int]@);
                if starts_with(parts[i], "flags") && any_is(&split_words(parts[i]), "hypervisor") {
                    assert(flags_hypervisor(all[i as int]));
                    self.note(DetectionSource::ProcCpuinfo);
                    return;
                }
                i = i + 1;
            }
        }
    }

    /// Takes what Linux records of virtualization.
    pub fn detect_platform_files(&mut self, files: &PlatformFiles)
        ensures
            final(self)@ == old(self)@.with_files(*files),
    {
        self.take_type(&files.hypervisor_type);
        self.take_device_tree(&files.device_tree);
        self.take_release(&files.osrelease);
        self.take_clocksource(&files.clocksource);
        self.take_buses(files.vmbus_devices, files.xen_directory, files.virtio_devices);
        self.take_cpuinfo(&files.cpuinfo);
    }
}

// ---------------------------------------------------------------------------
// Putting it together
// ---------------------------------------------------------------------------

impl ReportView {
    /// The report after its own firmware strings.
    pub open spec fn with_dmi(self) -> ReportView {
        match self.dmi.identified() {
            Some(hypervisor) => self.finding(DetectionSource::Dmi, hypervisor),
            None => self,
        }
    }

    /// The report after a timed trap.
    pub open spec fn with_exit_cost(self, cost: Option<ExitCost>) -> ReportView {
        match cost {
            Some(cost) => {
                let noted = if cost.suggests_exit {
                    self.noting(DetectionSource::ExitCostTiming)
                } else {
                    self
                };
                ReportView { exit_cost: Some(cost), ..noted }
            },
            None => self,
        }
    }

    /// The timed trap with ring 0's cost in place of the estimate, where both
    /// are known. Its verdict is drawn anew where there is a baseline.
    pub open spec fn refined_cost(self, probe: ProbeView) -> Option<ExitCost> {
        match (probe.exit_cycles, self.exit_cost) {
            (Some(exit), Some(cost)) => Some(
                ExitCost {
                    trap_cycles: exit,
                    suggests_exit: if cost.baseline_cycles > 0 {
                        ExitCost::suggestive(exit, cost.baseline_cycles)
                    } else {
                        cost.suggests_exit
                    },
                    ..cost
                },
            ),
            _ => self.exit_cost,
        }
    }

    /// The report after the kernel module's. A hypercall that returned is
    /// proof, and it holds even against a hypervisor that hides itself.
    pub open spec fn with_module(self, probe: Option<ProbeView>) -> ReportView {
        match probe {
            None => self,
            Some(probe) => {
                let noted = self.noting(DetectionSource::KernelModule);
                let named = if probe.accepted() {
                    noted.naming(
                        if probe.vmmcall_ok == Some(true) {
                            HypervisorView::Kvm
                        } else {
                            HypervisorView::Other("unidentified (hypercall accepted)"@)
                        },
                    )
                } else {
                    noted
                };
                ReportView {
                    exit_cost: self.refined_cost(probe),
                    kernel: Some(probe),
                    ..named
                }
            },
        }
    }
}

impl HypervisorReport {
    /// Matches the firmware strings.
    pub fn detect_dmi(&mut self)
        ensures
            final(self)@ == old(self)@.with_dmi(),
    {
        if let Some(hypervisor) = self.dmi.identify() {
            self.note(DetectionSource::Dmi);
            self.name_it(hypervisor);
        }
    }

    /// Takes a timed trap.
    pub fn measure_exit_cost(&mut self, cost: Option<ExitCost>)
        ensures
            final(self)@ == old(self)@.with_exit_cost(cost),
    {
        if let Some(cost) = cost {
            if cost.suggests_exit {
                self.note(DetectionSource::ExitCostTiming);
            }
            let ghost noted = self@;
            self.exit_cost = Some(cost);
            assert(self@ =~= (ReportView { exit_cost: Some(cost), ..noted }));
        }
    }

    /// Merges the kernel module's report, where its file could be read.
    pub fn merge_kernel_module(&mut self, text: &Option<String>)
        ensures
            final(self)@ == old(self)@.with_module(
                match text_of(*text) {
                    Some(text) => module_report(text),
                    None => None,
                },
            ),
    {
        let probe: KernelProbe = match kernel_module_probe(text) {
            Some(probe) => probe,
            None => return,
        };
        self.note(DetectionSource::KernelModule);
        let ghost noted = self@;
        if let (Some(exit), Some(cost)) = (probe.exit_cycles, self.exit_cost) {
            let suggests_exit = if cost.baseline_cycles > 0 {
                ExitCost::of(exit, cost.baseline_cycles).suggests_exit
            } else {
                cost.suggests_exit
            };
            self.exit_cost =
            Some(
                ExitCost {
                    trap_cycles: exit,
                    baseline_cycles: cost.baseline_cycles,
                    suggests_exit,
                },
            );
        }
        let ghost costed = self@;
        assert(costed =~= (ReportView {
            exit_cost: old(self)@.refined_cost(probe@),
            ..noted
        }));
        if probe.hypercall_accepted() {
            if is_yes(probe.vmmcall_ok) {
                // VMMCALL is AMD SVM; KVM on AMD answers it.
                self.name_it(Hypervisor::Kvm);
            } else {
                self.name_it(
                    Hypervisor::Other(
                        string_of(chars_of("unidentified (hypercall accepted)").as_slice()),
                    ),
                );
            }
        }
        let ghost named = self@;
        self.kernel = Some(probe);
        assert(self@ =~= (ReportView { kernel: Some(probe@), ..named }));
    }
}

/// What identifies the processor itself, by architecture.
#[derive(Debug)]
pub enum ProcessorEvidence {
    X86(CpuidTable),
    Arm(ArmEvidence),
    /// No identification path; detection rests on the rest.
    Other,
}

/// Everything a process can collect about where it runs.
#[derive(Debug)]
pub struct Evidence {
    pub processor: ProcessorEvidence,
    pub files: PlatformFiles,
    pub registry: Option<RegistryEvidence>,
    pub mac: Option<MacEvidence>,
    /// What the kernel module's file holds.
    pub module: Option<String>,
}

impl ReportView {
    /// The report after the processor's own evidence.
    pub open spec fn with_processor(self, processor: ProcessorEvidence) -> ReportView {
        match processor {
            ProcessorEvidence::X86(cpu) => self.with_cpuid(cpu),
            ProcessorEvidence::Arm(arm) => self.with_arm(
                arm.cntfrq,
                arm.ctr_el0,
                midr_value(text_of(arm.midr_text)),
            ),
            ProcessorEvidence::Other => self,
        }
    }

    /// The report after everything the platform declares of itself, up to its
    /// firmware strings.
    pub open spec fn with_platform(self, e: Evidence) -> ReportView {
        let a = self.with_processor(e.processor).with_files(e.files);
        let b = match e.registry {
            Some(registry) => a.with_registry(registry),
            None => a,
        };
        let c = match e.mac {
            Some(mac) => b.with_mac(mac.vmm_present, text_of(mac.hw_model)),
            None => b,
        };
        c.with_dmi()
    }
}

/// The finding that evidence leads to, with or without a timed trap.
pub open spec fn detected(dmi: DmiView, e: Evidence, cost: Option<ExitCost>) -> ReportView {
    ReportView::blank(dmi).with_platform(e).with_exit_cost(cost).with_module(
        match text_of(e.module) {
            Some(text) => module_report(text),
            None => None,
        },
    ).concluded()
}

impl HypervisorReport {
    fn take_platform(&mut self, e: &Evidence)
        ensures
            final(self)@ == old(self)@.with_platform(*e),
    {
        match &e.processor {
            ProcessorEvidence::X86(cpu) => self.detect_cpuid(cpu),
            ProcessorEvidence::Arm(arm) => self.detect_arm(arm),
            ProcessorEvidence::Other => {},
        }
        self.detect_platform_files(&e.files);
        if let Some(registry) = &e.registry {
            self.detect_windows_registry(registry);
        }
        if let Some(mac) = &e.mac {
            self.detect_mac_sysctl(mac);
        }
        self.detect_dmi();
    }

    /// Runs every detection over what was collected, with a timed trap where
    /// one could be taken.
    pub fn detect(dmi: DmiHints, e: &Evidence, cost: Option<ExitCost>) -> (report: HypervisorReport)
        ensures
            report@ == detected(dmi@, *e, cost),
    {
        let mut report = HypervisorReport::over(dmi);
        report.take_platform(e);
        report.measure_exit_cost(cost);
        report.merge_kernel_module(&e.module);
        report.conclude();
        report
    }

    /// Detection without the timed trap, for callers that are themselves
    /// inside a measurement.
    pub fn detect_declared_only(dmi: DmiHints, e: &Evidence) -> (report: HypervisorReport)
        ensures
            report@ == detected(dmi@, *e, None),
    {
        let mut report = HypervisorReport::over(dmi);
        report.take_platform(e);
        report.merge_kernel_module(&e.module);
        report.conclude();
        report
    }
}

// ---------------------------------------------------------------------------
// Showing it
// ---------------------------------------------------------------------------

/// The one-line summary.
pub open spec fn summary_text(r: ReportView) -> Seq<char> {
    if r.confidence is Absent {
        "native ("@ + r.timing_impact.shown() + ")"@
    } else {
        let line = r.hypervisor.shown() + " ["@ + r.confidence.shown() + ", "@
            + r.timing_impact.shown() + "]"@;
        match r.exit_cost {
            Some(cost) => if cost.suggests_exit {
                line + " exit≈"@ + crate::text::decimal(cost.trap_cycles as int) + " cyc"@
            } else {
                line
            },
            None => line,
        }
    }
}

/// A pairing of the host's clock with the guest's.
#[derive(Debug, Clone, Copy, PartialEq, Eq, Structural)]
pub struct ClockPairing {
    pub host_offset_ns: i64,
    pub host_ns: i64,
    pub guest_realtime_ns: i64,
}

/// What is known of the host's clock.
#[derive(Debug)]
pub struct HostSync {
    pub paravirtual_clocksource: Option<String>,
    pub pairing: Option<ClockPairing>,
    /// How many times the host was asked.
    pub queries: u64,
    pub advice: String,
}

/// What a detailed report shows beside the finding itself.
#[derive(Debug)]
pub struct DetailContext {
    /// The x86 vendor and its highest Centaur leaf, on x86.
    pub vendor: Option<(Vendor, u32)>,
    /// Whether this is AArch64, where a barrier is timed instead of a trap.
    pub aarch64: bool,
    /// The trap cost as a multiple of the baseline, to one decimal.
    pub exit_ratio: String,
    /// The AArch64 timer frequency in MHz, to three decimals.
    pub counter_mhz: String,
    pub sync: HostSync,
}

/// `out` with one more line that shows a value behind its label.
pub open spec fn with_value(out: Seq<char>, label: Seq<char>, value: Seq<char>) -> Seq<char> {
    out + label + value + "\n"@
}

/// `out` with a line for an optional value.
pub open spec fn with_optional(
    out: Seq<char>,
    label: Seq<char>,
    value: Option<Seq<char>>,
) -> Seq<char> {
    match value {
        Some(value) => with_value(out, label, value),
        None => out,
    }
}

/// `out` with the verdict.
pub open spec fn with_verdict(out: Seq<char>, r: ReportView) -> Seq<char> {
    with_value(
        with_value(
            with_value(out, "hypervisor    : "@, r.hypervisor.shown()),
            "confidence    : "@,
            r.confidence.shown(),
        ),
        "timing impact : "@,
        r.timing_impact.shown(),
    )
}

/// `out` with the processor's own vendor, where `written` is its signature.
pub open spec fn with_vendor(
    out: Seq<char>,
    vendor: Vendor,
    written: Seq<char>,
    centaur: u32,
) -> Seq<char> {
    let a = out + "cpu vendor    : "@ + vendor.readable() + " ("@ + written + ")\n"@;
    let b = if centaur != 0 {
        a + "centaur leaves: up to 0x"@ + crate::text::hex(centaur as int, 0) + "\n"@
    } else {
        a
    };
    if vendor is Intel {
        b
    } else {
        b + "counter rate  : measured, not read from CPUID (not an Intel part)\n"@
    }
}

/// `out` with what the CPUID leaves said.
pub open spec fn with_leaves(out: Seq<char>, r: ReportView) -> Seq<char> {
    let a = match r.signature {
        Some(signature) => with_value(
            out,
            "cpuid vendor  : "@,
            crate::text::debug_shown(signature),
        ),
        None => out,
    };
    let b = match r.max_hypervisor_leaf {
        Some(leaf) => with_value(a, "max hv leaf   : 0x"@, crate::text::hex(leaf as int, 8)),
        None => a,
    };
    match r.declared_tsc_khz {
        Some(khz) => b + "declared tsc  : "@ + crate::text::decimal(khz as int) + " kHz ("@
            + crate::text::decimal(khz as int / 1000) + "."@ + crate::text::thousandths(
            khz as int % 1000,
        ) + " MHz)\n"@,
        None => b,
    }
}

/// The names of these sources with a blank between them.
pub open spec fn source_names(sources: Seq<DetectionSource>) -> Seq<char>
    decreases sources.len(),
{
    if sources.len() == 0 {
        Seq::empty()
    } else if sources.len() == 1 {
        sources[0].shown()
    } else {
        source_names(sources.drop_last()) + " "@ + sources.last().shown()
    }
}

/// `out` with the sources.
pub open spec fn with_sources(out: Seq<char>, sources: Seq<DetectionSource>) -> Seq<char> {
    out + "sources       : "@ + (if sources.len() == 0 {
        "none"@
    } else {
        source_names(sources)
    }) + "\n"@
}

/// `out` with the AArch64 registers that were read.
pub open spec fn with_registers(out: Seq<char>, r: ReportView, mhz: Seq<char>) -> Seq<char> {
    let a = if r.arm_counter_hz != 0 {
        out + "cntfrq_el0    : "@ + crate::text::decimal(r.arm_counter_hz as int) + " Hz ("@ + mhz
            + " MHz)"@ + (if r.sources.contains(DetectionSource::ArmCounterFrequency) {
            "  <- virtual timer frequency"@
        } else {
            ""@
        }) + "\n"@
    } else {
        out
    };
    let b = if r.arm_midr_el1 != 0 {
        a + "midr_el1      : 0x"@ + crate::text::hex(r.arm_midr_el1 as int, 16)
            + "  implementer=0x"@ + crate::text::hex(implementer(r.arm_midr_el1) as int, 2)
            + " part=0x"@ + crate::text::hex(part_number(r.arm_midr_el1) as int, 3) + "\n"@
    } else {
        a
    };
    if r.arm_ctr_el0 != 0 {
        with_value(b, "ctr_el0       : 0x"@, crate::text::hex(r.arm_ctr_el0 as int, 16))
    } else {
        b
    }
}

/// `out` with the hypervisor's own UID, where ring 0 read one.
pub open spec fn with_uid(out: Seq<char>, kernel: Option<ProbeView>) -> Seq<char> {
    match kernel {
        Some(probe) => match probe.hvc_vendor_uid {
            Some(uid) => out + "hvc vendor uid: "@ + crate::text::hex(uid[0] as int, 8) + " "@
                + crate::text::hex(uid[1] as int, 8) + " "@ + crate::text::hex(uid[2] as int, 8)
                + " "@ + crate::text::hex(uid[3] as int, 8) + "\n"@,
            None => out,
        },
        None => out,
    }
}

/// `out` with the timed trap. The two architectures time different things, so
/// they are labelled differently.
pub open spec fn with_trap(
    out: Seq<char>,
    cost: Option<ExitCost>,
    aarch64: bool,
    ratio: Seq<char>,
) -> Seq<char> {
    match cost {
        Some(cost) => out + "trap probe    : "@ + (if aarch64 {
            "isb"@
        } else {
            "cpuid"@
        }) + "="@ + crate::text::decimal(cost.trap_cycles as int) + " cyc  baseline="@
            + crate::text::decimal(cost.baseline_cycles as int) + " cyc  ratio="@ + ratio
            + "x  exit="@ + (if !cost.suggests_exit {
            "no"@
        } else if aarch64 {
            "emulated"@
        } else {
            "likely"@
        }) + "\n"@,
        None => out,
    }
}

/// `out` with the firmware strings.
pub open spec fn with_strings(out: Seq<char>, dmi: DmiView) -> Seq<char> {
    with_optional(
        with_optional(
            with_optional(out, "dmi sys_vendor: "@, dmi.sys_vendor),
            "dmi product   : "@,
            dmi.product_name,
        ),
        "dmi bios      : "@,
        dmi.bios_vendor,
    )
}

/// How a hypercall went.
pub open spec fn outcome(flag: Option<bool>) -> Seq<char> {
    match flag {
        Some(accepted) => if accepted {
            "accepted"@
        } else {
            "faulted"@
        },
        None => "not probed"@,
    }
}

/// A truth value as it is written.
pub open spec fn truth(value: bool) -> Seq<char> {
    if value {
        "true"@
    } else {
        "false"@
    }
}

/// `out` with the module's hypercalls and what it knows of the processor.
pub open spec fn with_hypercalls(out: Seq<char>, k: ProbeView) -> Seq<char> {
    let a = out + "kernel module : loaded (v"@ + crate::text::decimal(k.version as int) + ")\n"@
        + "  vmcall="@ + outcome(k.vmcall_ok) + " vmmcall="@ + outcome(k.vmmcall_ok) + " hvc="@
        + outcome(k.hvc_ok) + "\n"@;
    let b = match k.hypercall_result {
        Some(result) => with_value(
            a,
            "  hypercall returned "@,
            crate::text::decimal(result as int),
        ),
        None => a,
    };
    let c = match (k.vmx_available, k.svm_available) {
        (Some(vmx), Some(svm)) => b + "  vmx="@ + truth(vmx) + " svm="@ + truth(svm) + "\n"@,
        _ => b,
    };
    match k.current_el {
        Some(el) => with_value(c, "  current_el="@, crate::text::decimal(el as int)),
        None => c,
    }
}

/// `out` with how often the module has probed and may probe.
pub open spec fn with_probes(out: Seq<char>, k: ProbeView) -> Seq<char> {
    match k.hypercall_probes {
        Some(n) => {
            let age = match k.hypercall_age_ms {
                Some(ms) => ms / 1000,
                None => 0,
            };
            let a = out + "  probes run="@ + crate::text::decimal(n as int) + " (last "@
                + crate::text::decimal(age as int) + " s ago), "@;
            let b = match k.hypercall_cooldown_s {
                Some(s) => if s == 0 {
                    a + "cooldown OFF (the user assumes the provider's reaction)"@
                } else {
                    a + "re-probe every "@ + crate::text::decimal(s as int) + " s at most"@
                },
                None => a + "cooldown unknown"@,
            };
            b + "\n"@
        },
        None => out,
    }
}

/// `out` with the kernel module's findings.
pub open spec fn with_kernel(out: Seq<char>, kernel: Option<ProbeView>) -> Seq<char> {
    match kernel {
        Some(k) => with_probes(with_hypercalls(out, k), k),
        None => out + "kernel module : not loaded (optional; see kernel/linux/README.md)\n"@,
    }
}

/// `out` with what is known of the host's clock, which only means anything in
/// a guest.
pub open spec fn with_sync(out: Seq<char>, sync: HostSync) -> Seq<char> {
    let a = match sync.paravirtual_clocksource {
        Some(clocksource) => out + "host clocksource: "@ + clocksource@
            + " (monotonic follows the host)\n"@,
        None => out,
    };
    let b = match sync.pairing {
        Some(pairing) => a + "host clock pair : offset="@ + crate::text::decimal(
            pairing.host_offset_ns as int,
        ) + " ns  host="@ + crate::text::decimal(pairing.host_ns as int) + " ns  guest="@
            + crate::text::decimal(pairing.guest_realtime_ns as int) + " ns\n"@,
        None => a,
    };
    let c = b + "host queries  : "@ + crate::text::decimal(sync.queries as int)
        + " (once per process; the offset is then arithmetic)\n"@;
    if sync.paravirtual_clocksource is Some || sync.pairing is Some {
        with_value(c, "                  "@, sync.advice@)
    } else {
        c
    }
}

/// The multi-line report, where `written` is the vendor's signature.
pub open spec fn detailed_text(r: ReportView, c: DetailContext, written: Seq<char>) -> Seq<char> {
    let a = with_verdict(Seq::empty(), r);
    let b = match c.vendor {
        Some((vendor, centaur)) => with_vendor(a, vendor, written, centaur),
        None => a,
    };
    let d = with_sources(with_leaves(b, r), r.sources);
    let e = with_uid(with_registers(d, r, c.counter_mhz@), r.kernel);
    let f = with_strings(with_trap(e, r.exit_cost, c.aarch64, c.exit_ratio@), r.dmi);
    with_sync(with_kernel(f, r.kernel), c.sync) + "\n"@ + r.timing_impact.advised()
}

fn push_value(out: &mut String, label: &str, value: &str)
    ensures
        final(out)@ == with_value(old(out)@, label@, value@),
{
    push_text(out, label);
    push_text(out, value);
    push_text(out, "\n");
}

fn push_optional(out: &mut String, label: &str, value: &Option<String>)
    ensures
        final(out)@ == with_optional(old(out)@, label@, text_of(*value)),
{
    if let Some(value) = value {
        push_value(out, label, value.as_str());
    }
}

fn outcome_of(flag: Option<bool>) -> (text: &'static str)
    ensures
        text@ == outcome(flag),
{
    match flag {
        Some(accepted) => if accepted {
            "accepted"
        } else {
            "faulted"
        },
        None => "not probed",
    }
}

fn truth_of(value: bool) -> (text: &'static str)
    ensures
        text@ == truth(value),
{
    if value {
        "true"
    } else {
        "false"
    }
}

fn push_vendor(out: &mut String, vendor: &Vendor, written: &str, centaur: u32)
    ensures
        final(out)@ == with_vendor(old(out)@, *vendor, written@, centaur),
{
    push_text(out, "cpu vendor    : ");
    push_text(out, vendor.name());
    push_text(out, " (");
    push_text(out, written);
    push_text(out, ")\n");
    if centaur != 0 {
        push_text(out, "centaur leaves: up to 0x");
        push_hex(out, centaur as u64, 0);
        push_text(out, "\n");
    }
    if !vendor.states_a_trustworthy_tsc_rate() {
        push_text(out, "counter rate  : measured, not read from CPUID (not an Intel part)\n");
    }
}

fn push_sources(out: &mut String, sources: &Vec<DetectionSource>)
    ensures
        final(out)@ == with_sources(old(out)@, sources@),
{
    push_text(out, "sources       : ");
    if sources.len() == 0 {
        push_text(out, "none");
    } else {
        let ghost before = out@;
        push_text(out, sources[0].name());
        let mut i: usize = 1;
        assert(sources@.take(1).len() == 1);
        while i < sources.len()
            invariant
                1 <= i <= sources.len(),
                out@ == before + source_names(sources@.take(i as int)),
            decreases sources.len() - i,
        {
            let ghost so_far = out@;
            push_text(out, " ");
            push_text(out, sources[i].name());
            i = i + 1;
            proof {
                let longer = sources@.take(i as int);
                assert(longer.drop_last() =~= sources@.take(i - 1));
                assert(longer.last() == sources@[i - 1]);
                assert(out@ =~= before + source_names(longer));
            }
        }
        assert(sources@.take(i as int) =~= sources@);
    }
    push_text(out, "\n");
}

impl HypervisorReport {
    /// A one-line summary for a status bar.
    pub fn summary(&self) -> (text: String)
        ensures
            text@ == summary_text(self@),
    {
        let mut out: String = String::new();
        if !self.is_virtualized() {
            push_text(&mut out, "native (");
            push_text(&mut out, self.timing_impact.name());
            push_text(&mut out, ")");
            assert(out@ =~= summary_text(self@));
            return out;
        }
        push_text(&mut out, self.hypervisor.name());
        push_text(&mut out, " [");
        push_text(&mut out, self.confidence.name());
        push_text(&mut out, ", ");
        push_text(&mut out, self.timing_impact.name());
        push_text(&mut out, "]");
        assert(out@ =~= self@.hypervisor.shown() + " ["@ + self@.confidence.shown() + ", "@
            + self@.timing_impact.shown() + "]"@);
        if let Some(cost) = &self.exit_cost {
            if cost.suggests_exit {
                push_text(&mut out, " exit≈");
                push_decimal(&mut out, cost.trap_cycles);
                push_text(&mut out, " cyc");
            }
        }
        out
    }

    fn push_leaves(&self, out: &mut String)
        ensures
            final(out)@ == with_leaves(old(out)@, self@),
    {
        if let Some(signature) = &self.signature {
            push_value(
                out,
                "cpuid vendor  : ",
                crate::text::debug_text(signature.as_str()).as_str(),
            );
        }
        if let Some(leaf) = self.max_hypervisor_leaf {
            push_text(out, "max hv leaf   : 0x");
            push_hex(out, leaf as u64, 8);
            push_text(out, "\n");
        }
        if let Some(khz) = self.declared_tsc_khz {
            push_text(out, "declared tsc  : ");
            push_decimal(out, khz as u64);
            push_text(out, " kHz (");
            push_decimal(out, (khz / 1000) as u64);
            push_text(out, ".");
            crate::text::push_thousandths(out, khz % 1000);
            push_text(out, " MHz)\n");
        }
    }

    fn push_registers(&self, out: &mut String, mhz: &str)
        ensures
            final(out)@ == with_registers(old(out)@, self@, mhz@),
    {
        if self.arm_counter_hz != 0 {
            push_text(out, "cntfrq_el0    : ");
            push_decimal(out, self.arm_counter_hz);
            push_text(out, " Hz (");
            push_text(out, mhz);
            push_text(out, " MHz)");
            if self.has_source(DetectionSource::ArmCounterFrequency) {
                push_text(out, "  <- virtual timer frequency");
            } else {
                push_text(out, "");
            }
            push_text(out, "\n");
        }
        if self.arm_midr_el1 != 0 {
            push_text(out, "midr_el1      : 0x");
            push_hex(out, self.arm_midr_el1, 16);
            push_text(out, "  implementer=0x");
            push_hex(out, (self.arm_midr_el1 >> 24) & 0xFF, 2);
            push_text(out, " part=0x");
            push_hex(out, (self.arm_midr_el1 >> 4) & 0xFFF, 3);
            push_text(out, "\n");
        }
        if self.arm_ctr_el0 != 0 {
            push_text(out, "ctr_el0       : 0x");
            push_hex(out, self.arm_ctr_el0, 16);
            push_text(out, "\n");
        }
    }

    fn push_uid(&self, out: &mut String)
        ensures
            final(out)@ == with_uid(old(out)@, self@.kernel),
    {
        if let Some(probe) = &self.kernel {
            if let Some(uid) = probe.hvc_vendor_uid {
                push_text(out, "hvc vendor uid: ");
                push_hex(out, uid[0] as u64, 8);
                push_text(out, " ");
                push_hex(out, uid[1] as u64, 8);
                push_text(out, " ");
                push_hex(out, uid[2] as u64, 8);
                push_text(out, " ");
                push_hex(out, uid[3] as u64, 8);
                push_text(out, "\n");
            }
        }
    }

    fn push_trap(&self, out: &mut String, aarch64: bool, ratio: &str)
        ensures
            final(out)@ == with_trap(old(out)@, self@.exit_cost, aarch64, ratio@),
    {
        if let Some(cost) = &self.exit_cost {
            push_text(out, "trap probe    : ");
            push_text(
                out,
                if aarch64 {
                    "isb"
                } else {
                    "cpuid"
                },
            );
            push_text(out, "=");
            push_decimal(out, cost.trap_cycles);
            push_text(out, " cyc  baseline=");
            push_decimal(out, cost.baseline_cycles);
            push_text(out, " cyc  ratio=");
            push_text(out, ratio);
            push_text(out, "x  exit=");
            push_text(
                out,
                if !cost.suggests_exit {
                    "no"
                } else if aarch64 {
                    "emulated"
                } else {
                    "likely"
                },
            );
            push_text(out, "\n");
        }
    }

    /// A multi-line report.
    pub fn detailed(&self, c: &DetailContext) -> (text: String)
        ensures
            exists|written: Seq<char>|
                (c.vendor matches Some((vendor, _)) ==> vendor.written(written)) && text@
                    == #[trigger] detailed_text(self@, *c, written),
    {
        let mut out: String = String::new();
        push_value(&mut out, "hypervisor    : ", self.hypervisor.name());
        push_value(&mut out, "confidence    : ", self.confidence.name());
        push_value(&mut out, "timing impact : ", self.timing_impact.name());
        let ghost mut written: Seq<char> = Seq::empty();
        if let Some((vendor, centaur)) = &c.vendor {
            let signature: &str = vendor.as_str();
            proof {
                written = signature@;
            }
            push_vendor(&mut out, vendor, signature, *centaur);
        }
        self.push_leaves(&mut out);
        push_sources(&mut out, &self.sources);
        self.push_registers(&mut out, c.counter_mhz.as_str());
        self.push_uid(&mut out);
        self.push_trap(&mut out, c.aarch64, c.exit_ratio.as_str());
        push_optional(&mut out, "dmi sys_vendor: ", &self.dmi.sys_vendor);
        push_optional(&mut out, "dmi product   : ", &self.dmi.product_name);
        push_optional(&mut out, "dmi bios      : ", &self.dmi.bios_vendor);
        match &self.kernel {
            Some(k) => {
                push_hypercalls(&mut out, k);
                push_probes(&mut out, k);
            },
            None => {
                push_text(
                    &mut out,
                    "kernel module : not loaded (optional; see kernel/linux/README.md)\n",
                );
            },
        }
        push_sync(&mut out, &c.sync);
        push_text(&mut out, "\n");
        push_text(&mut out, self.timing_impact.advice());
        assert(out@ == detailed_text(self@, *c, written));
        out
    }
}

fn push_hypercalls(out: &mut String, k: &KernelProbe)
    ensures
        final(out)@ == with_hypercalls(old(out)@, k@),
{
    push_text(out, "kernel module : loaded (v");
    push_decimal(out, k.version as u64);
    push_text(out, ")\n");
    push_text(out, "  vmcall=");
    push_text(out, outcome_of(k.vmcall_ok));
    push_text(out, " vmmcall=");
    push_text(out, outcome_of(k.vmmcall_ok));
    push_text(out, " hvc=");
    push_text(out, outcome_of(k.hvc_ok));
    push_text(out, "\n");
    if let Some(result) = k.hypercall_result {
        push_text(out, "  hypercall returned ");
        push_signed(out, result);
        push_text(out, "\n");
    }
    if let (Some(vmx), Some(svm)) = (k.vmx_available, k.svm_available) {
        push_text(out, "  vmx=");
        push_text(out, truth_of(vmx));
        push_text(out, " svm=");
        push_text(out, truth_of(svm));
        push_text(out, "\n");
    }
    if let Some(el) = k.current_el {
        push_text(out, "  current_el=");
        push_decimal(out, el as u64);
        push_text(out, "\n");
    }
}

fn push_probes(out: &mut String, k: &KernelProbe)
    ensures
        final(out)@ == with_probes(old(out)@, k@),
{
    if let Some(n) = k.hypercall_probes {
        let age: u64 = match k.hypercall_age_ms {
            Some(ms) => ms / 1000,
            None => 0,
        };
        push_text(out, "  probes run=");
        push_decimal(out, n as u64);
        push_text(out, " (last ");
        push_decimal(out, age);
        push_text(out, " s ago), ");
        match k.hypercall_cooldown_s {
            Some(s) => {
                if s == 0 {
                    push_text(out, "cooldown OFF (the user assumes the provider's reaction)");
                } else {
                    push_text(out, "re-probe every ");
                    push_decimal(out, s as u64);
                    push_text(out, " s at most");
                }
            },
            None => {
                push_text(out, "cooldown unknown");
            },
        }
        push_text(out, "\n");
    }
}

fn push_sync(out: &mut String, sync: &HostSync)
    ensures
        final(out)@ == with_sync(old(out)@, *sync),
{
    if let Some(clocksource) = &sync.paravirtual_clocksource {
        push_text(out, "host clocksource: ");
        push_text(out, clocksource.as_str());
        push_text(out, " (monotonic follows the host)\n");
    }
    if let Some(pairing) = &sync.pairing {
        push_text(out, "host clock pair : offset=");
        push_signed(out, pairing.host_offset_ns);
        push_text(out, " ns  host=");
        push_signed(out, pairing.host_ns);
        push_text(out, " ns  guest=");
        push_signed(out, pairing.guest_realtime_ns);
        push_text(out, " ns\n");
    }
    push_text(out, "host queries  : ");
    push_decimal(out, sync.queries);
    push_text(out, " (once per process; the offset is then arithmetic)\n");
    if sync.paravirtual_clocksource.is_some() || sync.pairing.is_some() {
        push_value(out, "                  ", sync.advice.as_str());
    }
}

// ---------------------------------------------------------------------------
// Probing again
// ---------------------------------------------------------------------------

/// The detections of one process: the first one, the latest repeated one, and
/// a gate that limits repeating.
#[derive(Debug)]
pub struct Detections {
    pub gate: Gate,
    pub first: HypervisorReport,
    pub repeated: Option<HypervisorReport>,
}

/// Keeps a process's first detection. It counts as the first probe, so a
/// re-probe waits the cooldown from here.
pub fn cached(report: HypervisorReport, now_ns: u64) -> (detections: Detections)
    ensures
        detections.first == report,
        detections.repeated is None,
        detections.gate == (Gate { last_ns: Some(now_ns), cooldown: true }),
{
    let mut gate: Gate = Gate::new();
    let _ = gate.try_begin(now_ns);
    Detections { gate, first: report, repeated: None }
}

/// The most recent detection: the last repeated one, else the first. Never
/// probes.
pub fn latest(detections: &Detections) -> (report: &HypervisorReport)
    ensures
        *report == (match detections.repeated {
            Some(report) => report,
            None => detections.first,
        }),
{
    match &detections.repeated {
        Some(report) => report,
        None => &detections.first,
    }
}

/// Seconds until a re-probe is allowed; zero is now.
pub fn reprobe_wait_s(detections: &Detections, now_ns: u64) -> (seconds: u32)
    ensures
        seconds == crate::reprobe::seconds_for(detections.gate.remaining(now_ns)),
{
    seconds_up(detections.gate.remaining_ns(now_ns)) as u32
}

/// Whether the re-probe cooldown is enforced.
pub fn reprobe_cooldown_enabled(detections: &Detections) -> (enabled: bool)
    ensures
        enabled == detections.gate.cooldown,
{
    detections.gate.cooldown
}

/// Turns the re-probe cooldown on or off. Off is the user's risk.
pub fn set_reprobe_cooldown_enabled(detections: &mut Detections, on: bool)
    ensures
        final(detections).gate == (Gate { cooldown: on, ..old(detections).gate }),
        final(detections).first == old(detections).first,
        final(detections).repeated == old(detections).repeated,
{
    detections.gate.cooldown = on;
}

/// Why a re-probe was refused.
#[derive(Debug, Clone, Copy, PartialEq, Eq, Structural)]
pub enum ReprobeError {
    /// The process's cooldown: try again in this many seconds.
    CoolingDown { wait_s: u32 },
}

impl ReprobeError {
    /// The refusal in words.
    pub fn message(&self) -> (text: String)
        ensures
            text@ == "re-probe cooling down: wait "@ + crate::text::decimal(self->wait_s as int)
                + " s (anti-abuse limit for cloud hosts)"@,
    {
        let ReprobeError::CoolingDown { wait_s } = *self;
        let mut out: String = String::new();
        push_text(&mut out, "re-probe cooling down: wait ");
        push_decimal(&mut out, wait_s as u64);
        push_text(&mut out, " s (anti-abuse limit for cloud hosts)");
        assert(out@ =~= "re-probe cooling down: wait "@ + crate::text::decimal(wait_s as int)
            + " s (anti-abuse limit for cloud hosts)"@);
        out
    }
}

/// Begins a re-probe, or refuses it while the cooldown runs. A refusal leaves
/// everything as it was.
pub fn reprobe(detections: &mut Detections, now_ns: u64) -> (begun: Result<(), ReprobeError>)
    ensures
        final(detections).first == old(detections).first,
        final(detections).repeated == old(detections).repeated,
        match begun {
            Ok(()) => old(detections).gate.remaining(now_ns) == 0 && final(detections).gate == (
            Gate { last_ns: Some(now_ns), ..old(detections).gate }),
            Err(ReprobeError::CoolingDown { wait_s }) => old(detections).gate.remaining(now_ns) > 0
                && wait_s == crate::reprobe::seconds_for(old(detections).gate.remaining(now_ns))
                && final(detections).gate == old(detections).gate,
        },
{
    match detections.gate.try_begin(now_ns) {
        Ok(()) => Ok(()),
        Err(remaining_ns) => Err(
            ReprobeError::CoolingDown { wait_s: seconds_up(remaining_ns) as u32 },
        ),
    }
}

/// Keeps the report of a re-probe.
pub fn keep_reprobe(detections: &mut Detections, report: HypervisorReport)
    ensures
        final(detections).repeated == Some(report),
        final(detections).first == old(detections).first,
        final(detections).gate == old(detections).gate,
{
    detections.repeated = Some(report);
}

// ---------------------------------------------------------------------------
// Laws of the verdict
// ---------------------------------------------------------------------------

/// What every report on the way to a verdict satisfies: no source twice, no
/// hypervisor named without a source, and the module's report only with the
/// module as a source.
pub open spec fn well_founded(r: ReportView) -> bool {
    &&& r.sources.no_duplicates()
    &&& !(r.hypervisor is Absent) ==> r.sources.len() > 0
    &&& r.kernel is Some ==> r.sources.contains(DetectionSource::KernelModule)
}

/// Recording a source and naming a hypervisor with it keep a report well
/// founded, and the source is among the sources afterwards.
pub proof fn finding_keeps_well_founded(
    r: ReportView,
    source: DetectionSource,
    hypervisor: HypervisorView,
)
    requires
        well_founded(r),
    ensures
        well_founded(r.noting(source)),
        r.noting(source).sources.contains(source),
        well_founded(r.finding(source, hypervisor)),
        r.finding(source, hypervisor).sources.contains(source),
        r.noting(source).sources.len() > 0,
{
    let noted = r.noting(source).sources;
    if !r.sources.contains(source) {
        assert(noted[r.sources.len() as int] == source);
        if r.sources.contains(DetectionSource::KernelModule) {
            let i = choose|i: int|
                0 <= i < r.sources.len() && r.sources[i] == DetectionSource::KernelModule;
            assert(noted[i] == DetectionSource::KernelModule);
        }
    }
}

proof fn lemma_processor_well_founded(r: ReportView, p: ProcessorEvidence)
    requires
        well_founded(r),
    ensures
        well_founded(r.with_processor(p)),
{
    match p {
        ProcessorEvidence::X86(cpu) => {
            finding_keeps_well_founded(r, DetectionSource::CpuidFeatureBit, r.hypervisor);
            let base = if crate::bytes::bit32(cpu.at(1, 0).ecx, 31) {
                r.noting(DetectionSource::CpuidFeatureBit)
            } else {
                r
            };
            finding_keeps_well_founded(base, DetectionSource::CpuidVendorLeaf, r.hypervisor);
        },
        ProcessorEvidence::Arm(arm) => {
            let timed = match frequency_signature(arm.cntfrq) {
                Some(hypervisor) => {
                    finding_keeps_well_founded(r, DetectionSource::ArmCounterFrequency, hypervisor);
                    r.finding(DetectionSource::ArmCounterFrequency, hypervisor)
                },
                None => r,
            };
            if let Some(midr) = midr_value(text_of(arm.midr_text)) {
                let named = ReportView {
                    arm_counter_hz: arm.cntfrq,
                    arm_ctr_el0: arm.ctr_el0,
                    arm_midr_el1: midr,
                    ..timed
                };
                if let Some(hypervisor) = null_implementer(midr) {
                    finding_keeps_well_founded(named, DetectionSource::ArmMidr, hypervisor);
                }
            }
        },
        ProcessorEvidence::Other => {},
    }
}

proof fn lemma_any_finding_well_founded(r: ReportView)
    requires
        well_founded(r),
    ensures
        forall|source: DetectionSource, hypervisor: HypervisorView|
            well_founded(#[trigger] r.finding(source, hypervisor)),
        forall|source: DetectionSource|
            well_founded(#[trigger] r.noting(source)) && r.noting(source).sources.len() > 0,
{
    assert forall|source: DetectionSource, hypervisor: HypervisorView| well_founded(
        #[trigger] r.finding(source, hypervisor),
    ) by {
        finding_keeps_well_founded(r, source, hypervisor);
    }
    assert forall|source: DetectionSource|
        well_founded(#[trigger] r.noting(source)) && r.noting(source).sources.len() > 0 by {
        finding_keeps_well_founded(r, source, HypervisorView::Absent);
    }
}

proof fn lemma_files_well_founded(r: ReportView, f: PlatformFiles)
    requires
        well_founded(r),
    ensures
        well_founded(r.with_files(f)),
{
    lemma_any_finding_well_founded(r);
    let a = r.with_type(text_of(f.hypervisor_type));
    lemma_any_finding_well_founded(a);
    let b = a.with_device_tree(text_of(f.device_tree));
    lemma_any_finding_well_founded(b);
    let c = b.with_release(text_of(f.osrelease));
    lemma_any_finding_well_founded(c);
    let d = c.with_clocksource(text_of(f.clocksource));
    lemma_any_finding_well_founded(d);
    let d1 = if f.vmbus_devices {
        d.finding(DetectionSource::ParavirtualBus, HypervisorView::HyperV)
    } else {
        d
    };
    lemma_any_finding_well_founded(d1);
    let d2 = if f.xen_directory {
        d1.finding(DetectionSource::ParavirtualBus, HypervisorView::Xen)
    } else {
        d1
    };
    lemma_any_finding_well_founded(d2);
    let e = d.with_buses(f.vmbus_devices, f.xen_directory, f.virtio_devices);
    lemma_any_finding_well_founded(e);
}

proof fn lemma_platform_well_founded(r: ReportView, e: Evidence)
    requires
        well_founded(r),
    ensures
        well_founded(r.with_platform(e)),
{
    lemma_processor_well_founded(r, e.processor);
    lemma_files_well_founded(r.with_processor(e.processor), e.files);
    let a = r.with_processor(e.processor).with_files(e.files);
    lemma_any_finding_well_founded(a);
    let b = match e.registry {
        Some(registry) => a.with_registry(registry),
        None => a,
    };
    lemma_any_finding_well_founded(b);
    let c = match e.mac {
        Some(mac) => b.with_mac(mac.vmm_present, text_of(mac.hw_model)),
        None => b,
    };
    lemma_any_finding_well_founded(c);
}

proof fn lemma_cost_well_founded(r: ReportView, cost: Option<ExitCost>)
    requires
        well_founded(r),
    ensures
        well_founded(r.with_exit_cost(cost)),
{
    finding_keeps_well_founded(r, DetectionSource::ExitCostTiming, HypervisorView::Absent);
}

proof fn lemma_module_well_founded(r: ReportView, probe: Option<ProbeView>)
    requires
        well_founded(r),
    ensures
        well_founded(r.with_module(probe)),
{
    finding_keeps_well_founded(r, DetectionSource::KernelModule, HypervisorView::Absent);
}

/// The verdict on a well-founded report agrees with its evidence: no
/// confidence exactly where there is no source, and then no hypervisor named
/// and a native timing impact.
pub proof fn verdict_agrees_with_evidence(r: ReportView)
    requires
        well_founded(r),
    ensures
        r.concluded().sources == r.sources,
        r.concluded().confidence is Absent <==> r.sources.len() == 0,
        r.concluded().confidence is Absent ==> r.hypervisor is Absent
            && r.concluded().timing_impact is Native,
{
    if r.sources.len() > 0 {
        if r.sources[0].declares() {
            assert(r.declared());
        } else {
            assert(r.inferred());
        }
    }
}

/// The verdict and the evidence agree in both directions, whatever was found:
/// no source twice; no confidence exactly where there is no source; and then
/// no hypervisor named and a native timing impact.
pub proof fn detection_agrees_with_itself(dmi: DmiView, e: Evidence, cost: Option<ExitCost>)
    ensures
        detected(dmi, e, cost).sources.no_duplicates(),
        detected(dmi, e, cost).confidence is Absent <==> detected(dmi, e, cost).sources.len() == 0,
        detected(dmi, e, cost).confidence is Absent ==> detected(dmi, e, cost).hypervisor is Absent
            && detected(dmi, e, cost).timing_impact is Native,
{
    let probe = match text_of(e.module) {
        Some(text) => module_report(text),
        None => None,
    };
    let blank = ReportView::blank(dmi);
    lemma_platform_well_founded(blank, e);
    lemma_cost_well_founded(blank.with_platform(e), cost);
    lemma_module_well_founded(blank.with_platform(e).with_exit_cost(cost), probe);
    verdict_agrees_with_evidence(
        blank.with_platform(e).with_exit_cost(cost).with_module(probe),
    );
}

/// Inferences alone never confirm: with no declaration among the sources and
/// no hypercall, the most a report says is that something is suspected.
pub proof fn inference_never_confirms(r: ReportView)
    requires
        forall|i: int| 0 <= i < r.sources.len() ==> !(#[trigger] r.sources[i]).declares(),
        !r.hypercall(),
    ensures
        !(r.concluded().confidence is Confirmed),
        r.sources.len() > 0 ==> r.concluded().confidence is Suspected,
{
    if r.sources.len() > 0 {
        assert(!r.sources[0].declares());
    }
}

/// A declaration confirms, whatever stands beside it.
pub proof fn declaration_confirms(r: ReportView, i: int)
    requires
        0 <= i < r.sources.len(),
        r.sources[i].declares(),
    ensures
        r.concluded().confidence is Confirmed,
{
}

/// A hypercall that returned confirms without any declaration.
pub proof fn hypercall_confirms(r: ReportView)
    requires
        r.hypercall(),
    ensures
        r.concluded().confidence is Confirmed,
        !(r.concluded().timing_impact is Native),
{
}

/// Emulation is never reported as native, nor as hardware-assisted.
pub proof fn emulation_is_never_native(r: ReportView)
    requires
        r.hypervisor is QemuTcg,
    ensures
        r.concluded().timing_impact is Emulated,
{
}

/// Drawing the verdict twice changes nothing.
pub proof fn concluding_is_idempotent(r: ReportView)
    ensures
        r.concluded().concluded() == r.concluded(),
{
    let c = r.concluded();
    assert(c.declared() == r.declared()) by {
        if r.declared() {
            let i = choose|i: int|
                0 <= i < r.sources.len() && (#[trigger] r.sources[i]).declares();
            assert(c.sources[i].declares());
        }
        if c.declared() {
            let i = choose|i: int|
                0 <= i < c.sources.len() && (#[trigger] c.sources[i]).declares();
            assert(r.sources[i].declares());
        }
    }
    assert(c.inferred() == r.inferred()) by {
        if r.inferred() {
            let i = choose|i: int|
                0 <= i < r.sources.len() && !(#[trigger] r.sources[i]).declares();
            assert(!c.sources[i].declares());
        }
        if c.inferred() {
            let i = choose|i: int|
                0 <= i < c.sources.len() && !(#[trigger] c.sources[i]).declares();
            assert(!r.sources[i].declares());
        }
    }
}

/// Every known signature fills the twelve bytes CPUID returns, and names a
/// hypervisor.
pub proof fn known_signatures_resolve(i: int)
    requires
        0 <= i < known_signatures().len(),
    ensures
        known_signatures()[i].len() == 12,
        signed_by(crate::bytes::ascii(known_signatures()[i])) is Some,
{
    reveal_strlit("KVMKVMKVM\0\0\0");
    reveal_strlit("TCGTCGTCGTCG");
    reveal_strlit("VMwareVMware");
    reveal_strlit("Microsoft Hv");
    reveal_strlit("XenVMMXenVMM");
    reveal_strlit("VBoxVBoxVBox");
    reveal_strlit("prl hyperv  ");
    reveal_strlit(" lrpepyh vr ");
    reveal_strlit("bhyve bhyve ");
    reveal_strlit("ACRNACRNACRN");
    reveal_strlit("Jailhouse\0\0\0");
    reveal_strlit("Apple VZ\0\0\0\0");
    reveal_strlit("QNXQVMBSQG\0\0");
    reveal_strlit("MicrosoftXTA");
}

/// Whether a line is one that spells this vendor UID.
pub open spec fn spells_uid(line: Seq<char>, uid: Seq<u32>) -> bool {
    crate::text::parted(line, '=') matches Some((key, value)) && crate::text::trimmed(
        key,
        Trim::Space,
    ) == "hvc_vendor_uid"@ && uid_value(crate::text::trimmed(value, Trim::Space)) == Some(uid)
}

/// No report invents a vendor UID: where it has one, that is four words, and
/// some line of it spells exactly those four in hexadecimal and nothing else.
pub proof fn vendor_uid_is_whole(lines: Seq<Seq<char>>)
    ensures
        report_of(lines).hvc_vendor_uid matches Some(uid) ==> uid.len() == 4 && exists|i: int|
            0 <= i < lines.len() && #[trigger] spells_uid(lines[i], uid),
    decreases lines.len(),
{
    if lines.len() > 0 {
        let rest = lines.drop_last();
        vendor_uid_is_whole(rest);
        if let Some(uid) = report_of(lines).hvc_vendor_uid {
            if spells_uid(lines.last(), uid) {
                assert(spells_uid(lines[lines.len() - 1], uid));
            } else {
                assert(report_of(rest).hvc_vendor_uid == Some(uid));
                let i = choose|i: int| 0 <= i < rest.len() && #[trigger] spells_uid(rest[i], uid);
                assert(spells_uid(lines[i], uid));
            }
        }
    }
}

} // verus!
