//! Timer backends: which ISA family the counter reads are tagged to.
//!
//! The backend does not change how the counter is read. It selects which
//! family's probe path a measurement is attributed to. Asking for a family the
//! processor lacks is no error: [`Backend::resolve`] falls back to the best one
//! it has, and nothing is ever executed that detection did not confirm.
use crate::cpu::CpuFeatures;
use crate::machine::{Machine, Target};
use crate::text::{chars_of, lower, same, trim, Trim};
use vstd::prelude::*;

verus! {

/// A counter backend, from most portable to most specific.
#[derive(Debug, Clone, Copy, PartialEq, Eq, PartialOrd, Ord, Structural)]
pub enum Backend {
    /// Portable scalar path. Always available.
    Legacy,
    Avx,
    Mmx,
    Sse,
    Sse2,
    Sse3,
    Ssse3,
    Sse41,
    Sse42,
    F16c,
    Fma,
    Avx2,
    AvxVnni,
    Avx512,
    Avx512Vnni,
    Neon,
    Sve,
    Sve2,
    Sme,
    /// PowerPC VMX.
    Altivec,
    /// PowerPC VSX.
    Vsx,
    /// RISC-V vector extension.
    Rvv,
}

impl Default for Backend {
    fn default() -> (backend: Backend)
        ensures
            backend is Legacy,
    {
        Backend::Legacy
    }
}

/// A character of a backend's name as it is compared: small, and with one
/// separator for all three.
pub open spec fn plain_char(c: char) -> char {
    let small = crate::text::lower_char(c);
    if small == '_' || small == ' ' {
        '-'
    } else {
        small
    }
}

/// A backend's name as it is compared.
pub open spec fn plain_name(s: Seq<char>) -> Seq<char> {
    crate::text::trimmed(s, Trim::Space).map_values(|c: char| plain_char(c))
}

/// The backend a plain name stands for.
pub open spec fn named(n: Seq<char>) -> Option<Backend> {
    if n == "legacy"@ || n == "legacy-asm"@ || n == "scalar"@ || n == "asm-scalar"@ {
        Some(Backend::Legacy)
    } else if n == "mmx"@ {
        Some(Backend::Mmx)
    } else if n == "sse"@ {
        Some(Backend::Sse)
    } else if n == "sse2"@ {
        Some(Backend::Sse2)
    } else if n == "sse3"@ {
        Some(Backend::Sse3)
    } else if n == "ssse3"@ {
        Some(Backend::Ssse3)
    } else if n == "sse41"@ || n == "sse4.1"@ || n == "sse4-1"@ {
        Some(Backend::Sse41)
    } else if n == "sse42"@ || n == "sse4.2"@ || n == "sse4-2"@ {
        Some(Backend::Sse42)
    } else if n == "avx"@ {
        Some(Backend::Avx)
    } else if n == "f16c"@ {
        Some(Backend::F16c)
    } else if n == "fma"@ {
        Some(Backend::Fma)
    } else if n == "avx2"@ {
        Some(Backend::Avx2)
    } else if n == "avx-vnni"@ || n == "avxvnni"@ {
        Some(Backend::AvxVnni)
    } else if n == "avx512"@ || n == "avx-512"@ {
        Some(Backend::Avx512)
    } else if n == "avx512vnni"@ || n == "avx-512-vnni"@ || n == "avx512-vnni"@ {
        Some(Backend::Avx512Vnni)
    } else if n == "neon"@ {
        Some(Backend::Neon)
    } else if n == "sve"@ {
        Some(Backend::Sve)
    } else if n == "sve2"@ {
        Some(Backend::Sve2)
    } else if n == "sme"@ {
        Some(Backend::Sme)
    } else if n == "altivec"@ || n == "vmx"@ {
        Some(Backend::Altivec)
    } else if n == "vsx"@ {
        Some(Backend::Vsx)
    } else if n == "rvv"@ || n == "riscv-v"@ {
        Some(Backend::Rvv)
    } else {
        None
    }
}

fn plain(s: &[char]) -> (n: Vec<char>)
    ensures
        n@ == s@.map_values(|c: char| plain_char(c)),
{
    let mut n: Vec<char> = Vec::new();
    let mut i: usize = 0;
    while i < s.len()
        invariant
            i <= s.len(),
            n@ == s@.take(i as int).map_values(|c: char| plain_char(c)),
        decreases s.len() - i,
    {
        let small: char = lower(s[i]);
        n.push(if small == '_' || small == ' ' {
            '-'
        } else {
            small
        });
        i = i + 1;
        assert(n@ =~= s@.take(i as int).map_values(|c: char| plain_char(c)));
    }
    assert(s@.take(i as int) =~= s@);
    n
}

impl Backend {
    pub open spec fn label(self) -> Seq<char> {
        match self {
            Backend::Legacy => "legacy-asm"@,
            Backend::Mmx => "mmx"@,
            Backend::Sse => "sse"@,
            Backend::Sse2 => "sse2"@,
            Backend::Sse3 => "sse3"@,
            Backend::Ssse3 => "ssse3"@,
            Backend::Sse41 => "sse4.1"@,
            Backend::Sse42 => "sse4.2"@,
            Backend::Avx => "avx"@,
            Backend::F16c => "f16c"@,
            Backend::Fma => "fma"@,
            Backend::Avx2 => "avx2"@,
            Backend::AvxVnni => "avx-vnni"@,
            Backend::Avx512 => "avx-512"@,
            Backend::Avx512Vnni => "avx-512-vnni"@,
            Backend::Neon => "neon"@,
            Backend::Sve => "sve"@,
            Backend::Sve2 => "sve2"@,
            Backend::Sme => "sme"@,
            Backend::Altivec => "altivec"@,
            Backend::Vsx => "vsx"@,
            Backend::Rvv => "rvv"@,
        }
    }

    /// Stable lowercase name, as reports print it and [`Backend::parse`]
    /// accepts it.
    pub fn name(self) -> (name: &'static str)
        ensures
            name@ == self.label(),
    {
        match self {
            Backend::Legacy => "legacy-asm",
            Backend::Mmx => "mmx",
            Backend::Sse => "sse",
            Backend::Sse2 => "sse2",
            Backend::Sse3 => "sse3",
            Backend::Ssse3 => "ssse3",
            Backend::Sse41 => "sse4.1",
            Backend::Sse42 => "sse4.2",
            Backend::Avx => "avx",
            Backend::F16c => "f16c",
            Backend::Fma => "fma",
            Backend::Avx2 => "avx2",
            Backend::AvxVnni => "avx-vnni",
            Backend::Avx512 => "avx-512",
            Backend::Avx512Vnni => "avx-512-vnni",
            Backend::Neon => "neon",
            Backend::Sve => "sve",
            Backend::Sve2 => "sve2",
            Backend::Sme => "sme",
            Backend::Altivec => "altivec",
            Backend::Vsx => "vsx",
            Backend::Rvv => "rvv",
        }
    }

    /// Reads a backend's name, in any of the spellings in use.
    pub fn parse(s: &str) -> (backend: Option<Backend>)
        ensures
            backend == named(plain_name(s@)),
    {
        let chars: Vec<char> = chars_of(s);
        let owned: Vec<char> = plain(trim(chars.as_slice(), Trim::Space));
        let n: &[char] = owned.as_slice();
        if same(n, "legacy") || same(n, "legacy-asm") || same(n, "scalar") || same(n, "asm-scalar") {
            Some(Backend::Legacy)
        } else if same(n, "mmx") {
            Some(Backend::Mmx)
        } else if same(n, "sse") {
            Some(Backend::Sse)
        } else if same(n, "sse2") {
            Some(Backend::Sse2)
        } else if same(n, "sse3") {
            Some(Backend::Sse3)
        } else if same(n, "ssse3") {
            Some(Backend::Ssse3)
        } else if same(n, "sse41") || same(n, "sse4.1") || same(n, "sse4-1") {
            Some(Backend::Sse41)
        } else if same(n, "sse42") || same(n, "sse4.2") || same(n, "sse4-2") {
            Some(Backend::Sse42)
        } else if same(n, "avx") {
            Some(Backend::Avx)
        } else if same(n, "f16c") {
            Some(Backend::F16c)
        } else if same(n, "fma") {
            Some(Backend::Fma)
        } else if same(n, "avx2") {
            Some(Backend::Avx2)
        } else if same(n, "avx-vnni") || same(n, "avxvnni") {
            Some(Backend::AvxVnni)
        } else if same(n, "avx512") || same(n, "avx-512") {
            Some(Backend::Avx512)
        } else if same(n, "avx512vnni") || same(n, "avx-512-vnni") || same(n, "avx512-vnni") {
            Some(Backend::Avx512Vnni)
        } else if same(n, "neon") {
            Some(Backend::Neon)
        } else if same(n, "sve") {
            Some(Backend::Sve)
        } else if same(n, "sve2") {
            Some(Backend::Sve2)
        } else if same(n, "sme") {
            Some(Backend::Sme)
        } else if same(n, "altivec") || same(n, "vmx") {
            Some(Backend::Altivec)
        } else if same(n, "vsx") {
            Some(Backend::Vsx)
        } else if same(n, "rvv") || same(n, "riscv-v") {
            Some(Backend::Rvv)
        } else {
            None
        }
    }

    /// Whether detection confirmed the family's instructions.
    pub open spec fn confirmed(self, f: CpuFeatures) -> bool {
        match self {
            Backend::Legacy => true,
            Backend::Mmx => f.mmx,
            Backend::Sse => f.sse,
            Backend::Sse2 => f.sse2,
            Backend::Sse3 => f.sse3,
            Backend::Ssse3 => f.ssse3,
            Backend::Sse41 => f.sse41,
            Backend::Sse42 => f.sse42,
            Backend::Avx => f.avx,
            Backend::F16c => f.f16c,
            Backend::Fma => f.fma,
            Backend::Avx2 => f.avx2,
            Backend::AvxVnni => f.avx_vnni,
            Backend::Avx512 => f.avx512f,
            Backend::Avx512Vnni => f.avx512vnni,
            Backend::Neon => f.neon,
            Backend::Sve => f.sve,
            Backend::Sve2 => f.sve2,
            Backend::Sme => f.sme,
            Backend::Altivec => f.altivec,
            Backend::Vsx => f.vsx,
            Backend::Rvv => f.rvv,
        }
    }

    /// Whether a build carries a kernel for the family.
    pub open spec fn built(self, target: Target) -> bool {
        let machine = target.machine;
        if machine is X86 {
            self is Legacy
        } else if machine.powerpc() {
            self is Legacy || (target.simd && (self is Altivec || self is Vsx))
        } else if machine.riscv() {
            self is Legacy || (target.simd && self is Rvv)
        } else if machine is Arm {
            self is Legacy || (target.simd && self is Neon)
        } else {
            true
        }
    }

    /// Whether the family can be run.
    pub open spec fn available(self, f: CpuFeatures, target: Target) -> bool {
        self.built(target) && self.confirmed(f)
    }

    /// Whether this processor can execute the backend's family.
    pub fn is_available(self, f: &CpuFeatures, target: &Target) -> (available: bool)
        ensures
            available == self.available(*f, *target),
    {
        self.is_available_with(f, target)
    }

    fn is_available_with(self, f: &CpuFeatures, target: &Target) -> (available: bool)
        ensures
            available == self.available(*f, *target),
    {
        if !self.has_kernel(target) {
            return false;
        }
        match self {
            Backend::Legacy => true,
            Backend::Mmx => f.mmx,
            Backend::Sse => f.sse,
            Backend::Sse2 => f.sse2,
            Backend::Sse3 => f.sse3,
            Backend::Ssse3 => f.ssse3,
            Backend::Sse41 => f.sse41,
            Backend::Sse42 => f.sse42,
            Backend::Avx => f.avx,
            Backend::F16c => f.f16c,
            Backend::Fma => f.fma,
            Backend::Avx2 => f.avx2,
            Backend::AvxVnni => f.avx_vnni,
            Backend::Avx512 => f.avx512f,
            Backend::Avx512Vnni => f.avx512vnni,
            Backend::Neon => f.neon,
            Backend::Sve => f.sve,
            Backend::Sve2 => f.sve2,
            Backend::Sme => f.sme,
            Backend::Altivec => f.altivec,
            Backend::Vsx => f.vsx,
            Backend::Rvv => f.rvv,
        }
    }

    /// Whether this build carries a kernel for the family, which is another
    /// question than what the processor has: 32-bit x86 detects SSE2 and the
    /// rest perfectly well, but its only kernel is the scalar one, and a
    /// scalar loop must not be reported as SSE2.
    pub fn has_kernel(self, target: &Target) -> (built: bool)
        ensures
            built == self.built(*target),
    {
        let legacy: bool = matches!(self, Backend::Legacy);
        match target.machine {
            Machine::X86 => legacy,
            Machine::PowerPc | Machine::PowerPcWide => legacy || (target.simd && matches!(
                self,
                Backend::Altivec | Backend::Vsx
            )),
            Machine::RiscV | Machine::RiscVWide => legacy || (target.simd && matches!(
                self,
                Backend::Rvv
            )),
            Machine::Arm => legacy || (target.simd && matches!(self, Backend::Neon)),
            _ => true,
        }
    }

    /// The families of a processor, widest first.
    pub open spec fn preference(machine: Machine) -> Seq<Backend> {
        if machine is Aarch64 {
            seq![Backend::Sme, Backend::Sve2, Backend::Sve, Backend::Neon]
        } else if machine.powerpc() {
            seq![Backend::Vsx, Backend::Altivec]
        } else if machine.riscv() {
            seq![Backend::Rvv]
        } else if machine is Arm {
            seq![Backend::Neon]
        } else {
            seq![
                Backend::Avx512Vnni,
                Backend::Avx512,
                Backend::AvxVnni,
                Backend::Avx2,
                Backend::Fma,
                Backend::F16c,
                Backend::Avx,
                Backend::Sse42,
                Backend::Sse41,
                Backend::Ssse3,
                Backend::Sse3,
                Backend::Sse2,
                Backend::Sse,
                Backend::Mmx,
            ]
        }
    }

    /// The first available family of a list, or the scalar path.
    pub open spec fn first_available(
        order: Seq<Backend>,
        f: CpuFeatures,
        target: Target,
    ) -> Backend
        decreases order.len(),
    {
        if order.len() == 0 {
            Backend::Legacy
        } else if order[0].available(f, target) {
            order[0]
        } else {
            Backend::first_available(order.skip(1), f, target)
        }
    }

    /// The widest family a machine supports.
    pub open spec fn widest(f: CpuFeatures, target: Target) -> Backend {
        Backend::first_available(Backend::preference(target.machine), f, target)
    }

    fn order(machine: Machine) -> (order: Vec<Backend>)
        ensures
            order@ == Backend::preference(machine),
    {
        let order: Vec<Backend> = match machine {
            Machine::Aarch64 => vec![Backend::Sme, Backend::Sve2, Backend::Sve, Backend::Neon],
            Machine::PowerPc | Machine::PowerPcWide => vec![Backend::Vsx, Backend::Altivec],
            Machine::RiscV | Machine::RiscVWide => vec![Backend::Rvv],
            Machine::Arm => vec![Backend::Neon],
            _ => vec![
                Backend::Avx512Vnni,
                Backend::Avx512,
                Backend::AvxVnni,
                Backend::Avx2,
                Backend::Fma,
                Backend::F16c,
                Backend::Avx,
                Backend::Sse42,
                Backend::Sse41,
                Backend::Ssse3,
                Backend::Sse3,
                Backend::Sse2,
                Backend::Sse,
                Backend::Mmx,
            ],
        };
        assert(order@ =~= Backend::preference(machine));
        order
    }

    /// Best backend this machine supports, widest family first.
    pub fn best(f: &CpuFeatures, target: &Target) -> (backend: Backend)
        ensures
            backend == Backend::widest(*f, *target),
    {
        let order: Vec<Backend> = Backend::order(target.machine);
        let mut i: usize = 0;
        assert(order@.skip(0) =~= order@);
        while i < order.len()
            invariant
                i <= order.len(),
                order@ == Backend::preference(target.machine),
                Backend::widest(*f, *target) == Backend::first_available(
                    order@.skip(i as int),
                    *f,
                    *target,
                ),
            decreases order.len() - i,
        {
            if order[i].is_available_with(f, target) {
                return order[i];
            }
            assert(order@.skip(i as int).skip(1) =~= order@.skip(i + 1));
            i = i + 1;
        }
        Backend::Legacy
    }

    /// The backend a request comes to.
    pub open spec fn resolved(self, f: CpuFeatures, target: Target) -> Backend {
        if self.available(f, target) {
            self
        } else {
            Backend::widest(f, target)
        }
    }

    /// This backend if it is available, otherwise the best available one. A
    /// request for AVX-512 on a machine without it still gets a working
    /// chronometer.
    pub fn resolve(self, f: &CpuFeatures, target: &Target) -> (backend: Backend)
        ensures
            backend == self.resolved(*f, *target),
    {
        if self.is_available(f, target) {
            self
        } else {
            Backend::best(f, target)
        }
    }

    /// Whether the backend's family belongs to a processor. The scalar path
    /// belongs everywhere.
    pub open spec fn native(self, machine: Machine) -> bool {
        match self {
            Backend::Legacy => true,
            Backend::Neon => machine is Aarch64 || machine is Arm,
            Backend::Sve | Backend::Sve2 | Backend::Sme => machine is Aarch64,
            Backend::Altivec | Backend::Vsx => machine.powerpc(),
            Backend::Rvv => machine.riscv(),
            _ => machine.x86(),
        }
    }

    /// Whether the backend's family belongs to this processor.
    pub fn is_native(self, machine: Machine) -> (native: bool)
        ensures
            native == self.native(machine),
    {
        match self {
            Backend::Legacy => true,
            Backend::Neon => matches!(machine, Machine::Aarch64 | Machine::Arm),
            Backend::Sve | Backend::Sve2 | Backend::Sme => matches!(machine, Machine::Aarch64),
            Backend::Altivec | Backend::Vsx => machine.is_powerpc(),
            Backend::Rvv => machine.is_riscv(),
            _ => machine.is_x86(),
        }
    }

    /// Every backend, in the order interfaces list them.
    pub open spec fn every() -> Seq<Backend> {
        seq![
            Backend::Legacy,
            Backend::Mmx,
            Backend::Sse,
            Backend::Sse2,
            Backend::Sse3,
            Backend::Ssse3,
            Backend::Sse41,
            Backend::Sse42,
            Backend::Avx,
            Backend::F16c,
            Backend::Fma,
            Backend::Avx2,
            Backend::AvxVnni,
            Backend::Avx512,
            Backend::Avx512Vnni,
            Backend::Neon,
            Backend::Sve,
            Backend::Sve2,
            Backend::Sme,
            Backend::Altivec,
            Backend::Vsx,
            Backend::Rvv,
        ]
    }

    /// Every backend, for enumeration in interfaces and catalogs.
    pub fn all() -> (all: Vec<Backend>)
        ensures
            all@ == Backend::every(),
    {
        let all: Vec<Backend> = vec![
            Backend::Legacy,
            Backend::Mmx,
            Backend::Sse,
            Backend::Sse2,
            Backend::Sse3,
            Backend::Ssse3,
            Backend::Sse41,
            Backend::Sse42,
            Backend::Avx,
            Backend::F16c,
            Backend::Fma,
            Backend::Avx2,
            Backend::AvxVnni,
            Backend::Avx512,
            Backend::Avx512Vnni,
            Backend::Neon,
            Backend::Sve,
            Backend::Sve2,
            Backend::Sme,
            Backend::Altivec,
            Backend::Vsx,
            Backend::Rvv,
        ];
        assert(all@ =~= Backend::every());
        all
    }
}

proof fn lemma_first_available(order: Seq<Backend>, f: CpuFeatures, target: Target)
    ensures
        Backend::first_available(order, f, target).available(f, target),
    decreases order.len(),
{
    if order.len() > 0 && !order[0].available(f, target) {
        lemma_first_available(order.skip(1), f, target);
    }
}

/// Whatever is asked for, what comes back can be run: a request degrades and
/// never fails.
pub proof fn resolved_backends_can_be_run(b: Backend, f: CpuFeatures, target: Target)
    ensures
        b.resolved(f, target).available(f, target),
        Backend::widest(f, target).available(f, target),
        Backend::Legacy.available(f, target),
{
    lemma_first_available(Backend::preference(target.machine), f, target);
}

/// A request that can be met is met, and asking again changes nothing.
pub proof fn resolving_is_idempotent(b: Backend, f: CpuFeatures, target: Target)
    ensures
        b.available(f, target) ==> b.resolved(f, target) == b,
        b.resolved(f, target).resolved(f, target) == b.resolved(f, target),
{
    resolved_backends_can_be_run(b, f, target);
}

/// The list of all backends leaves none out.
pub proof fn every_backend_is_listed(b: Backend)
    ensures
        Backend::every().contains(b),
{
    let all = Backend::every();
    assert(all[0] is Legacy);
    assert(all[1] is Mmx);
    assert(all[2] is Sse);
    assert(all[3] is Sse2);
    assert(all[4] is Sse3);
    assert(all[5] is Ssse3);
    assert(all[6] is Sse41);
    assert(all[7] is Sse42);
    assert(all[8] is Avx);
    assert(all[9] is F16c);
    assert(all[10] is Fma);
    assert(all[11] is Avx2);
    assert(all[12] is AvxVnni);
    assert(all[13] is Avx512);
    assert(all[14] is Avx512Vnni);
    assert(all[15] is Neon);
    assert(all[16] is Sve);
    assert(all[17] is Sve2);
    assert(all[18] is Sme);
    assert(all[19] is Altivec);
    assert(all[20] is Vsx);
    assert(all[21] is Rvv);
}

/// Whether a text is as names are compared already.
spec fn is_plain(s: Seq<char>) -> bool {
    forall|i: int| 0 <= i < s.len() ==> ('a' <= #[trigger] s[i] <= 'z' || '0' <= s[i] <= '9'
        || s[i] == '-' || s[i] == '.')
}

proof fn lemma_plain_names(s: Seq<char>)
    requires
        is_plain(s),
    ensures
        plain_name(s) == s,
{
    if s.len() > 0 {
        assert(!crate::text::is_space(s[0]));
        assert(!crate::text::is_space(s.last()));
    }
    assert(crate::text::trimmed_start(s, Trim::Space) == s);
    assert(crate::text::trimmed_end(s, Trim::Space) == s);
    assert(crate::text::trimmed(s, Trim::Space) == s);
    assert forall|i: int| 0 <= i < s.len() implies plain_char(#[trigger] s[i]) == s[i] by {}
    assert(plain_name(s) =~= s);
}

/// Every name that is printed is accepted back, for the backend it names.
pub proof fn names_are_read_back(b: Backend)
    ensures
        named(plain_name(b.label())) == Some(b),
{
    reveal_strlit("legacy");
    reveal_strlit("legacy-asm");
    reveal_strlit("scalar");
    reveal_strlit("asm-scalar");
    reveal_strlit("mmx");
    reveal_strlit("sse");
    reveal_strlit("sse2");
    reveal_strlit("sse3");
    reveal_strlit("ssse3");
    reveal_strlit("sse41");
    reveal_strlit("sse4.1");
    reveal_strlit("sse4-1");
    reveal_strlit("sse42");
    reveal_strlit("sse4.2");
    reveal_strlit("sse4-2");
    reveal_strlit("avx");
    reveal_strlit("f16c");
    reveal_strlit("fma");
    reveal_strlit("avx2");
    reveal_strlit("avx-vnni");
    reveal_strlit("avxvnni");
    reveal_strlit("avx512");
    reveal_strlit("avx-512");
    reveal_strlit("avx512vnni");
    reveal_strlit("avx-512-vnni");
    reveal_strlit("avx512-vnni");
    reveal_strlit("neon");
    reveal_strlit("sve");
    reveal_strlit("sve2");
    reveal_strlit("sme");
    reveal_strlit("altivec");
    reveal_strlit("vmx");
    reveal_strlit("vsx");
    reveal_strlit("rvv");
    reveal_strlit("riscv-v");
    assert(is_plain(b.label()));
    lemma_plain_names(b.label());
    match b {
        Backend::Sve => {
            assert("sve"@[1] != "mmx"@[1]);
            assert("sve"@[1] != "sse"@[1]);
            assert("sve"@[1] != "fma"@[1]);
            assert("sve"@[0] != "avx"@[0]);
        },
        Backend::Sve2 => {
            assert("sve2"@[1] != "sse2"@[1]);
            assert("sve2"@[1] != "sse3"@[1]);
            assert("sve2"@[0] != "f16c"@[0]);
            assert("sve2"@[0] != "avx2"@[0]);
            assert("sve2"@[0] != "neon"@[0]);
        },
        Backend::Sme => {
            assert("sme"@[0] != "mmx"@[0]);
            assert("sme"@[1] != "sse"@[1]);
            assert("sme"@[0] != "fma"@[0]);
            assert("sme"@[0] != "avx"@[0]);
            assert("sme"@[1] != "sve"@[1]);
        },
        Backend::Vsx => {
            assert("vsx"@[0] != "mmx"@[0]);
            assert("vsx"@[0] != "sse"@[0]);
            assert("vsx"@[0] != "fma"@[0]);
            assert("vsx"@[0] != "avx"@[0]);
            assert("vsx"@[0] != "sve"@[0]);
            assert("vsx"@[0] != "sme"@[0]);
            assert("vsx"@[1] != "vmx"@[1]);
        },
        _ => {},
    }
}

} // verus!
