//! Benchmark modes, the rows each offers, their schedules and their log.
//!
//! A run makes three passes with growing counts. The first is partly warm-up;
//! all three are reported, so that warm-up shows instead of being averaged
//! away.
use crate::backend::Backend;
use crate::cpu::CpuFeatures;
use crate::dispatch::CryptoKernel;
use crate::kcrypto::{driver_for, Driver, Ring0};
use crate::machine::Target;
use crate::text::{push_raised, push_text, same_text};
use vstd::prelude::*;

verus! {

// ---------------------------------------------------------------------------
// Modes
// ---------------------------------------------------------------------------

/// Which family of work a run exercises.
#[derive(Debug, Clone, Copy, PartialEq, Eq, Structural)]
pub enum BenchMode {
    /// Microbenchmarks per ISA family.
    CpuIsa,
    /// Cryptographic primitives over real buffers.
    Crypto,
    /// Full TLS handshakes against a remote host.
    TlsHandshake,
    /// The Linux kernel's own crypto, reached from user space.
    KernelCrypto,
    /// The same, measured inside the kernel by the optional module.
    KernelCryptoRing0,
    /// The crypto instructions alone.
    CryptoRaw,
}

impl Default for BenchMode {
    fn default() -> (mode: BenchMode)
        ensures
            mode is CpuIsa,
    {
        BenchMode::CpuIsa
    }
}

/// Where the processor primitives come from.
#[derive(Debug, Clone, Copy, PartialEq, Eq, Structural)]
pub enum CryptoWork {
    Sha256,
    HmacSha256,
    Aead,
}

/// One cryptographic primitive.
#[derive(Debug, Clone, PartialEq, Eq)]
pub struct Algorithm {
    pub name: String,
    pub work: CryptoWork,
}

/// What a machine has for benchmarks to run on.
#[derive(Debug)]
pub struct BenchHost {
    pub features: CpuFeatures,
    pub target: Target,
    pub algorithms: Vec<Algorithm>,
    pub raw: Vec<CryptoKernel>,
    /// Whether the kernel's crypto can be reached from user space.
    pub af_alg: bool,
    pub drivers: Vec<Driver>,
    /// What the kernel module measured, where it is loaded.
    pub ring0: Option<Ring0>,
}

impl BenchHost {
    /// A host knows at least one primitive and one loop of bare instructions,
    /// whether or not it can run them.
    pub open spec fn well_formed(self) -> bool {
        self.algorithms@.len() > 0 && self.raw@.len() > 0
    }

    /// Whether some loop of bare crypto instructions can be run.
    pub open spec fn any_raw(self) -> bool {
        exists|i: int| 0 <= i < self.raw@.len() && (#[trigger] self.raw@[i]).available
    }

    /// Whether the kernel offers an algorithm.
    pub open spec fn has_driver(self, name: Seq<char>) -> bool {
        exists|i: int|
            0 <= i < self.drivers@.len() && #[trigger] crate::kcrypto::answers_to(
                self.drivers@[i]@,
                name,
            )
    }

    /// Whether the kernel module measured an algorithm.
    pub open spec fn has_timing(self, name: Seq<char>) -> bool {
        self.ring0 matches Some(report) && timed(report, name) is Some
    }

    fn has_raw(&self) -> (any: bool)
        ensures
            any == self.any_raw(),
    {
        let mut i: usize = 0;
        while i < self.raw.len()
            invariant
                i <= self.raw.len(),
                forall|k: int| 0 <= k < i ==> !(#[trigger] self.raw@[k]).available,
            decreases self.raw.len() - i,
        {
            if self.raw[i].available {
                return true;
            }
            i = i + 1;
        }
        false
    }
}

/// The cycles the first timing under a name states.
pub open spec fn timed_in(timings: Seq<(Seq<char>, u64)>, name: Seq<char>) -> Option<u64>
    decreases timings.len(),
{
    if timings.len() == 0 {
        None
    } else if timings[0].0 == name {
        Some(timings[0].1)
    } else {
        timed_in(timings.skip(1), name)
    }
}

/// The cycles a report states for an algorithm.
pub open spec fn timed(report: Ring0, name: Seq<char>) -> Option<u64> {
    timed_in(report@.timings, name)
}

/// Finds the cycles a report states for an algorithm.
pub fn find_timing(report: &Ring0, name: &str) -> (cycles: Option<u64>)
    ensures
        cycles == timed(*report, name@),
{
    let ghost all = report@.timings;
    let mut i: usize = 0;
    assert(all.skip(0) =~= all);
    while i < report.timings.len()
        invariant
            i <= report.timings.len(),
            all == report@.timings,
            timed_in(all, name@) == timed_in(all.skip(i as int), name@),
        decreases report.timings.len() - i,
    {
        assert(all.skip(i as int)[0] == (
            report.timings@[i as int].0@,
            report.timings@[i as int].1,
        ));
        if same_text(report.timings[i].0.as_str(), name) {
            return Some(report.timings[i].1);
        }
        assert(all.skip(i as int).skip(1) =~= all.skip(i + 1));
        i = i + 1;
    }
    None
}

impl BenchMode {
    pub open spec fn title(self) -> Seq<char> {
        match self {
            BenchMode::CpuIsa => "CPU ISA kernels"@,
            BenchMode::Crypto => "Crypto (rustls/ring)"@,
            BenchMode::TlsHandshake => "TLS handshake (rustls)"@,
            BenchMode::KernelCrypto => "Linux crypto API (AF_ALG, ring 3)"@,
            BenchMode::KernelCryptoRing0 => "Linux crypto API (kernel module, ring 0)"@,
            BenchMode::CryptoRaw => "Crypto RAW speed (instructions only)"@,
        }
    }

    /// The mode's name.
    pub fn name(self) -> (name: &'static str)
        ensures
            name@ == self.title(),
    {
        match self {
            BenchMode::CpuIsa => "CPU ISA kernels",
            BenchMode::Crypto => "Crypto (rustls/ring)",
            BenchMode::TlsHandshake => "TLS handshake (rustls)",
            BenchMode::KernelCrypto => "Linux crypto API (AF_ALG, ring 3)",
            BenchMode::KernelCryptoRing0 => "Linux crypto API (kernel module, ring 0)",
            BenchMode::CryptoRaw => "Crypto RAW speed (instructions only)",
        }
    }

    /// The label of the mode's row: its place in the list, and what it is.
    pub open spec fn row_label(self, linux: bool) -> Seq<char> {
        match self {
            BenchMode::CpuIsa => "Mode 1: CPU ISA kernels"@,
            BenchMode::Crypto => "Mode 2: Crypto (rustls/ring)"@,
            BenchMode::TlsHandshake => "Mode 3: TLS handshake (rustls)"@,
            BenchMode::KernelCrypto => "Mode 4: Linux crypto API (ring 3)"@,
            BenchMode::KernelCryptoRing0 => "Mode 5: Linux crypto API (ring 0)"@,
            BenchMode::CryptoRaw => if linux {
                "Mode 6: Crypto RAW speed"@
            } else {
                "Mode 4: Crypto RAW speed"@
            },
        }
    }

    /// Short label for the mode's row in a panel.
    pub fn label(self, target: &Target) -> (label: &'static str)
        ensures
            label@ == self.row_label(target.linux),
    {
        match self {
            BenchMode::CpuIsa => "Mode 1: CPU ISA kernels",
            BenchMode::Crypto => "Mode 2: Crypto (rustls/ring)",
            BenchMode::TlsHandshake => "Mode 3: TLS handshake (rustls)",
            BenchMode::KernelCrypto => "Mode 4: Linux crypto API (ring 3)",
            BenchMode::KernelCryptoRing0 => "Mode 5: Linux crypto API (ring 0)",
            BenchMode::CryptoRaw => if target.linux {
                "Mode 6: Crypto RAW speed"
            } else {
                "Mode 4: Crypto RAW speed"
            },
        }
    }

    pub open spec fn available(self, host: BenchHost) -> bool {
        match self {
            BenchMode::CpuIsa | BenchMode::Crypto | BenchMode::TlsHandshake => true,
            BenchMode::KernelCrypto => host.af_alg,
            BenchMode::KernelCryptoRing0 => host.ring0 is Some,
            BenchMode::CryptoRaw => host.any_raw(),
        }
    }

    /// Whether the mode can run here, now. The network is not asked: that
    /// cannot be known without trying.
    pub fn is_available(self, host: &BenchHost) -> (available: bool)
        ensures
            available == self.available(*host),
    {
        match self {
            BenchMode::CpuIsa | BenchMode::Crypto | BenchMode::TlsHandshake => true,
            BenchMode::KernelCrypto => host.af_alg,
            BenchMode::KernelCryptoRing0 => host.ring0.is_some(),
            BenchMode::CryptoRaw => host.has_raw(),
        }
    }

    /// The modes a system offers, in display order.
    pub open spec fn offered(linux: bool) -> Seq<BenchMode> {
        if linux {
            seq![
                BenchMode::CpuIsa,
                BenchMode::Crypto,
                BenchMode::TlsHandshake,
                BenchMode::KernelCrypto,
                BenchMode::KernelCryptoRing0,
                BenchMode::CryptoRaw,
            ]
        } else {
            seq![BenchMode::CpuIsa, BenchMode::Crypto, BenchMode::TlsHandshake, BenchMode::CryptoRaw]
        }
    }

    /// The modes offered here. Two are Linux's alone, and elsewhere they are
    /// not listed at all: a mode that can never run is no mode of the system.
    pub fn all(target: &Target) -> (all: Vec<BenchMode>)
        ensures
            all@ == BenchMode::offered(target.linux),
    {
        let all: Vec<BenchMode> = if target.linux {
            vec![
                BenchMode::CpuIsa,
                BenchMode::Crypto,
                BenchMode::TlsHandshake,
                BenchMode::KernelCrypto,
                BenchMode::KernelCryptoRing0,
                BenchMode::CryptoRaw,
            ]
        } else {
            vec![BenchMode::CpuIsa, BenchMode::Crypto, BenchMode::TlsHandshake, BenchMode::CryptoRaw]
        };
        assert(all@ =~= BenchMode::offered(target.linux));
        all
    }

    pub open spec fn applies(self, linux: bool) -> bool {
        match self {
            BenchMode::KernelCrypto | BenchMode::KernelCryptoRing0 => linux,
            _ => true,
        }
    }

    /// Whether this mode exists on a system at all, whether or not it can run
    /// right now.
    pub fn applies_to_this_platform(self, target: &Target) -> (applies: bool)
        ensures
            applies == self.applies(target.linux),
    {
        match self {
            BenchMode::KernelCrypto | BenchMode::KernelCryptoRing0 => target.linux,
            _ => true,
        }
    }
}

/// The modes that are offered are the ones that apply, each once.
pub proof fn offered_modes_are_those_that_apply(mode: BenchMode, linux: bool)
    ensures
        BenchMode::offered(linux).contains(mode) <==> mode.applies(linux),
        BenchMode::offered(linux).no_duplicates(),
        BenchMode::offered(linux).len() == (if linux {
            6int
        } else {
            4
        }),
{
    let all = BenchMode::offered(linux);
    assert(all[0] is CpuIsa);
    assert(all[1] is Crypto);
    assert(all[2] is TlsHandshake);
    if linux {
        assert(all[3] is KernelCrypto);
        assert(all[4] is KernelCryptoRing0);
        assert(all[5] is CryptoRaw);
    } else {
        assert(all[3] is CryptoRaw);
    }
}

/// The number in each label is the mode's place in the list.
pub proof fn labels_are_numbered_by_position(linux: bool, i: int)
    requires
        0 <= i < BenchMode::offered(linux).len(),
    ensures
        crate::text::begins_with(
            BenchMode::offered(linux)[i].row_label(linux),
            "Mode "@ + crate::text::decimal(i + 1) + ":"@,
        ),
{
    reveal_strlit("Mode ");
    reveal_strlit(":");
    reveal_strlit("Mode 1: CPU ISA kernels");
    reveal_strlit("Mode 2: Crypto (rustls/ring)");
    reveal_strlit("Mode 3: TLS handshake (rustls)");
    reveal_strlit("Mode 4: Linux crypto API (ring 3)");
    reveal_strlit("Mode 5: Linux crypto API (ring 0)");
    reveal_strlit("Mode 6: Crypto RAW speed");
    reveal_strlit("Mode 4: Crypto RAW speed");
    let label = BenchMode::offered(linux)[i].row_label(linux);
    let prefix = "Mode "@ + crate::text::decimal(i + 1) + ":"@;
    assert(crate::text::decimal(i + 1) == seq![crate::text::digit_char(i + 1)]);
    assert(prefix.len() == 7);
    assert(label.len() >= 7);
    assert(label.subrange(0, 7) =~= prefix);
}

// ---------------------------------------------------------------------------
// Rows
// ---------------------------------------------------------------------------

/// The algorithms the kernel is asked for: hashes and ciphers whose transport
/// is simple enough to be certainly right.
#[derive(Debug, Clone, Copy, PartialEq, Eq, Structural)]
pub enum KernelAlgorithm {
    Sha1,
    Sha256,
    Sha512,
    Sha3_256,
    Crc32c,
    AesCbc,
    AesCtr,
}

impl KernelAlgorithm {
    pub open spec fn kernel_name(self) -> Seq<char> {
        match self {
            KernelAlgorithm::Sha1 => "sha1"@,
            KernelAlgorithm::Sha256 => "sha256"@,
            KernelAlgorithm::Sha512 => "sha512"@,
            KernelAlgorithm::Sha3_256 => "sha3-256"@,
            KernelAlgorithm::Crc32c => "crc32c"@,
            KernelAlgorithm::AesCbc => "cbc(aes)"@,
            KernelAlgorithm::AesCtr => "ctr(aes)"@,
        }
    }

    /// The kernel's own name for the algorithm.
    pub fn algorithm(self) -> (name: &'static str)
        ensures
            name@ == self.kernel_name(),
    {
        match self {
            KernelAlgorithm::Sha1 => "sha1",
            KernelAlgorithm::Sha256 => "sha256",
            KernelAlgorithm::Sha512 => "sha512",
            KernelAlgorithm::Sha3_256 => "sha3-256",
            KernelAlgorithm::Crc32c => "crc32c",
            KernelAlgorithm::AesCbc => "cbc(aes)",
            KernelAlgorithm::AesCtr => "ctr(aes)",
        }
    }

    pub open spec fn title(self) -> Seq<char> {
        match self {
            KernelAlgorithm::Sha1 => "SHA-1"@,
            KernelAlgorithm::Sha256 => "SHA-256"@,
            KernelAlgorithm::Sha512 => "SHA-512"@,
            KernelAlgorithm::Sha3_256 => "SHA3-256"@,
            KernelAlgorithm::Crc32c => "CRC32C"@,
            KernelAlgorithm::AesCbc => "AES-256-CBC"@,
            KernelAlgorithm::AesCtr => "AES-256-CTR"@,
        }
    }

    /// The algorithm's usual name.
    pub fn name(self) -> (name: &'static str)
        ensures
            name@ == self.title(),
    {
        match self {
            KernelAlgorithm::Sha1 => "SHA-1",
            KernelAlgorithm::Sha256 => "SHA-256",
            KernelAlgorithm::Sha512 => "SHA-512",
            KernelAlgorithm::Sha3_256 => "SHA3-256",
            KernelAlgorithm::Crc32c => "CRC32C",
            KernelAlgorithm::AesCbc => "AES-256-CBC",
            KernelAlgorithm::AesCtr => "AES-256-CTR",
        }
    }

    pub open spec fn hash(self) -> bool {
        !(self is AesCbc || self is AesCtr)
    }

    /// Whether this is a hash rather than a cipher.
    pub fn is_hash(self) -> (hash: bool)
        ensures
            hash == self.hash(),
    {
        !matches!(self, KernelAlgorithm::AesCbc | KernelAlgorithm::AesCtr)
    }

    pub open spec fn digest(self) -> int {
        match self {
            KernelAlgorithm::Sha1 => 20,
            KernelAlgorithm::Sha256 | KernelAlgorithm::Sha3_256 => 32,
            KernelAlgorithm::Sha512 => 64,
            KernelAlgorithm::Crc32c => 4,
            KernelAlgorithm::AesCbc | KernelAlgorithm::AesCtr => 0,
        }
    }

    /// How many bytes a digest has: a short read is no error the kernel
    /// reports, so the buffer has to be right rather than roomy.
    pub fn digest_len(self) -> (len: usize)
        ensures
            len == self.digest(),
    {
        match self {
            KernelAlgorithm::Sha1 => 20,
            KernelAlgorithm::Sha256 | KernelAlgorithm::Sha3_256 => 32,
            KernelAlgorithm::Sha512 => 64,
            KernelAlgorithm::Crc32c => 4,
            KernelAlgorithm::AesCbc | KernelAlgorithm::AesCtr => 0,
        }
    }

    /// The hashes, which both rings can measure.
    pub open spec fn both_rings() -> Seq<KernelAlgorithm> {
        seq![
            KernelAlgorithm::Sha1,
            KernelAlgorithm::Sha256,
            KernelAlgorithm::Sha512,
            KernelAlgorithm::Sha3_256,
            KernelAlgorithm::Crc32c,
        ]
    }

    /// Every algorithm, in display order.
    pub open spec fn every() -> Seq<KernelAlgorithm> {
        KernelAlgorithm::both_rings() + seq![KernelAlgorithm::AesCbc, KernelAlgorithm::AesCtr]
    }

    /// The hashes, which both rings can measure.
    pub fn hashes() -> (hashes: Vec<KernelAlgorithm>)
        ensures
            hashes@ == KernelAlgorithm::both_rings(),
    {
        let hashes: Vec<KernelAlgorithm> = vec![
            KernelAlgorithm::Sha1,
            KernelAlgorithm::Sha256,
            KernelAlgorithm::Sha512,
            KernelAlgorithm::Sha3_256,
            KernelAlgorithm::Crc32c,
        ];
        assert(hashes@ =~= KernelAlgorithm::both_rings());
        hashes
    }

    /// Every algorithm, in display order.
    pub fn all() -> (all: Vec<KernelAlgorithm>)
        ensures
            all@ == KernelAlgorithm::every(),
    {
        let mut all: Vec<KernelAlgorithm> = KernelAlgorithm::hashes();
        all.push(KernelAlgorithm::AesCbc);
        all.push(KernelAlgorithm::AesCtr);
        assert(all@ =~= KernelAlgorithm::every());
        all
    }

    /// Which implementation the kernel would use.
    pub fn driver(self, drivers: &Vec<Driver>) -> (driver: Option<&Driver>)
        ensures
            match driver {
                Some(driver) => exists|i: int| #[trigger]
                    crate::kcrypto::chosen(
                        crate::kcrypto::drivers_view(drivers@),
                        self.kernel_name(),
                        i,
                    ) && *driver == drivers@[i],
                None => forall|j: int|
                    0 <= j < drivers@.len() ==> !#[trigger] crate::kcrypto::answers_to(
                        drivers@[j]@,
                        self.kernel_name(),
                    ),
            },
    {
        driver_for(drivers, self.algorithm())
    }
}

/// One selectable row.
#[derive(Debug, Clone, Copy, PartialEq, Eq, Structural)]
pub enum BenchKernel {
    /// The scalar baseline.
    Scalar,
    /// One ISA family's kernel.
    Isa(Backend),
    /// One cryptographic primitive, by its place in the host's list.
    Crypto(usize),
    /// A TLS handshake.
    Tls,
    /// One algorithm through the kernel, from user space.
    Kernel(KernelAlgorithm),
    /// The same, measured inside the kernel.
    Ring0(KernelAlgorithm),
    /// One loop of bare crypto instructions, by its place in the host's list.
    CryptoRaw(usize),
}

impl BenchKernel {
    /// Whether a row is one a host knows.
    pub open spec fn known(self, host: BenchHost) -> bool {
        match self {
            BenchKernel::Crypto(i) => i < host.algorithms@.len(),
            BenchKernel::CryptoRaw(i) => i < host.raw@.len(),
            _ => true,
        }
    }

    pub open spec fn title(self, host: BenchHost) -> Seq<char> {
        match self {
            BenchKernel::Scalar => "Scalar baseline"@,
            BenchKernel::Isa(b) => crate::text::raised(b.label()),
            BenchKernel::Crypto(i) => host.algorithms@[i as int].name@,
            BenchKernel::Tls => "TLS 1.3 handshake"@,
            BenchKernel::Kernel(a) => a.title() + " (ring 3)"@,
            BenchKernel::Ring0(a) => a.title() + " (ring 0)"@,
            BenchKernel::CryptoRaw(i) => crate::text::raised(host.raw@[i as int].name@)
                + " (raw)"@,
        }
    }

    /// The row's name.
    pub fn name(self, host: &BenchHost) -> (name: String)
        requires
            self.known(*host),
        ensures
            name@ == self.title(*host),
    {
        let mut out: String = String::new();
        match self {
            BenchKernel::Scalar => push_text(&mut out, "Scalar baseline"),
            BenchKernel::Isa(b) => push_raised(&mut out, b.name()),
            BenchKernel::Crypto(i) => push_text(&mut out, host.algorithms[i].name.as_str()),
            BenchKernel::Tls => push_text(&mut out, "TLS 1.3 handshake"),
            BenchKernel::Kernel(a) => {
                push_text(&mut out, a.name());
                push_text(&mut out, " (ring 3)");
            },
            BenchKernel::Ring0(a) => {
                push_text(&mut out, a.name());
                push_text(&mut out, " (ring 0)");
            },
            BenchKernel::CryptoRaw(i) => {
                push_raised(&mut out, host.raw[i].name.as_str());
                push_text(&mut out, " (raw)");
            },
        }
        assert(out@ =~= self.title(*host));
        out
    }

    pub open spec fn available(self, host: BenchHost) -> bool {
        match self {
            BenchKernel::Scalar | BenchKernel::Crypto(_) | BenchKernel::Tls => true,
            BenchKernel::Isa(b) => b.available(host.features, host.target),
            BenchKernel::CryptoRaw(i) => host.raw@[i as int].available,
            BenchKernel::Kernel(a) => host.af_alg && host.has_driver(a.kernel_name()),
            BenchKernel::Ring0(a) => host.has_timing(a.kernel_name()),
        }
    }

    /// Whether this machine can run the row. A kernel without an algorithm is
    /// an ordinary kernel, and a module that skipped one an ordinary module.
    pub fn is_available(self, host: &BenchHost) -> (available: bool)
        requires
            self.known(*host),
        ensures
            available == self.available(*host),
    {
        match self {
            BenchKernel::Scalar | BenchKernel::Crypto(_) | BenchKernel::Tls => true,
            BenchKernel::Isa(b) => b.is_available(&host.features, &host.target),
            BenchKernel::CryptoRaw(i) => host.raw[i].available,
            BenchKernel::Kernel(a) => {
                let driver: Option<&Driver> = a.driver(&host.drivers);
                proof {
                    let all = crate::kcrypto::drivers_view(host.drivers@);
                    if driver is Some {
                        let i = choose|i: int| #[trigger]
                            crate::kcrypto::chosen(all, a.kernel_name(), i);
                        assert(all[i] == host.drivers@[i]@);
                        assert(crate::kcrypto::answers_to(host.drivers@[i]@, a.kernel_name()));
                    }
                }
                host.af_alg && driver.is_some()
            },
            BenchKernel::Ring0(a) => match &host.ring0 {
                Some(report) => find_timing(report, a.algorithm()).is_some(),
                None => false,
            },
        }
    }

    pub open spec fn home(self) -> BenchMode {
        match self {
            BenchKernel::Scalar | BenchKernel::Isa(_) => BenchMode::CpuIsa,
            BenchKernel::Crypto(_) => BenchMode::Crypto,
            BenchKernel::Tls => BenchMode::TlsHandshake,
            BenchKernel::Kernel(_) => BenchMode::KernelCrypto,
            BenchKernel::Ring0(_) => BenchMode::KernelCryptoRing0,
            BenchKernel::CryptoRaw(_) => BenchMode::CryptoRaw,
        }
    }

    /// Which mode this row belongs to.
    pub fn mode(self) -> (mode: BenchMode)
        ensures
            mode == self.home(),
    {
        match self {
            BenchKernel::Scalar | BenchKernel::Isa(_) => BenchMode::CpuIsa,
            BenchKernel::Crypto(_) => BenchMode::Crypto,
            BenchKernel::Tls => BenchMode::TlsHandshake,
            BenchKernel::Kernel(_) => BenchMode::KernelCrypto,
            BenchKernel::Ring0(_) => BenchMode::KernelCryptoRing0,
            BenchKernel::CryptoRaw(_) => BenchMode::CryptoRaw,
        }
    }

    /// The rows of a mode, in display order.
    pub open spec fn rows(mode: BenchMode, host: BenchHost) -> Seq<BenchKernel> {
        match mode {
            BenchMode::CpuIsa => seq![BenchKernel::Scalar] + Backend::every().map_values(
                |b: Backend| BenchKernel::Isa(b),
            ),
            BenchMode::Crypto => Seq::new(
                host.algorithms@.len(),
                |i: int| BenchKernel::Crypto(i as usize),
            ),
            BenchMode::TlsHandshake => seq![BenchKernel::Tls],
            BenchMode::KernelCrypto => KernelAlgorithm::every().map_values(
                |a: KernelAlgorithm| BenchKernel::Kernel(a),
            ),
            BenchMode::KernelCryptoRing0 => KernelAlgorithm::both_rings().map_values(
                |a: KernelAlgorithm| BenchKernel::Ring0(a),
            ),
            BenchMode::CryptoRaw => Seq::new(
                host.raw@.len(),
                |i: int| BenchKernel::CryptoRaw(i as usize),
            ),
        }
    }

    fn isa_rows() -> (rows: Vec<BenchKernel>)
        ensures
            rows@ == seq![BenchKernel::Scalar] + Backend::every().map_values(
                |b: Backend| BenchKernel::Isa(b),
            ),
    {
        let all: Vec<Backend> = Backend::all();
        let mut rows: Vec<BenchKernel> = vec![BenchKernel::Scalar];
        let mut i: usize = 0;
        let ghost wanted = seq![BenchKernel::Scalar] + Backend::every().map_values(
            |b: Backend| BenchKernel::Isa(b),
        );
        assert(rows@ =~= wanted.take(1));
        while i < all.len()
            invariant
                i <= all.len(),
                all@ == Backend::every(),
                wanted == seq![BenchKernel::Scalar] + Backend::every().map_values(
                    |b: Backend| BenchKernel::Isa(b),
                ),
                rows@ == wanted.take(i + 1),
            decreases all.len() - i,
        {
            rows.push(BenchKernel::Isa(all[i]));
            i = i + 1;
            assert(rows@ =~= wanted.take(i + 1));
        }
        assert(wanted.take(i + 1) =~= wanted);
        rows
    }

    fn kernel_rows(list: Vec<KernelAlgorithm>, ring0: bool) -> (rows: Vec<BenchKernel>)
        ensures
            rows@ == list@.map_values(
                |a: KernelAlgorithm|
                    if ring0 {
                        BenchKernel::Ring0(a)
                    } else {
                        BenchKernel::Kernel(a)
                    },
            ),
    {
        let mut rows: Vec<BenchKernel> = Vec::new();
        let mut i: usize = 0;
        let ghost wanted = list@.map_values(
            |a: KernelAlgorithm|
                if ring0 {
                    BenchKernel::Ring0(a)
                } else {
                    BenchKernel::Kernel(a)
                },
        );
        assert(rows@ =~= wanted.take(0));
        while i < list.len()
            invariant
                i <= list.len(),
                wanted == list@.map_values(
                    |a: KernelAlgorithm|
                        if ring0 {
                            BenchKernel::Ring0(a)
                        } else {
                            BenchKernel::Kernel(a)
                        },
                ),
                rows@ == wanted.take(i as int),
            decreases list.len() - i,
        {
            rows.push(
                if ring0 {
                    BenchKernel::Ring0(list[i])
                } else {
                    BenchKernel::Kernel(list[i])
                },
            );
            i = i + 1;
            assert(rows@ =~= wanted.take(i as int));
        }
        assert(wanted.take(i as int) =~= wanted);
        rows
    }

    fn placed_rows(n: usize, raw: bool) -> (rows: Vec<BenchKernel>)
        ensures
            rows@ == Seq::new(
                n as nat,
                |i: int|
                    if raw {
                        BenchKernel::CryptoRaw(i as usize)
                    } else {
                        BenchKernel::Crypto(i as usize)
                    },
            ),
    {
        let mut rows: Vec<BenchKernel> = Vec::new();
        let mut i: usize = 0;
        while i < n
            invariant
                i <= n,
                rows@ == Seq::new(
                    i as nat,
                    |i: int|
                        if raw {
                            BenchKernel::CryptoRaw(i as usize)
                        } else {
                            BenchKernel::Crypto(i as usize)
                        },
                ),
            decreases n - i,
        {
            rows.push(
                if raw {
                    BenchKernel::CryptoRaw(i)
                } else {
                    BenchKernel::Crypto(i)
                },
            );
            i = i + 1;
            assert(rows@ =~= Seq::new(
                i as nat,
                |i: int|
                    if raw {
                        BenchKernel::CryptoRaw(i as usize)
                    } else {
                        BenchKernel::Crypto(i as usize)
                    },
            ));
        }
        rows
    }

    /// The rows a mode offers, in display order.
    pub fn rows_for(mode: BenchMode, host: &BenchHost) -> (rows: Vec<BenchKernel>)
        ensures
            rows@ == BenchKernel::rows(mode, *host),
    {
        let rows: Vec<BenchKernel> = match mode {
            BenchMode::CpuIsa => BenchKernel::isa_rows(),
            BenchMode::Crypto => BenchKernel::placed_rows(host.algorithms.len(), false),
            BenchMode::TlsHandshake => vec![BenchKernel::Tls],
            BenchMode::KernelCrypto => BenchKernel::kernel_rows(KernelAlgorithm::all(), false),
            BenchMode::KernelCryptoRing0 => BenchKernel::kernel_rows(
                KernelAlgorithm::hashes(),
                true,
            ),
            BenchMode::CryptoRaw => BenchKernel::placed_rows(host.raw.len(), true),
        };
        assert(rows@ =~= BenchKernel::rows(mode, *host));
        rows
    }
}

/// Every row a mode lists belongs to that mode, and is one the host knows.
pub proof fn rows_belong_to_their_mode(mode: BenchMode, host: BenchHost, i: int)
    requires
        0 <= i < BenchKernel::rows(mode, host).len(),
    ensures
        BenchKernel::rows(mode, host)[i].home() == mode,
        BenchKernel::rows(mode, host)[i].known(host),
{
    assert(host.algorithms.len() == host.algorithms@.len());
    assert(host.raw.len() == host.raw@.len());
}

/// A mode offers no row only where it lists what the host was given, and the
/// host was given none: provider algorithms, or loops of bare instructions.
pub proof fn every_mode_offers_rows(mode: BenchMode, host: BenchHost)
    ensures
        BenchKernel::rows(mode, host).len() == 0 <==> (mode is Crypto && host.algorithms@.len()
            == 0) || (mode is CryptoRaw && host.raw@.len() == 0),
{
}

/// The first mode offers the scalar loop, and after it every backend in the
/// order of their list.
pub proof fn isa_rows_follow_the_backends(host: BenchHost)
    ensures
        BenchKernel::rows(BenchMode::CpuIsa, host).len() == Backend::every().len() + 1,
        BenchKernel::rows(BenchMode::CpuIsa, host)[0] is Scalar,
        forall|i: int|
            0 <= i < Backend::every().len() ==> BenchKernel::rows(
                BenchMode::CpuIsa,
                host,
            )[i + 1] == BenchKernel::Isa(#[trigger] Backend::every()[i]),
{
}

/// Every row measured inside the kernel is a hash, and has a row that
/// measures the same from user space: without it the two could not be
/// subtracted.
pub proof fn every_ring0_row_has_a_ring3_counterpart(host: BenchHost, i: int)
    requires
        0 <= i < BenchKernel::rows(BenchMode::KernelCryptoRing0, host).len(),
    ensures
        BenchKernel::rows(BenchMode::KernelCryptoRing0, host)[i] matches BenchKernel::Ring0(a)
            && a.hash() && BenchKernel::rows(BenchMode::KernelCrypto, host).contains(
            BenchKernel::Kernel(a),
        ),
{
    let inside = BenchKernel::rows(BenchMode::KernelCryptoRing0, host);
    let outside = BenchKernel::rows(BenchMode::KernelCrypto, host);
    let a = KernelAlgorithm::both_rings()[i];
    assert(inside[i] == BenchKernel::Ring0(a));
    assert(KernelAlgorithm::every()[i] == a);
    assert(outside[i] == BenchKernel::Kernel(a));
}

/// Every mode offers rows, all of them its own: the scalar loop and each
/// backend in order for the first mode, and for the ring-0 mode hashes alone,
/// each with its row in the ring-3 mode.
pub proof fn every_row_belongs_to_the_mode_that_lists_it(mode: BenchMode, host: BenchHost)
    requires
        host.well_formed(),
    ensures
        BenchKernel::rows(mode, host).len() > 0,
        forall|i: int|
            0 <= i < BenchKernel::rows(mode, host).len() ==> (#[trigger] BenchKernel::rows(
                mode,
                host,
            )[i]).home() == mode,
        mode is CpuIsa ==> BenchKernel::rows(mode, host) == seq![BenchKernel::Scalar]
            + Backend::every().map_values(|b: Backend| BenchKernel::Isa(b)),
        mode is KernelCryptoRing0 ==> forall|i: int|
            0 <= i < BenchKernel::rows(mode, host).len() ==> (#[trigger] BenchKernel::rows(
                mode,
                host,
            )[i] matches BenchKernel::Ring0(a) && a.hash() && BenchKernel::rows(
                BenchMode::KernelCrypto,
                host,
            ).contains(BenchKernel::Kernel(a))),
{
    every_mode_offers_rows(mode, host);
    assert forall|i: int| 0 <= i < BenchKernel::rows(mode, host).len() implies (
    #[trigger] BenchKernel::rows(mode, host)[i]).home() == mode by {
        rows_belong_to_their_mode(mode, host, i);
    }
    if mode is KernelCryptoRing0 {
        assert forall|i: int| 0 <= i < BenchKernel::rows(mode, host).len() implies (
        #[trigger] BenchKernel::rows(mode, host)[i] matches BenchKernel::Ring0(a) && a.hash()
            && BenchKernel::rows(BenchMode::KernelCrypto, host).contains(
            BenchKernel::Kernel(a),
        )) by {
            every_ring0_row_has_a_ring3_counterpart(host, i);
        }
    }
}

} // verus!
