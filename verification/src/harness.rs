//! The three-pass harness: schedules, workloads, and the log of a run.
//!
//! Time itself is measured and converted by the caller, who hands in the
//! figures it worked out as texts; everything that is decided, counted or
//! written is decided, counted and written here.
use crate::arch::insn::between;
use crate::bench::{
    find_timing, BenchHost, BenchKernel, BenchMode, CryptoWork, KernelAlgorithm,
};
use crate::cpu::CpuFeatures;
use crate::dispatch::{scalar_kernel, Dispatcher, KernelRun};
use crate::kcrypto::{Driver, Ring0};
use crate::machine::Machine;
use crate::text::{push_decimal, push_hex_raised, push_text};
use vstd::prelude::*;

verus! {

// ---------------------------------------------------------------------------
// Schedules
// ---------------------------------------------------------------------------

/// Iteration schedule and unit accounting for one row.
#[derive(Debug, Clone, PartialEq, Eq)]
pub struct BenchProfile {
    pub title: String,
    /// What the kernel executes, in one sentence.
    pub description: String,
    /// What one operation means, so that a rate can be interpreted.
    pub unit: String,
    pub ops_per_loop: u32,
    pub bytes_per_op: usize,
    /// Loop counts for the three passes.
    pub loops: [usize; 3],
    /// Repeat counts for the three passes.
    pub repeats: [u32; 3],
}

/// What decides whether an ISA kernel may run, by processor.
pub open spec fn gate(machine: Machine) -> Seq<char> {
    if machine.x86() {
        "CPUID + XGETBV"@
    } else if machine is Aarch64 {
        "the OS's HWCAP report (the ID registers trap at EL0)"@
    } else {
        "the OS's CPU feature report"@
    }
}

fn feature_gate(machine: Machine) -> (text: &'static str)
    ensures
        text@ == gate(machine),
{
    match machine {
        Machine::X86 | Machine::X86Wide => "CPUID + XGETBV",
        Machine::Aarch64 => "the OS's HWCAP report (the ID registers trap at EL0)",
        _ => "the OS's CPU feature report",
    }
}

/// What a row executes, in one sentence. `size` is the payload's size as it
/// is shown, `driver` what the kernel chose.
pub open spec fn described(
    kernel: BenchKernel,
    host: BenchHost,
    size: Seq<char>,
    driver: Option<Driver>,
) -> Seq<char> {
    match kernel {
        BenchKernel::Scalar | BenchKernel::Isa(_) =>
            "inline-asm ISA microbenchmark; dispatch is gated by "@ + gate(host.target.machine)
                + " before the kernel is reached"@,
        BenchKernel::CryptoRaw(i) => "raw "@ + host.raw@[i as int].name@
            + " instruction chain, SPEED ONLY: no key schedule, no mode, no authentication, not a cipher — see Mode 2 for real crypto; gated by "@
            + gate(host.target.machine),
        BenchKernel::Crypto(i) => "real "@ + host.algorithms@[i as int].name@ + " over a "@ + size
            + " buffer, through the rustls crypto provider"@,
        BenchKernel::Kernel(a) => match driver {
            Some(d) => a.kernel_name() + " over a "@ + size
                + " buffer through AF_ALG; the kernel selected `"@ + d.driver@ + "`"@ + (
            if crate::kcrypto::marked_accelerated(d.driver@) {
                ", which names an accelerated path"@
            } else {
                ""@
            }),
            None => a.kernel_name() + " over a "@ + size + " buffer through AF_ALG"@,
        },
        BenchKernel::Ring0(a) => a.kernel_name() + " over a "@ + size
            + " buffer, measured inside the kernel by the module — no socket, no syscall, no copy across the privilege boundary"@,
        BenchKernel::Tls =>
            "full rustls handshake: TCP connect, ClientHello, certificate verification, key exchange"@,
    }
}

/// What one operation of a row means.
pub open spec fn unit_of(kernel: BenchKernel, host: BenchHost) -> Seq<char> {
    match kernel {
        BenchKernel::Scalar | BenchKernel::Isa(_) => "1 op = 1 kernel iteration"@,
        BenchKernel::CryptoRaw(_) => "1 op = 1 kernel iteration (one chain step per lane)"@,
        BenchKernel::Crypto(i) => "1 op = 1 "@ + host.algorithms@[i as int].name@
            + " call over the payload"@,
        BenchKernel::Kernel(_) => "1 op = 1 kernel call over the payload, syscall included"@,
        BenchKernel::Ring0(_) => "1 op = 1 in-kernel call over the payload"@,
        BenchKernel::Tls => "1 op = 1 complete handshake"@,
    }
}

/// The title of a row's schedule.
pub open spec fn profile_title(kernel: BenchKernel, host: BenchHost) -> Seq<char> {
    match kernel {
        BenchKernel::Kernel(a) => a.title(),
        _ => kernel.title(host),
    }
}

/// How many bytes one operation of a row moves. A loop of bare instructions
/// encrypts nothing, so it moves none.
pub open spec fn bytes_of(kernel: BenchKernel, payload: usize) -> usize {
    match kernel {
        BenchKernel::Scalar | BenchKernel::Isa(_) => 8,
        BenchKernel::CryptoRaw(_) | BenchKernel::Tls => 0,
        _ => payload,
    }
}

/// The loops of the three passes.
pub open spec fn loops_of(kernel: BenchKernel) -> Seq<usize> {
    match kernel {
        BenchKernel::Scalar | BenchKernel::Isa(_) | BenchKernel::CryptoRaw(_) => seq![
            300_000usize,
            600_000,
            900_000,
        ],
        BenchKernel::Crypto(_) => seq![1_500usize, 3_000, 4_500],
        BenchKernel::Kernel(_) => seq![400usize, 800, 1_200],
        BenchKernel::Ring0(_) => seq![1usize, 1, 1],
        BenchKernel::Tls => seq![1usize, 2, 3],
    }
}

/// The repeats of the three passes.
pub open spec fn repeats_of(kernel: BenchKernel) -> Seq<u32> {
    match kernel {
        BenchKernel::Ring0(_) | BenchKernel::Tls => seq![1u32, 1, 1],
        _ => seq![1u32, 2, 3],
    }
}

fn describe(
    kernel: BenchKernel,
    host: &BenchHost,
    size: &str,
    driver: Option<&Driver>,
) -> (text: String)
    requires
        kernel.known(*host),
    ensures
        text@ == described(
            kernel,
            *host,
            size@,
            match driver {
                Some(d) => Some(*d),
                None => None,
            },
        ),
{
    let mut out: String = String::new();
    match kernel {
        BenchKernel::Scalar | BenchKernel::Isa(_) => {
            push_text(&mut out, "inline-asm ISA microbenchmark; dispatch is gated by ");
            push_text(&mut out, feature_gate(host.target.machine));
            push_text(&mut out, " before the kernel is reached");
        },
        BenchKernel::CryptoRaw(i) => {
            push_text(&mut out, "raw ");
            push_text(&mut out, host.raw[i].name.as_str());
            push_text(
                &mut out,
                " instruction chain, SPEED ONLY: no key schedule, no mode, no authentication, not a cipher — see Mode 2 for real crypto; gated by ",
            );
            push_text(&mut out, feature_gate(host.target.machine));
        },
        BenchKernel::Crypto(i) => {
            push_text(&mut out, "real ");
            push_text(&mut out, host.algorithms[i].name.as_str());
            push_text(&mut out, " over a ");
            push_text(&mut out, size);
            push_text(&mut out, " buffer, through the rustls crypto provider");
        },
        BenchKernel::Kernel(a) => {
            push_text(&mut out, a.algorithm());
            push_text(&mut out, " over a ");
            push_text(&mut out, size);
            match driver {
                Some(d) => {
                    push_text(&mut out, " buffer through AF_ALG; the kernel selected `");
                    push_text(&mut out, d.driver.as_str());
                    push_text(&mut out, "`");
                    push_text(
                        &mut out,
                        if d.looks_accelerated() {
                            ", which names an accelerated path"
                        } else {
                            ""
                        },
                    );
                },
                None => push_text(&mut out, " buffer through AF_ALG"),
            }
        },
        BenchKernel::Ring0(a) => {
            push_text(&mut out, a.algorithm());
            push_text(&mut out, " over a ");
            push_text(&mut out, size);
            push_text(
                &mut out,
                " buffer, measured inside the kernel by the module — no socket, no syscall, no copy across the privilege boundary",
            );
        },
        BenchKernel::Tls => push_text(
            &mut out,
            "full rustls handshake: TCP connect, ClientHello, certificate verification, key exchange",
        ),
    }
    assert(out@ =~= described(
        kernel,
        *host,
        size@,
        match driver {
            Some(d) => Some(*d),
            None => None,
        },
    ));
    out
}

fn unit_text(kernel: BenchKernel, host: &BenchHost) -> (text: String)
    requires
        kernel.known(*host),
    ensures
        text@ == unit_of(kernel, *host),
{
    let mut out: String = String::new();
    match kernel {
        BenchKernel::Scalar | BenchKernel::Isa(_) => push_text(
            &mut out,
            "1 op = 1 kernel iteration",
        ),
        BenchKernel::CryptoRaw(_) => push_text(
            &mut out,
            "1 op = 1 kernel iteration (one chain step per lane)",
        ),
        BenchKernel::Crypto(i) => {
            push_text(&mut out, "1 op = 1 ");
            push_text(&mut out, host.algorithms[i].name.as_str());
            push_text(&mut out, " call over the payload");
        },
        BenchKernel::Kernel(_) => push_text(
            &mut out,
            "1 op = 1 kernel call over the payload, syscall included",
        ),
        BenchKernel::Ring0(_) => push_text(&mut out, "1 op = 1 in-kernel call over the payload"),
        BenchKernel::Tls => push_text(&mut out, "1 op = 1 complete handshake"),
    }
    assert(out@ =~= unit_of(kernel, *host));
    out
}

impl BenchProfile {
    /// The schedule of a row, sized so that each pass outweighs the cost of
    /// reading the counter. `size` is the payload's size as it is shown.
    pub fn for_kernel(
        kernel: BenchKernel,
        host: &BenchHost,
        payload_bytes: usize,
        size: &str,
    ) -> (profile: BenchProfile)
        requires
            kernel.known(*host),
        ensures
            profile.title@ == profile_title(kernel, *host),
            profile.unit@ == unit_of(kernel, *host),
            profile.ops_per_loop == 1,
            profile.bytes_per_op == bytes_of(kernel, payload_bytes),
            profile.loops@ == loops_of(kernel),
            profile.repeats@ == repeats_of(kernel),
            match kernel {
                BenchKernel::Kernel(a) => if host.has_driver(a.kernel_name()) {
                    exists|i: int| #[trigger]
                        crate::kcrypto::chosen(
                            crate::kcrypto::drivers_view(host.drivers@),
                            a.kernel_name(),
                            i,
                        ) && profile.description@ == described(
                            kernel,
                            *host,
                            size@,
                            Some(host.drivers@[i]),
                        )
                } else {
                    profile.description@ == described(kernel, *host, size@, None)
                },
                _ => profile.description@ == described(kernel, *host, size@, None),
            },
    {
        let driver: Option<&Driver> = match kernel {
            BenchKernel::Kernel(a) => a.driver(&host.drivers),
            _ => None,
        };
        let title: String = match kernel {
            BenchKernel::Kernel(a) => {
                let mut title: String = String::new();
                push_text(&mut title, a.name());
                assert(title@ =~= a.title());
                title
            },
            _ => kernel.name(host),
        };
        let (loops, repeats): ([usize; 3], [u32; 3]) = match kernel {
            BenchKernel::Scalar | BenchKernel::Isa(_) | BenchKernel::CryptoRaw(_) => (
                [300_000, 600_000, 900_000],
                [1, 2, 3],
            ),
            BenchKernel::Crypto(_) => ([1_500, 3_000, 4_500], [1, 2, 3]),
            BenchKernel::Kernel(_) => ([400, 800, 1_200], [1, 2, 3]),
            BenchKernel::Ring0(_) => ([1, 1, 1], [1, 1, 1]),
            BenchKernel::Tls => ([1, 2, 3], [1, 1, 1]),
        };
        assert(loops@ =~= loops_of(kernel));
        assert(repeats@ =~= repeats_of(kernel));
        let bytes_per_op: usize = match kernel {
            BenchKernel::Scalar | BenchKernel::Isa(_) => 8,
            BenchKernel::CryptoRaw(_) | BenchKernel::Tls => 0,
            _ => payload_bytes,
        };
        proof {
            if let BenchKernel::Kernel(a) = kernel {
                let all = crate::kcrypto::drivers_view(host.drivers@);
                if driver is Some {
                    let i = choose|i: int| #[trigger]
                        crate::kcrypto::chosen(all, a.kernel_name(), i) && *driver->0
                            == host.drivers@[i];
                    assert(all[i] == host.drivers@[i]@);
                    assert(crate::kcrypto::answers_to(host.drivers@[i]@, a.kernel_name()));
                }
            }
        }
        BenchProfile {
            title,
            description: describe(kernel, host, size, driver),
            unit: unit_text(kernel, host),
            ops_per_loop: 1,
            bytes_per_op,
            loops,
            repeats,
        }
    }
}

/// Every schedule says what it counts and counts something: its unit is not
/// empty, and none of its passes runs no loops.
pub proof fn profiles_describe_their_unit(kernel: BenchKernel, host: BenchHost, i: int)
    requires
        0 <= i < 3,
    ensures
        unit_of(kernel, host).len() > 0,
        loops_of(kernel).len() == 3,
        loops_of(kernel)[i] > 0,
        repeats_of(kernel).len() == 3,
        repeats_of(kernel)[i] > 0,
{
    reveal_strlit("1 op = 1 kernel iteration");
    reveal_strlit("1 op = 1 kernel iteration (one chain step per lane)");
    reveal_strlit("1 op = 1 ");
    reveal_strlit("1 op = 1 kernel call over the payload, syscall included");
    reveal_strlit("1 op = 1 in-kernel call over the payload");
    reveal_strlit("1 op = 1 complete handshake");
}

// ---------------------------------------------------------------------------
// Workloads
// ---------------------------------------------------------------------------

/// Payload size: large enough that setup does not dominate, small enough to
/// stay in the cache.
pub const CRYPTO_PAYLOAD_BYTES: usize = 16384;

/// The byte at a place of the payload.
pub open spec fn payload_byte(i: int) -> u8 {
    (i * 31 % 256) as u8
}

/// The buffer every primitive works on.
pub fn payload() -> (bytes: Vec<u8>)
    ensures
        bytes@ == Seq::new(16384, |i: int| payload_byte(i)),
{
    let mut bytes: Vec<u8> = Vec::new();
    let mut i: usize = 0;
    while i < CRYPTO_PAYLOAD_BYTES
        invariant
            i <= CRYPTO_PAYLOAD_BYTES,
            bytes@ == Seq::new(i as nat, |i: int| payload_byte(i)),
        decreases CRYPTO_PAYLOAD_BYTES - i,
    {
        bytes.push((i * 31 % 256) as u8);
        i = i + 1;
        assert(bytes@ =~= Seq::new(i as nat, |i: int| payload_byte(i)));
    }
    bytes
}

/// What a row needs prepared before the timed region opens.
#[derive(Debug, Clone, Copy, PartialEq, Eq, Structural)]
pub enum Workload {
    /// A loop of instructions.
    Isa { kernel: BenchKernel },
    /// A hash of the payload, keyed or not.
    Hash { hmac: bool },
    /// An authenticated encryption of the payload.
    Aead,
    /// An algorithm of the kernel, held open over the whole run, with room
    /// for what it produces.
    Kernel { algorithm: KernelAlgorithm, room: usize },
}

/// Why a row has no workload.
#[derive(Debug, Clone, Copy, PartialEq, Eq, Structural)]
pub enum NoWorkload {
    MeasuredByRing0,
    MeasuredByTls,
}

impl NoWorkload {
    pub open spec fn text(self) -> Seq<char> {
        match self {
            NoWorkload::MeasuredByRing0 => "ring 0 is measured by run_ring0"@,
            NoWorkload::MeasuredByTls => "TLS is measured by run_tls"@,
        }
    }

    /// The reason in words.
    pub fn message(self) -> (text: &'static str)
        ensures
            text@ == self.text(),
    {
        match self {
            NoWorkload::MeasuredByRing0 => "ring 0 is measured by run_ring0",
            NoWorkload::MeasuredByTls => "TLS is measured by run_tls",
        }
    }
}

impl Workload {
    /// The workload of a row.
    pub open spec fn of(kernel: BenchKernel, host: BenchHost) -> Result<Workload, NoWorkload> {
        match kernel {
            BenchKernel::Scalar | BenchKernel::Isa(_) | BenchKernel::CryptoRaw(_) => Ok(
                Workload::Isa { kernel },
            ),
            BenchKernel::Crypto(i) => Ok(
                match host.algorithms@[i as int].work {
                    CryptoWork::Sha256 => Workload::Hash { hmac: false },
                    CryptoWork::HmacSha256 => Workload::Hash { hmac: true },
                    CryptoWork::Aead => Workload::Aead,
                },
            ),
            BenchKernel::Kernel(algorithm) => Ok(Workload::Kernel { algorithm, room: 16384 }),
            BenchKernel::Ring0(_) => Err(NoWorkload::MeasuredByRing0),
            BenchKernel::Tls => Err(NoWorkload::MeasuredByTls),
        }
    }

    /// The workload of a row, or what measures the row instead.
    pub fn new(kernel: BenchKernel, host: &BenchHost) -> (workload: Result<Workload, NoWorkload>)
        requires
            kernel.known(*host),
        ensures
            workload == Workload::of(kernel, *host),
    {
        match kernel {
            BenchKernel::Scalar | BenchKernel::Isa(_) | BenchKernel::CryptoRaw(_) => Ok(
                Workload::Isa { kernel },
            ),
            BenchKernel::Crypto(i) => Ok(
                match host.algorithms[i].work {
                    CryptoWork::Sha256 => Workload::Hash { hmac: false },
                    CryptoWork::HmacSha256 => Workload::Hash { hmac: true },
                    CryptoWork::Aead => Workload::Aead,
                },
            ),
            BenchKernel::Kernel(algorithm) => {
                let digest: usize = algorithm.digest_len();
                let room: usize = if digest > CRYPTO_PAYLOAD_BYTES {
                    digest
                } else {
                    CRYPTO_PAYLOAD_BYTES
                };
                Ok(Workload::Kernel { algorithm, room })
            },
            BenchKernel::Ring0(_) => Err(NoWorkload::MeasuredByRing0),
            BenchKernel::Tls => Err(NoWorkload::MeasuredByTls),
        }
    }
}

/// Eight bytes as a number, least first.
pub open spec fn le64(b: Seq<u8>) -> int {
    b[0] + b[1] * 0x100 + b[2] * 0x1_0000 + b[3] * 0x100_0000 + b[4] * 0x1_0000_0000 + b[5]
        * 0x100_0000_0000 + b[6] * 0x1_0000_0000_0000 + b[7] * 0x100_0000_0000_0000
}

fn read_le64(bytes: &[u8], at: usize) -> (n: u64)
    requires
        at + 8 <= bytes.len(),
    ensures
        n == le64(bytes@.subrange(at as int, at + 8)),
{
    let ghost b = bytes@.subrange(at as int, at + 8);
    assert(b[0] == bytes@[at as int]);
    bytes[at] as u64 + bytes[at + 1] as u64 * 0x100 + bytes[at + 2] as u64 * 0x1_0000
        + bytes[at + 3] as u64 * 0x100_0000 + bytes[at + 4] as u64 * 0x1_0000_0000 + bytes[at
        + 5] as u64 * 0x100_0000_0000 + bytes[at + 6] as u64 * 0x1_0000_0000_0000 + bytes[at
        + 7] as u64 * 0x100_0000_0000_0000
}

/// A number as eight bytes, least first.
pub open spec fn le64_bytes(n: u64) -> Seq<u8> {
    seq![
        (n % 0x100) as u8,
        (n / 0x100 % 0x100) as u8,
        (n / 0x1_0000 % 0x100) as u8,
        (n / 0x100_0000 % 0x100) as u8,
        (n / 0x1_0000_0000 % 0x100) as u8,
        (n / 0x100_0000_0000 % 0x100) as u8,
        (n / 0x1_0000_0000_0000 % 0x100) as u8,
        (n / 0x100_0000_0000_0000 % 0x100) as u8,
    ]
}

/// The nonce of an iteration: its number, filled up with zeros.
pub open spec fn nonce(i: u64, len: int) -> Seq<u8> {
    le64_bytes(i) + Seq::new((len - 8) as nat, |k: int| 0u8)
}

/// The nonce of an iteration, so that none is used twice under one key.
pub fn nonce_for(i: u64, len: usize) -> (bytes: Vec<u8>)
    requires
        len >= 8,
    ensures
        bytes@ == nonce(i, len as int),
{
    let mut bytes: Vec<u8> = vec![
        (i % 0x100) as u8,
        (i / 0x100 % 0x100) as u8,
        (i / 0x1_0000 % 0x100) as u8,
        (i / 0x100_0000 % 0x100) as u8,
        (i / 0x1_0000_0000 % 0x100) as u8,
        (i / 0x100_0000_0000 % 0x100) as u8,
        (i / 0x1_0000_0000_0000 % 0x100) as u8,
        (i / 0x100_0000_0000_0000 % 0x100) as u8,
    ];
    assert(bytes@ =~= nonce(i, len as int).take(8));
    while bytes.len() < len
        invariant
            8 <= bytes.len() <= len,
            bytes@ == nonce(i, len as int).take(bytes@.len() as int),
        decreases len - bytes.len(),
    {
        bytes.push(0);
        assert(bytes@ =~= nonce(i, len as int).take(bytes@.len() as int));
    }
    assert(bytes@ =~= nonce(i, len as int));
    bytes
}

/// A number is read back from its bytes.
proof fn lemma_le64_reads_back(n: u64)
    ensures
        le64(le64_bytes(n)) == n,
{
    let q1 = n / 0x100;
    let q2 = q1 / 0x100;
    let q3 = q2 / 0x100;
    let q4 = q3 / 0x100;
    let q5 = q4 / 0x100;
    let q6 = q5 / 0x100;
    let q7 = q6 / 0x100;
    assert(n / 0x100 / 0x100 == n / 0x1_0000);
    assert(n / 0x1_0000 / 0x100 == n / 0x100_0000);
    assert(n / 0x100_0000 / 0x100 == n / 0x1_0000_0000);
    assert(n / 0x1_0000_0000 / 0x100 == n / 0x100_0000_0000);
    assert(n / 0x100_0000_0000 / 0x100 == n / 0x1_0000_0000_0000);
    assert(n / 0x1_0000_0000_0000 / 0x100 == n / 0x100_0000_0000_0000);
    assert(q7 < 0x100);
}

/// No two iterations share a nonce.
pub proof fn nonces_are_fresh(i: u64, j: u64, len: int)
    requires
        len >= 8,
        nonce(i, len) == nonce(j, len),
    ensures
        i == j,
{
    lemma_le64_reads_back(i);
    lemma_le64_reads_back(j);
    assert(nonce(i, len).take(8) =~= le64_bytes(i));
    assert(nonce(j, len).take(8) =~= le64_bytes(j));
}

/// The key every cipher row runs under: a stopwatch's input, not a secret.
pub fn bench_key() -> (key: Vec<u8>)
    ensures
        key@ == Seq::new(32, |i: int| 0x42u8),
{
    let mut key: Vec<u8> = Vec::new();
    while key.len() < 32
        invariant
            key.len() <= 32,
            key@ == Seq::new(key@.len(), |i: int| 0x42u8),
        decreases 32 - key.len(),
    {
        key.push(0x42);
        assert(key@ =~= Seq::new(key@.len(), |i: int| 0x42u8));
    }
    key
}

/// Why a cipher's workload could not be prepared.
pub fn key_failed(name: &str, error: &str) -> (text: String)
    ensures
        text@ == "could not build "@ + name@ + " key: "@ + error@,
{
    let mut out: String = String::new();
    push_text(&mut out, "could not build ");
    push_text(&mut out, name);
    push_text(&mut out, " key: ");
    push_text(&mut out, error);
    assert(out@ =~= "could not build "@ + name@ + " key: "@ + error@);
    out
}

/// Why a kernel algorithm's workload could not be prepared.
pub fn session_failed(algorithm: KernelAlgorithm, error: &str) -> (text: String)
    ensures
        text@ == "could not open "@ + algorithm.kernel_name() + " through AF_ALG: "@ + error@,
{
    let mut out: String = String::new();
    push_text(&mut out, "could not open ");
    push_text(&mut out, algorithm.algorithm());
    push_text(&mut out, " through AF_ALG: ");
    push_text(&mut out, error);
    assert(out@ =~= "could not open "@ + algorithm.kernel_name() + " through AF_ALG: "@ + error@);
    out
}

/// What follows one iteration of a workload.
#[derive(Debug, Clone, Copy, PartialEq, Eq, Structural)]
pub enum Iteration {
    /// The next one, with what is kept of the work so far.
    Next { sink: u64 },
    /// The end of this repeat, with what it leaves: `None` where the run ends
    /// with it.
    Stop { outcome: Option<u64> },
}

/// What follows an iteration with this output. A sealing that fails ends its
/// repeat with what was kept. A failing call of the kernel ends the run: it
/// is no fast iteration.
pub open spec fn kept(
    workload: Workload,
    sink: u64,
    i: u64,
    output: Option<Seq<u8>>,
) -> Iteration {
    match (workload, output) {
        (Workload::Hash { hmac }, Some(out)) => Iteration::Next {
            sink: sink ^ (le64(out.take(8)) as u64 ^ i),
        },
        (Workload::Aead, Some(out)) => Iteration::Next {
            sink: sink ^ le64(out.skip(out.len() - 8)) as u64,
        },
        (Workload::Aead, None) => Iteration::Stop { outcome: Some(sink) },
        (Workload::Kernel { algorithm, room }, Some(out)) => Iteration::Next {
            sink: if out.len() >= 8 {
                sink.wrapping_add(le64(out.skip(out.len() - 8)) as u64 ^ i)
            } else {
                sink
            },
        },
        _ => Iteration::Stop { outcome: None },
    }
}

impl Workload {
    /// Whether an output is as long as this workload's outputs are: a digest
    /// or a sealed buffer is never shorter than a word.
    pub open spec fn yields(self, output: Option<Seq<u8>>) -> bool {
        match self {
            Workload::Hash { hmac } => output matches Some(out) && out.len() >= 8,
            Workload::Aead => output matches Some(out) ==> out.len() >= 8,
            Workload::Kernel { algorithm, room } => true,
            Workload::Isa { kernel } => false,
        }
    }

    /// Keeps the output of one iteration alive, and says what follows it. A
    /// rate is worked out over all iterations, so a call of the kernel that
    /// failed must not count as a fast one.
    pub fn keep(self, sink: u64, i: u64, output: Option<&Vec<u8>>) -> (after: Iteration)
        requires
            self.yields(
                match output {
                    Some(out) => Some(out@),
                    None => None,
                },
            ),
        ensures
            after == kept(
                self,
                sink,
                i,
                match output {
                    Some(out) => Some(out@),
                    None => None,
                },
            ),
    {
        match output {
            None => match self {
                Workload::Aead => Iteration::Stop { outcome: Some(sink) },
                _ => Iteration::Stop { outcome: None },
            },
            Some(out) => {
                let n: usize = out.len();
                match self {
                    Workload::Hash { hmac } => {
                        assert(out@.subrange(0, 8) =~= out@.take(8));
                        let word: u64 = read_le64(out.as_slice(), 0);
                        Iteration::Next { sink: sink ^ (word ^ i) }
                    },
                    Workload::Aead => {
                        assert(out@.subrange(n - 8, n as int) =~= out@.skip(n - 8));
                        let word: u64 = read_le64(out.as_slice(), n - 8);
                        Iteration::Next { sink: sink ^ word }
                    },
                    Workload::Kernel { algorithm, room } => {
                        if n >= 8 {
                            assert(out@.subrange(n - 8, n as int) =~= out@.skip(n - 8));
                            let word: u64 = read_le64(out.as_slice(), n - 8);
                            Iteration::Next { sink: sink.wrapping_add(word ^ i) }
                        } else {
                            Iteration::Next { sink }
                        }
                    },
                    Workload::Isa { kernel } => Iteration::Stop { outcome: None },
                }
            },
        }
    }

    /// What a loop of instructions comes to: a scalar word, a loop of vector
    /// or cryptographic instructions to run, or nothing where the machine
    /// cannot run it.
    pub fn execute(&self, table: &Dispatcher, loops: usize) -> (run: Option<KernelRun>)
        ensures
            run == (match self {
                Workload::Isa { kernel: BenchKernel::Scalar } => Some(
                    KernelRun::Scalar {
                        word: crate::dispatch::scalar_word(
                            table.host.counter.target.machine,
                            loops,
                        ),
                    },
                ),
                Workload::Isa { kernel: BenchKernel::Isa(b) } => if b.available(
                    table.features,
                    table.host.counter.target,
                ) {
                    Some(
                        crate::dispatch::kernel_of(table.host.counter.target.machine, *b, loops),
                    )
                } else {
                    None
                },
                Workload::Isa { kernel: BenchKernel::CryptoRaw(k) } => table.crypto_kernel_of(
                    *k,
                    loops,
                ),
                _ => None,
            }),
    {
        match self {
            Workload::Isa { kernel: BenchKernel::Scalar } => Some(
                KernelRun::Scalar {
                    word: scalar_kernel(table.host.counter.target.machine, loops),
                },
            ),
            Workload::Isa { kernel: BenchKernel::Isa(b) } => table.run_kernel_for(*b, loops),
            Workload::Isa { kernel: BenchKernel::CryptoRaw(k) } => table.run_crypto_kernel(
                *k,
                loops,
            ),
            _ => None,
        }
    }
}

// ---------------------------------------------------------------------------
// Runs
// ---------------------------------------------------------------------------

/// What is asked of a run.
#[derive(Debug, Clone, PartialEq, Eq)]
pub struct BenchConfig {
    pub mode: BenchMode,
    pub kernel: BenchKernel,
    /// Host for TLS runs.
    pub tls_host: String,
    pub tls_port: u16,
}

impl Default for BenchConfig {
    fn default() -> (config: BenchConfig)
        ensures
            config.mode is CpuIsa,
            config.kernel is Scalar,
            config.tls_host@ == "www.rust-lang.org"@,
            config.tls_port == 443,
    {
        let mut tls_host: String = String::new();
        push_text(&mut tls_host, "www.rust-lang.org");
        assert(tls_host@ =~= "www.rust-lang.org"@);
        BenchConfig { mode: BenchMode::CpuIsa, kernel: BenchKernel::Scalar, tls_host, tls_port: 443 }
    }
}

/// The counts of one pass.
#[derive(Debug, Clone, Copy, PartialEq, Eq, Structural)]
pub struct PassCounts {
    pub pass: u32,
    pub repeats: u32,
    pub loops: usize,
    pub cycles: u64,
    /// What is kept of the work.
    pub sink: u64,
}

/// A finished run, as far as it is counted.
#[derive(Debug)]
pub struct BenchReport {
    pub kernel_name: String,
    pub mode: &'static str,
    pub passes: Vec<PassCounts>,
    pub total_cycles: u64,
    pub log: String,
    /// Set where the run could not proceed.
    pub error: Option<String>,
}

impl BenchReport {
    /// A run that could not proceed: it holds no passes, and says why.
    pub fn failed(kernel: BenchKernel, mode: BenchMode, host: &BenchHost, reason: &str) -> (report:
        BenchReport)
        requires
            kernel.known(*host),
        ensures
            report.kernel_name@ == kernel.title(*host),
            report.mode@ == mode.title(),
            report.passes@.len() == 0,
            report.total_cycles == 0,
            report.log@ == "status: "@ + reason@ + "\n"@,
            report.error matches Some(error) && error@ == reason@,
    {
        let mut log: String = String::new();
        push_text(&mut log, "status: ");
        push_text(&mut log, reason);
        push_text(&mut log, "\n");
        assert(log@ =~= "status: "@ + reason@ + "\n"@);
        let mut error: String = String::new();
        push_text(&mut error, reason);
        assert(error@ =~= reason@);
        BenchReport {
            kernel_name: kernel.name(host),
            mode: mode.name(),
            passes: Vec::new(),
            total_cycles: 0,
            log,
            error: Some(error),
        }
    }
}

/// Why a row that cannot run cannot run. An ISA kernel is missing because the
/// processor lacks it, a ring 0 row because of a module.
pub open spec fn refusal_text(mode: BenchMode) -> Seq<char> {
    match mode {
        BenchMode::KernelCryptoRing0 =>
            "NOT AVAILABLE: the kernel module is not loaded, or it did not measure this algorithm. Build and insert kernel/linux/ with `make load`, or use --mode kernel for the ring-3 measurement."@,
        BenchMode::KernelCrypto =>
            "NOT AVAILABLE: this kernel does not offer the algorithm through AF_ALG, or the socket family is unavailable here."@,
        _ => "NOT AVAILABLE on this CPU"@,
    }
}

/// What a run is to do.
#[derive(Debug)]
pub enum RunPlan {
    /// It cannot be run: this is its report.
    Refused { report: BenchReport },
    /// Handshakes.
    Tls,
    /// Read what the module measured of an algorithm.
    Ring0 { algorithm: KernelAlgorithm },
    /// Three timed passes of a workload.
    Passes { workload: Workload },
}

/// Decides what a run is to do.
pub fn plan_run(config: &BenchConfig, host: &BenchHost) -> (plan: RunPlan)
    requires
        config.kernel.known(*host),
    ensures
        match plan {
            RunPlan::Refused { report } => {
                &&& !config.kernel.available(*host)
                &&& report.error matches Some(error) && error@ == refusal_text(config.mode)
                &&& report.log@ == "status: "@ + refusal_text(config.mode) + "\n"@
                &&& report.kernel_name@ == config.kernel.title(*host)
                &&& report.mode@ == config.mode.title()
                &&& report.passes@.len() == 0
                &&& report.total_cycles == 0
            },
            RunPlan::Tls => config.kernel is Tls,
            RunPlan::Ring0 { algorithm } => config.kernel.available(*host) && config.kernel
                == BenchKernel::Ring0(algorithm),
            RunPlan::Passes { workload } => config.kernel.available(*host) && Workload::of(
                config.kernel,
                *host,
            ) == Ok::<Workload, NoWorkload>(workload),
        },
{
    if !config.kernel.is_available(host) {
        let reason: &'static str = match config.mode {
            BenchMode::KernelCryptoRing0 =>
                "NOT AVAILABLE: the kernel module is not loaded, or it did not measure this algorithm. Build and insert kernel/linux/ with `make load`, or use --mode kernel for the ring-3 measurement.",
            BenchMode::KernelCrypto =>
                "NOT AVAILABLE: this kernel does not offer the algorithm through AF_ALG, or the socket family is unavailable here.",
            _ => "NOT AVAILABLE on this CPU",
        };
        return RunPlan::Refused {
            report: BenchReport::failed(config.kernel, config.mode, host, reason),
        };
    }
    match config.kernel {
        BenchKernel::Tls => RunPlan::Tls,
        BenchKernel::Ring0(algorithm) => RunPlan::Ring0 { algorithm },
        _ => match Workload::new(config.kernel, host) {
            Ok(workload) => RunPlan::Passes { workload },
            Err(_) => RunPlan::Tls,
        },
    }
}

/// The sum of some counts.
pub open spec fn sum(counts: Seq<u64>) -> int
    decreases counts.len(),
{
    if counts.len() == 0 {
        0
    } else {
        sum(counts.drop_last()) + counts.last()
    }
}

/// The cycles of all passes, or the greatest number where they do not fit.
pub fn total_cycles(counts: &[u64]) -> (total: u64)
    ensures
        total == crate::num::capped(sum(counts@), u64::MAX as int),
{
    let mut total: u64 = 0;
    let mut i: usize = 0;
    assert(counts@.take(0) =~= Seq::empty());
    while i < counts.len()
        invariant
            i <= counts.len(),
            sum(counts@.take(i as int)) >= 0,
            total == crate::num::capped(sum(counts@.take(i as int)), u64::MAX as int),
        decreases counts.len() - i,
    {
        assert(counts@.take(i + 1).drop_last() =~= counts@.take(i as int));
        total = total.saturating_add(counts[i]);
        i = i + 1;
    }
    assert(counts@.take(i as int) =~= counts@);
    total
}

/// What is kept of a pass's repeats, put together.
pub open spec fn kept_of_all(outcomes: Seq<Option<u64>>) -> u64
    decreases outcomes.len(),
{
    if outcomes.len() == 0 {
        0
    } else {
        kept_of_all(outcomes.drop_last()) ^ outcomes.last()->0
    }
}

/// Whether no repeat of a pass ended the run.
pub open spec fn ran_through(outcomes: Seq<Option<u64>>) -> bool {
    forall|i: int| 0 <= i < outcomes.len() ==> (#[trigger] outcomes[i]) is Some
}

/// Counts one pass between two readings of the counter, out of what each of
/// its repeats left. `None` where one ended the run: the rate is worked out
/// over all iterations, and would report such work as arbitrarily quick.
pub fn run_pass(
    pass: u32,
    repeats: u32,
    loops: usize,
    start: u64,
    end: u64,
    outcomes: &[Option<u64>],
) -> (counts: Option<PassCounts>)
    ensures
        counts == (if ran_through(outcomes@) {
            Some(
                PassCounts {
                    pass,
                    repeats,
                    loops,
                    cycles: crate::arch::insn::elapsed(start, end),
                    sink: kept_of_all(outcomes@),
                },
            )
        } else {
            None
        }),
{
    let mut sink: u64 = 0;
    let mut i: usize = 0;
    assert(outcomes@.take(0) =~= Seq::empty());
    while i < outcomes.len()
        invariant
            i <= outcomes.len(),
            sink == kept_of_all(outcomes@.take(i as int)),
            forall|k: int| 0 <= k < i ==> (#[trigger] outcomes@[k]) is Some,
        decreases outcomes.len() - i,
    {
        assert(outcomes@.take(i + 1).drop_last() =~= outcomes@.take(i as int));
        match outcomes[i] {
            Some(word) => {
                sink = sink ^ word;
            },
            None => {
                assert(outcomes@[i as int] is None);
                return None;
            },
        }
        i = i + 1;
    }
    assert(outcomes@.take(i as int) =~= outcomes@);
    Some(PassCounts { pass, repeats, loops, cycles: between(start, end), sink })
}

/// One reading of what the kernel module measured.
#[derive(Debug, Clone, Copy, PartialEq, Eq, Structural)]
pub struct Ring0Pass {
    /// How many operations the module timed.
    pub loops: usize,
    pub cycles: u64,
    /// Over how many bytes, as the module says.
    pub bytes: usize,
}

/// Why the kernel module's measurement could not be read.
pub open spec fn ring0_failure(report: Option<Ring0>, algorithm: KernelAlgorithm) -> Seq<char> {
    match report {
        None =>
            "the kernel module is not loaded; build and insert kernel/linux/                  (see its README), or use --mode kernel for the ring-3 measurement"@,
        Some(_) => "the loaded module did not measure "@ + algorithm.kernel_name()
            + "; this kernel may not                      provide it"@,
    }
}

/// One pass of a run inside the kernel: what the module says of an algorithm.
pub fn ring0_pass(report: &Option<Ring0>, algorithm: KernelAlgorithm) -> (pass: Result<
    Ring0Pass,
    String,
>)
    ensures
        match pass {
            Ok(pass) => report matches Some(r) && crate::bench::timed(*r, algorithm.kernel_name())
                == Some(pass.cycles) && pass.loops == r.rounds && pass.bytes == r.payload_bytes,
            Err(reason) => reason@ == ring0_failure(*report, algorithm) && (report matches Some(r)
                ==> crate::bench::timed(*r, algorithm.kernel_name()) is None),
        },
{
    let mut reason: String = String::new();
    match report {
        None => {
            push_text(
                &mut reason,
                "the kernel module is not loaded; build and insert kernel/linux/                  (see its README), or use --mode kernel for the ring-3 measurement",
            );
            assert(reason@ =~= ring0_failure(*report, algorithm));
            Err(reason)
        },
        Some(r) => match find_timing(r, algorithm.algorithm()) {
            Some(cycles) => Ok(Ring0Pass { loops: r.rounds, cycles, bytes: r.payload_bytes }),
            None => {
                push_text(&mut reason, "the loaded module did not measure ");
                push_text(&mut reason, algorithm.algorithm());
                push_text(&mut reason, "; this kernel may not                      provide it");
                assert(reason@ =~= ring0_failure(*report, algorithm));
                Err(reason)
            },
        },
    }
}

/// The best of some timed calls: the least distance that is not zero.
pub open spec fn best_of(pairs: Seq<(u64, u64)>) -> u64
    decreases pairs.len(),
{
    if pairs.len() == 0 {
        u64::MAX
    } else {
        let before = best_of(pairs.drop_last());
        let d = crate::arch::insn::elapsed(pairs.last().0, pairs.last().1);
        if d != 0 && d < before {
            d
        } else {
            before
        }
    }
}

/// The best of some timed calls through the kernel, or `None` where none
/// took any time.
pub fn ring3_cycles_per_op(pairs: &[(u64, u64)]) -> (cycles: Option<u64>)
    ensures
        cycles == (if best_of(pairs@) == u64::MAX {
            None
        } else {
            Some(best_of(pairs@))
        }),
{
    let mut best: u64 = u64::MAX;
    let mut i: usize = 0;
    assert(pairs@.take(0) =~= Seq::empty());
    while i < pairs.len()
        invariant
            i <= pairs.len(),
            best == best_of(pairs@.take(i as int)),
        decreases pairs.len() - i,
    {
        assert(pairs@.take(i + 1).drop_last() =~= pairs@.take(i as int));
        let d: u64 = between(pairs[i].0, pairs[i].1);
        if d != 0 && d < best {
            best = d;
        }
        i = i + 1;
    }
    assert(pairs@.take(i as int) =~= pairs@);
    if best == u64::MAX {
        None
    } else {
        Some(best)
    }
}

/// The best of a run inside the kernel: the least cycles of its passes, one
/// operation each. `None` where there was no pass.
pub fn ring0_cycles_per_op(passes: &[PassCounts]) -> (cycles: Option<u64>)
    ensures
        match cycles {
            Some(least) => {
                &&& exists|i: int| 0 <= i < passes@.len() && (#[trigger] passes@[i]).cycles == least
                &&& forall|i: int|
                    0 <= i < passes@.len() ==> least <= (#[trigger] passes@[i]).cycles
            },
            None => passes@.len() == 0,
        },
{
    if passes.len() == 0 {
        return None;
    }
    let mut least: u64 = passes[0].cycles;
    let mut i: usize = 1;
    assert(passes@[0].cycles == least);
    while i < passes.len()
        invariant
            1 <= i <= passes.len(),
            exists|k: int| 0 <= k < i && (#[trigger] passes@[k]).cycles == least,
            forall|k: int| 0 <= k < i ==> least <= (#[trigger] passes@[k]).cycles,
        decreases passes.len() - i,
    {
        if passes[i].cycles < least {
            least = passes[i].cycles;
            assert(passes@[i as int].cycles == least);
        }
        i = i + 1;
    }
    Some(least)
}

/// The line that says what crossing the boundary costs: only where it costs.
/// `ratio` is how many times as much, to one decimal.
pub open spec fn overhead_text(ring3: u64, ring0: u64, ratio: Seq<char>) -> Seq<char> {
    if ring0 > 0 && ring3 > ring0 {
        "\nAF_ALG overhead: ring 3 "@ + crate::text::decimal(ring3 as int) + " cyc/op vs ring 0 "@
            + crate::text::decimal(ring0 as int) + " cyc/op = "@ + crate::text::decimal(
            ring3 - ring0,
        ) + " cycles ("@ + ratio + "x) spent crossing the boundary\n"@
    } else {
        Seq::empty()
    }
}

/// Writes what crossing the boundary costs, where it costs anything.
pub fn write_overhead(log: &mut String, ring3: u64, ring0: u64, ratio: &str)
    ensures
        final(log)@ == old(log)@ + overhead_text(ring3, ring0, ratio@),
{
    if ring0 > 0 && ring3 > ring0 {
        push_text(log, "\nAF_ALG overhead: ring 3 ");
        push_decimal(log, ring3);
        push_text(log, " cyc/op vs ring 0 ");
        push_decimal(log, ring0);
        push_text(log, " cyc/op = ");
        push_decimal(log, ring3 - ring0);
        push_text(log, " cycles (");
        push_text(log, ratio);
        push_text(log, "x) spent crossing the boundary\n");
    }
    assert(log@ =~= old(log)@ + overhead_text(ring3, ring0, ratio@));
}

// ---------------------------------------------------------------------------
// The log
// ---------------------------------------------------------------------------

/// A flag as a digit.
pub open spec fn flag(value: bool) -> Seq<char> {
    if value {
        "1"@
    } else {
        "0"@
    }
}

fn push_flag(out: &mut String, label: &str, value: bool)
    ensures
        final(out)@ == old(out)@ + label@ + flag(value),
{
    push_text(out, label);
    push_text(
        out,
        if value {
            "1"
        } else {
            "0"
        },
    );
}

/// The crypto and vector flags that matter, under this processor's names: x86
/// flags on an ARM part would read as a processor without AES.
pub open spec fn flags_text(out: Seq<char>, f: CpuFeatures, machine: Machine) -> Seq<char> {
    if machine is Aarch64 || machine is Arm {
        out + "AES="@ + flag(f.arm_aes) + " SHA2="@ + flag(f.arm_sha2) + " PMULL="@ + flag(
            f.pclmulqdq,
        ) + " NEON="@ + flag(f.neon) + " SVE="@ + flag(f.sve) + " SVE2="@ + flag(f.sve2) + " SME="@
            + flag(f.sme)
    } else if machine.powerpc() {
        out + "ALTIVEC="@ + flag(f.altivec) + " VSX="@ + flag(f.vsx)
    } else if machine.riscv() {
        out + "RVV="@ + flag(f.rvv)
    } else {
        out + "AES="@ + flag(f.aesni) + " SHA="@ + flag(f.shani) + " VAES="@ + flag(f.vaes)
            + " PCLMUL="@ + flag(f.pclmulqdq) + " AVX="@ + flag(f.avx) + " AVX2="@ + flag(f.avx2)
            + " AVX-VNNI="@ + flag(f.avx_vnni) + " AVX512F="@ + flag(f.avx512f)
    }
}

/// Writes the flags that matter on this processor.
pub fn cpu_flags(out: &mut String, f: &CpuFeatures, machine: Machine)
    ensures
        final(out)@ == flags_text(old(out)@, *f, machine),
{
    match machine {
        Machine::Aarch64 | Machine::Arm => {
            push_flag(out, "AES=", f.arm_aes);
            push_flag(out, " SHA2=", f.arm_sha2);
            push_flag(out, " PMULL=", f.pclmulqdq);
            push_flag(out, " NEON=", f.neon);
            push_flag(out, " SVE=", f.sve);
            push_flag(out, " SVE2=", f.sve2);
            push_flag(out, " SME=", f.sme);
        },
        Machine::PowerPc | Machine::PowerPcWide => {
            push_flag(out, "ALTIVEC=", f.altivec);
            push_flag(out, " VSX=", f.vsx);
        },
        Machine::RiscV | Machine::RiscVWide => {
            push_flag(out, "RVV=", f.rvv);
        },
        _ => {
            push_flag(out, "AES=", f.aesni);
            push_flag(out, " SHA=", f.shani);
            push_flag(out, " VAES=", f.vaes);
            push_flag(out, " PCLMUL=", f.pclmulqdq);
            push_flag(out, " AVX=", f.avx);
            push_flag(out, " AVX2=", f.avx2);
            push_flag(out, " AVX-VNNI=", f.avx_vnni);
            push_flag(out, " AVX512F=", f.avx512f);
        },
    }
}

/// What the header shows that is measured or comes from elsewhere.
#[derive(Debug)]
pub struct HeaderFacts {
    /// The backend the counter is read through.
    pub backend: String,
    /// The widest SIMD family, or `none`.
    pub simd: String,
    /// The counter's rate in megahertz, to three decimals.
    pub counter_mhz: String,
    /// The module's payload size as it is shown.
    pub ring0_size: String,
    /// The name of the crypto provider.
    pub provider: String,
}

/// One line for each algorithm the module measured.
pub open spec fn ring0_lines(out: Seq<char>, timings: Seq<(Seq<char>, u64)>) -> Seq<char>
    decreases timings.len(),
{
    if timings.len() == 0 {
        out
    } else {
        let last = timings.last();
        ring0_lines(out, timings.drop_last()) + "  ring 0 "@ + last.0 + ": "@
            + crate::text::decimal(last.1 as int) + " cycles/op\n"@
    }
}

fn push_ring0_lines(out: &mut String, report: &Ring0)
    ensures
        final(out)@ == ring0_lines(old(out)@, report@.timings),
{
    let ghost all = report@.timings;
    let ghost start = out@;
    let mut i: usize = 0;
    assert(all.take(0) =~= Seq::empty());
    while i < report.timings.len()
        invariant
            i <= report.timings.len(),
            all == report@.timings,
            out@ == ring0_lines(start, all.take(i as int)),
        decreases report.timings.len() - i,
    {
        assert(all.take(i + 1).drop_last() =~= all.take(i as int));
        assert(all.take(i + 1).last() == (
            report.timings@[i as int].0@,
            report.timings@[i as int].1,
        ));
        push_text(out, "  ring 0 ");
        push_text(out, report.timings[i].0.as_str());
        push_text(out, ": ");
        push_decimal(out, report.timings[i].1);
        push_text(out, " cycles/op\n");
        i = i + 1;
    }
    assert(all.take(i as int) =~= all);
}

/// What the header says of the kernel module, which only Linux has.
pub open spec fn module_text(out: Seq<char>, host: BenchHost, size: Seq<char>) -> Seq<char> {
    if !host.target.linux {
        out
    } else {
        match host.ring0 {
            Some(r) => ring0_lines(
                out + "ring 0 module: loaded; "@ + crate::text::decimal(
                    r.timings@.len() as int,
                ) + " algorithm(s), best of "@ + crate::text::decimal(r.rounds as int) + " over "@
                    + size + "\n"@,
                r@.timings,
            ),
            None => out
                + "ring 0 module: not loaded (optional; see kernel/linux/README.md)\n"@,
        }
    }
}

/// The header of a run's log.
pub open spec fn header_text(
    out: Seq<char>,
    config: BenchConfig,
    host: BenchHost,
    facts: HeaderFacts,
) -> Seq<char> {
    let head = out + "=== NanoChronometer benchmark ===\noperation: "@ + config.kernel.title(host)
        + "\nmode: "@ + config.mode.title() + "\nbackend: "@ + facts.backend@ + "\nsimd: "@
        + facts.simd@ + "\ncounter: "@ + facts.counter_mhz@ + " MHz  invariant="@
        + crate::dispatch::bool_text(host.features.invariant_counter) + "\n"@;
    flags_text(
        module_text(head, host, facts.ring0_size@) + "crypto provider: "@ + facts.provider@
            + "\ncpu flags: "@,
        host.features,
        host.target.machine,
    ) + "\n\n"@
}

/// Writes the header of a run's log.
pub fn write_header(log: &mut String, config: &BenchConfig, host: &BenchHost, facts: &HeaderFacts)
    requires
        config.kernel.known(*host),
    ensures
        final(log)@ == header_text(old(log)@, *config, *host, *facts),
{
    push_text(log, "=== NanoChronometer benchmark ===\noperation: ");
    let name: String = config.kernel.name(host);
    push_text(log, name.as_str());
    push_text(log, "\nmode: ");
    push_text(log, config.mode.name());
    push_text(log, "\nbackend: ");
    push_text(log, facts.backend.as_str());
    push_text(log, "\nsimd: ");
    push_text(log, facts.simd.as_str());
    push_text(log, "\ncounter: ");
    push_text(log, facts.counter_mhz.as_str());
    push_text(log, " MHz  invariant=");
    push_text(
        log,
        if host.features.invariant_counter {
            "true"
        } else {
            "false"
        },
    );
    push_text(log, "\n");
    if host.target.linux {
        match &host.ring0 {
            Some(r) => {
                push_text(log, "ring 0 module: loaded; ");
                push_decimal(log, r.timings.len() as u64);
                push_text(log, " algorithm(s), best of ");
                push_decimal(log, r.rounds as u64);
                push_text(log, " over ");
                push_text(log, facts.ring0_size.as_str());
                push_text(log, "\n");
                push_ring0_lines(log, r);
            },
            None => push_text(
                log,
                "ring 0 module: not loaded (optional; see kernel/linux/README.md)\n",
            ),
        }
    }
    push_text(log, "crypto provider: ");
    push_text(log, facts.provider.as_str());
    push_text(log, "\ncpu flags: ");
    cpu_flags(log, &host.features, host.target.machine);
    push_text(log, "\n\n");
}

/// Writes what a run is about to do, and where to for a handshake.
pub fn write_warmup(log: &mut String, profile: &BenchProfile, config: &BenchConfig)
    ensures
        final(log)@ == old(log)@ + "warmup: "@ + profile.description@ + "\nunit: "@
            + profile.unit@ + (if config.kernel is Tls {
            "\ntarget: "@ + config.tls_host@ + ":"@ + crate::text::decimal(
                config.tls_port as int,
            )
        } else {
            Seq::empty()
        }) + "\n\n"@,
{
    push_text(log, "warmup: ");
    push_text(log, profile.description.as_str());
    push_text(log, "\nunit: ");
    push_text(log, profile.unit.as_str());
    let ghost before = log@;
    if matches!(config.kernel, BenchKernel::Tls) {
        push_text(log, "\ntarget: ");
        push_text(log, config.tls_host.as_str());
        push_text(log, ":");
        push_decimal(log, config.tls_port as u64);
        assert(log@ =~= before + ("\ntarget: "@ + config.tls_host@ + ":"@ + crate::text::decimal(
            config.tls_port as int,
        )));
    } else {
        assert(log@ =~= before + Seq::<char>::empty());
    }
    push_text(log, "\n\n");
}

/// Writes that a run came through.
pub fn write_completed(log: &mut String)
    ensures
        final(log)@ == old(log)@ + "\nstatus: completed successfully.\n"@,
{
    push_text(log, "\nstatus: completed successfully.\n");
}

/// The rates of a pass, worked out and rendered.
#[derive(Debug)]
pub struct PassRates {
    /// Seconds, to six decimals.
    pub seconds: String,
    /// Millions of operations per second, to three.
    pub mops: String,
    /// To four.
    pub cycles_per_op: String,
    /// To four.
    pub ns_per_op: String,
    /// To three.
    pub mib_per_second: String,
}

/// One pass's line of the log. Throughput only where bytes are moved.
pub open spec fn pass_text(
    out: Seq<char>,
    bytes_per_op: usize,
    p: PassCounts,
    rates: PassRates,
) -> Seq<char> {
    let line = out + "pass "@ + crate::text::decimal(p.pass as int) + ": repeats="@
        + crate::text::decimal(p.repeats as int) + "  loops="@ + crate::text::decimal(
        p.loops as int,
    ) + "  cycles="@ + crate::text::decimal(p.cycles as int) + "  time="@ + rates.seconds@
        + " s  rate="@ + rates.mops@ + " Mops/s  cyc/op="@ + rates.cycles_per_op@ + "  ns/op="@
        + rates.ns_per_op@;
    (if bytes_per_op > 0 {
        line + "  MiB/s="@ + rates.mib_per_second@
    } else {
        line
    }) + "  sink="@ + crate::text::raised(crate::text::hex(p.sink as int, 16)) + "\n"@
}

/// Writes one pass's line of the log.
pub fn write_pass(log: &mut String, bytes_per_op: usize, p: &PassCounts, rates: &PassRates)
    ensures
        final(log)@ == pass_text(old(log)@, bytes_per_op, *p, *rates),
{
    push_text(log, "pass ");
    push_decimal(log, p.pass as u64);
    push_text(log, ": repeats=");
    push_decimal(log, p.repeats as u64);
    push_text(log, "  loops=");
    push_decimal(log, p.loops as u64);
    push_text(log, "  cycles=");
    push_decimal(log, p.cycles);
    push_text(log, "  time=");
    push_text(log, rates.seconds.as_str());
    push_text(log, " s  rate=");
    push_text(log, rates.mops.as_str());
    push_text(log, " Mops/s  cyc/op=");
    push_text(log, rates.cycles_per_op.as_str());
    push_text(log, "  ns/op=");
    push_text(log, rates.ns_per_op.as_str());
    if bytes_per_op > 0 {
        push_text(log, "  MiB/s=");
        push_text(log, rates.mib_per_second.as_str());
    }
    push_text(log, "  sink=");
    push_hex_raised(log, p.sink, 16);
    push_text(log, "\n");
}

/// The figures of a run's summary, worked out and rendered.
#[derive(Debug)]
pub struct SummaryRates {
    pub mean_mops: String,
    pub best_mops: String,
    pub worst_mops: String,
    pub best_ns_per_op: String,
    pub worst_ns_per_op: String,
    pub total_seconds: String,
    /// The spread between the passes in per cent, where it is wide enough to
    /// be called out.
    pub spread: Option<String>,
}

/// The summary of a run.
pub open spec fn summary_text(
    out: Seq<char>,
    unit: Seq<char>,
    total_cycles: u64,
    rates: SummaryRates,
) -> Seq<char> {
    let body = out + "\nsummary:\n  unit: "@ + unit + "\n  rate: mean "@ + rates.mean_mops@
        + " Mops/s   best "@ + rates.best_mops@ + "   worst "@ + rates.worst_mops@
        + "\n  ns/op: best "@ + rates.best_ns_per_op@ + "   worst "@ + rates.worst_ns_per_op@
        + "\n  aggregate cycles: "@ + crate::text::decimal(total_cycles as int)
        + "\n  aggregate time: "@ + rates.total_seconds@ + " s\n"@;
    match rates.spread {
        Some(spread) => body + "  note: "@ + spread@
            + "% spread between passes — the workload is still warming up, so trust the last pass over the mean.\n"@,
        None => body,
    }
}

/// Writes the summary of a run.
pub fn write_summary(log: &mut String, unit: &str, total_cycles: u64, rates: &SummaryRates)
    ensures
        final(log)@ == summary_text(old(log)@, unit@, total_cycles, *rates),
{
    push_text(log, "\nsummary:\n  unit: ");
    push_text(log, unit);
    push_text(log, "\n  rate: mean ");
    push_text(log, rates.mean_mops.as_str());
    push_text(log, " Mops/s   best ");
    push_text(log, rates.best_mops.as_str());
    push_text(log, "   worst ");
    push_text(log, rates.worst_mops.as_str());
    push_text(log, "\n  ns/op: best ");
    push_text(log, rates.best_ns_per_op.as_str());
    push_text(log, "   worst ");
    push_text(log, rates.worst_ns_per_op.as_str());
    push_text(log, "\n  aggregate cycles: ");
    push_decimal(log, total_cycles);
    push_text(log, "\n  aggregate time: ");
    push_text(log, rates.total_seconds.as_str());
    push_text(log, " s\n");
    match &rates.spread {
        Some(spread) => {
            push_text(log, "  note: ");
            push_text(log, spread.as_str());
            push_text(
                log,
                "% spread between passes — the workload is still warming up, so trust the last pass over the mean.\n",
            );
        },
        None => {},
    }
}

// ---------------------------------------------------------------------------
// Handshakes
// ---------------------------------------------------------------------------

/// How one handshake went: its summary, or what went wrong.
#[derive(Debug)]
pub enum Handshake {
    Done { summary: String },
    Failed { error: String },
}

/// What one handshake adds to the log.
pub open spec fn handshake_text(out: Seq<char>, pass: u32, handshake: Handshake) -> Seq<char> {
    let head = out + "pass "@ + crate::text::decimal(pass as int) + ": "@;
    match handshake {
        Handshake::Done { summary } => head + summary@ + "\n"@,
        Handshake::Failed { error } => head + "handshake failed: "@ + error@ + "\n"@,
    }
}

/// Writes how one handshake went. The answer is whether the run goes on: a
/// failure ends it unless a handshake before it went through.
pub fn write_handshake(log: &mut String, pass: u32, handshake: &Handshake, done_before: usize) -> (
    goes_on: bool)
    ensures
        final(log)@ == handshake_text(old(log)@, pass, *handshake),
        goes_on == (handshake is Done || done_before > 0),
{
    push_text(log, "pass ");
    push_decimal(log, pass as u64);
    push_text(log, ": ");
    match handshake {
        Handshake::Done { summary } => {
            push_text(log, summary.as_str());
            push_text(log, "\n");
            true
        },
        Handshake::Failed { error } => {
            push_text(log, "handshake failed: ");
            push_text(log, error.as_str());
            push_text(log, "\n");
            done_before > 0
        },
    }
}

/// What was negotiated, and how much of the time TLS took, in per cent.
#[derive(Debug)]
pub struct Negotiated {
    pub protocol: String,
    pub cipher_suite: String,
    pub peer_certificates: usize,
    pub share: String,
}

/// Writes what the last handshake negotiated.
pub fn write_negotiated(log: &mut String, n: &Negotiated)
    ensures
        final(log)@ == old(log)@ + "  negotiated: "@ + n.protocol@ + " / "@ + n.cipher_suite@
            + "   certificates: "@ + crate::text::decimal(n.peer_certificates as int)
            + "   tls share of total: "@ + n.share@ + "%\n"@,
{
    push_text(log, "  negotiated: ");
    push_text(log, n.protocol.as_str());
    push_text(log, " / ");
    push_text(log, n.cipher_suite.as_str());
    push_text(log, "   certificates: ");
    push_decimal(log, n.peer_certificates as u64);
    push_text(log, "   tls share of total: ");
    push_text(log, n.share.as_str());
    push_text(log, "%\n");
}

} // verus!
