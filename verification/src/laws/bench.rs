//! What a benchmark runs, and what it counts.
use crate::arch::insn::elapsed;
use crate::backend::Backend;
use crate::bench::{timed, timed_in, BenchHost, BenchKernel, BenchMode, CryptoWork, KernelAlgorithm};
use crate::cpu::CpuFeatures;
use crate::harness::{
    bench_key, best_of, bytes_of, flag, flags_text, gate, kept, kept_of_all, le64, le64_bytes,
    loops_of, nonce, overhead_text, payload, payload_byte, plan_run, profile_title, refusal_text,
    repeats_of, ring0_pass, ring3_cycles_per_op, run_pass, sum, total_cycles, unit_of, BenchConfig,
    Iteration, NoWorkload, PassCounts, Ring0Pass, RunPlan, Workload,
};
use crate::kcrypto::Ring0;
use crate::machine::Machine;
use vstd::prelude::*;

verus! {

// ---------------------------------------------------------------------------
// Modes and rows
// ---------------------------------------------------------------------------
/// Three modes run everywhere; the kernel's crypto runs where a socket reaches
/// it, the module's where the module reported, and the bare loops where the
/// processor has the instructions of one.
pub proof fn modes_run_where_they_can(host: BenchHost, i: int)
    ensures
        BenchMode::CpuIsa.available(host),
        BenchMode::Crypto.available(host),
        BenchMode::TlsHandshake.available(host),
        BenchMode::KernelCrypto.available(host) <==> host.af_alg,
        BenchMode::KernelCryptoRing0.available(host) <==> host.ring0 is Some,
        0 <= i < host.raw@.len() && host.raw@[i].available ==> BenchMode::CryptoRaw.available(host),
        (forall|k: int| 0 <= k < host.raw@.len() ==> !(#[trigger] host.raw@[k]).available)
            ==> !BenchMode::CryptoRaw.available(host),
{
}

/// The kernel's two modes are Linux's alone.
pub proof fn two_modes_need_linux(mode: BenchMode, linux: bool)
    ensures
        mode.applies(linux) <==> linux || !(mode is KernelCrypto || mode is KernelCryptoRing0),
{
}

/// Modes are shown by these names.
pub proof fn modes_are_shown_by_name()
    ensures
        BenchMode::CpuIsa.title() == "CPU ISA kernels"@,
        BenchMode::Crypto.title() == "Crypto (rustls/ring)"@,
        BenchMode::TlsHandshake.title() == "TLS handshake (rustls)"@,
        BenchMode::KernelCrypto.title() == "Linux crypto API (AF_ALG, ring 3)"@,
        BenchMode::KernelCryptoRing0.title() == "Linux crypto API (kernel module, ring 0)"@,
        BenchMode::CryptoRaw.title() == "Crypto RAW speed (instructions only)"@,
{
}

/// A digest has as many bytes as its algorithm says: 20, 32, 64, 32 and 4; the
/// ciphers are no hashes.
pub proof fn digests_have_their_lengths(a: KernelAlgorithm)
    ensures
        KernelAlgorithm::Sha1.digest() * 8 == 160,
        KernelAlgorithm::Sha256.digest() * 8 == 256,
        KernelAlgorithm::Sha512.digest() * 8 == 512,
        KernelAlgorithm::Sha3_256.digest() * 8 == 256,
        KernelAlgorithm::Crc32c.digest() * 8 == 32,
        a.hash() <==> a.digest() > 0,
        a.hash() <==> !(a is AesCbc) && !(a is AesCtr),
{
}

/// An algorithm's names: the kernel's and the usual one.
pub proof fn algorithms_have_two_names()
    ensures
        KernelAlgorithm::Sha1.kernel_name() == "sha1"@ && KernelAlgorithm::Sha1.title() == "SHA-1"@,
        KernelAlgorithm::Sha256.kernel_name() == "sha256"@ && KernelAlgorithm::Sha256.title()
            == "SHA-256"@,
        KernelAlgorithm::Sha512.kernel_name() == "sha512"@ && KernelAlgorithm::Sha512.title()
            == "SHA-512"@,
        KernelAlgorithm::Sha3_256.kernel_name() == "sha3-256"@ && KernelAlgorithm::Sha3_256.title()
            == "SHA3-256"@,
        KernelAlgorithm::Crc32c.kernel_name() == "crc32c"@ && KernelAlgorithm::Crc32c.title()
            == "CRC32C"@,
        KernelAlgorithm::AesCbc.kernel_name() == "cbc(aes)"@ && KernelAlgorithm::AesCbc.title()
            == "AES-256-CBC"@,
        KernelAlgorithm::AesCtr.kernel_name() == "ctr(aes)"@ && KernelAlgorithm::AesCtr.title()
            == "AES-256-CTR"@,
{
}

/// A row can be run where what it needs is there: a family's instructions, a
/// bare loop's, a driver of the kernel behind an open socket, a timing of the
/// module. The scalar loop, the library's primitives and a handshake always
/// can be tried.
pub proof fn rows_run_where_they_can(host: BenchHost, b: Backend, i: usize, a: KernelAlgorithm)
    requires
        i < host.raw@.len(),
    ensures
        BenchKernel::Scalar.available(host),
        BenchKernel::Tls.available(host),
        BenchKernel::Crypto(i).available(host),
        BenchKernel::Isa(b).available(host) <==> b.available(host.features, host.target),
        BenchKernel::CryptoRaw(i).available(host) <==> host.raw@[i as int].available,
        BenchKernel::Kernel(a).available(host) <==> host.af_alg && exists|k: int|
            0 <= k < host.drivers@.len() && (#[trigger] host.drivers@[k])@.name == a.kernel_name()
                && !host.drivers@[k]@.internal,
        BenchKernel::Ring0(a).available(host) <==> (host.ring0 matches Some(r) && timed(
            r,
            a.kernel_name(),
        ) is Some),
{
    if host.has_driver(a.kernel_name()) {
        let k = choose|k: int|
            0 <= k < host.drivers@.len() && #[trigger] crate::kcrypto::answers_to(
                host.drivers@[k]@,
                a.kernel_name(),
            );
        assert(host.drivers@[k]@.name == a.kernel_name());
    }
    if exists|k: int|
        0 <= k < host.drivers@.len() && (#[trigger] host.drivers@[k])@.name == a.kernel_name()
            && !host.drivers@[k]@.internal {
        let k = choose|k: int|
            0 <= k < host.drivers@.len() && (#[trigger] host.drivers@[k])@.name == a.kernel_name()
                && !host.drivers@[k]@.internal;
        assert(crate::kcrypto::answers_to(host.drivers@[k]@, a.kernel_name()));
    }
}

/// The first timing under a name is its timing.
pub proof fn the_first_timing_counts(timings: Seq<(Seq<char>, u64)>, name: Seq<char>, i: int)
    requires
        0 <= i <= timings.len(),
        i < timings.len() ==> timings[i].0 == name,
        forall|j: int| 0 <= j < i ==> (#[trigger] timings[j]).0 != name,
    ensures
        i < timings.len() ==> timed_in(timings, name) == Some(timings[i].1),
        i == timings.len() ==> timed_in(timings, name) is None,
    decreases timings.len(),
{
    if timings.len() > 0 && i > 0 {
        assert(timings[0].0 != name);
        let rest = timings.skip(1);
        assert forall|j: int| 0 <= j < i - 1 implies (#[trigger] rest[j]).0 != name by {
            assert(rest[j] == timings[j + 1]);
        }
        the_first_timing_counts(rest, name, i - 1);
    }
}

/// Rows are shown by these names, a family's and a loop's in capitals.
pub proof fn rows_are_shown_by_name(host: BenchHost, b: Backend, i: usize, a: KernelAlgorithm)
    requires
        i < host.raw@.len(),
        i < host.algorithms@.len(),
    ensures
        BenchKernel::Scalar.title(host) == "Scalar baseline"@,
        BenchKernel::Tls.title(host) == "TLS 1.3 handshake"@,
        BenchKernel::Isa(b).title(host) == crate::text::raised(b.label()),
        BenchKernel::Crypto(i).title(host) == host.algorithms@[i as int].name@,
        BenchKernel::Kernel(a).title(host) == a.title() + " (ring 3)"@,
        BenchKernel::Ring0(a).title(host) == a.title() + " (ring 0)"@,
        BenchKernel::CryptoRaw(i).title(host) == crate::text::raised(host.raw@[i as int].name@)
            + " (raw)"@,
        profile_title(BenchKernel::Kernel(a), host) == a.title(),
        profile_title(BenchKernel::Ring0(a), host) == a.title() + " (ring 0)"@,
{
}

/// A row belongs to the mode of its kind.
pub proof fn rows_belong_to_modes(b: Backend, i: usize, a: KernelAlgorithm)
    ensures
        BenchKernel::Scalar.home() is CpuIsa,
        BenchKernel::Isa(b).home() is CpuIsa,
        BenchKernel::Crypto(i).home() is Crypto,
        BenchKernel::Tls.home() is TlsHandshake,
        BenchKernel::Kernel(a).home() is KernelCrypto,
        BenchKernel::Ring0(a).home() is KernelCryptoRing0,
        BenchKernel::CryptoRaw(i).home() is CryptoRaw,
{
}

// ---------------------------------------------------------------------------
// Profiles
// ---------------------------------------------------------------------------
/// The three passes grow one to two to three, from 300,000 for loops of
/// instructions, 1,500 for primitives, 400 for calls into the kernel and one
/// for handshakes; what the module measured is read as it is, each time.
pub proof fn passes_grow_in_steps(b: Backend, i: usize, a: KernelAlgorithm)
    ensures
        ({
            let steps = |n: int| seq![n as usize, (2 * n) as usize, (3 * n) as usize];
            &&& loops_of(BenchKernel::Scalar) == steps(300_000)
            &&& loops_of(BenchKernel::Isa(b)) == steps(300_000)
            &&& loops_of(BenchKernel::CryptoRaw(i)) == steps(300_000)
            &&& loops_of(BenchKernel::Crypto(i)) == steps(1_500)
            &&& loops_of(BenchKernel::Kernel(a)) == steps(400)
            &&& loops_of(BenchKernel::Tls) == steps(1)
            &&& loops_of(BenchKernel::Ring0(a)) == seq![1usize, 1, 1]
        }),
        repeats_of(BenchKernel::Scalar) == seq![1u32, 2, 3],
        repeats_of(BenchKernel::Isa(b)) == seq![1u32, 2, 3],
        repeats_of(BenchKernel::Crypto(i)) == seq![1u32, 2, 3],
        repeats_of(BenchKernel::CryptoRaw(i)) == seq![1u32, 2, 3],
        repeats_of(BenchKernel::Kernel(a)) == seq![1u32, 2, 3],
        repeats_of(BenchKernel::Tls) == seq![1u32, 1, 1],
        repeats_of(BenchKernel::Ring0(a)) == seq![1u32, 1, 1],
{
    let steps = |n: int| seq![n as usize, (2 * n) as usize, (3 * n) as usize];
    assert(loops_of(BenchKernel::Scalar) =~= steps(300_000));
    assert(loops_of(BenchKernel::Isa(b)) =~= steps(300_000));
    assert(loops_of(BenchKernel::CryptoRaw(i)) =~= steps(300_000));
    assert(loops_of(BenchKernel::Crypto(i)) =~= steps(1_500));
    assert(loops_of(BenchKernel::Kernel(a)) =~= steps(400));
    assert(loops_of(BenchKernel::Tls) =~= steps(1));
}

/// A loop's operation is eight bytes, a primitive's the payload; bare loops
/// and handshakes have no rate in bytes.
pub proof fn operations_have_their_bytes(b: Backend, i: usize, a: KernelAlgorithm, size: usize)
    ensures
        bytes_of(BenchKernel::Scalar, size) == 8,
        bytes_of(BenchKernel::Isa(b), size) == 8,
        bytes_of(BenchKernel::CryptoRaw(i), size) == 0,
        bytes_of(BenchKernel::Tls, size) == 0,
        bytes_of(BenchKernel::Crypto(i), size) == size,
        bytes_of(BenchKernel::Kernel(a), size) == size,
        bytes_of(BenchKernel::Ring0(a), size) == size,
{
}

/// What one operation is, in words.
pub proof fn operations_are_told_in_words(b: Backend, i: usize, a: KernelAlgorithm, host: BenchHost)
    ensures
        unit_of(BenchKernel::Scalar, host) == "1 op = 1 kernel iteration"@,
        unit_of(BenchKernel::Isa(b), host) == "1 op = 1 kernel iteration"@,
        unit_of(BenchKernel::CryptoRaw(i), host)
            == "1 op = 1 kernel iteration (one chain step per lane)"@,
        unit_of(BenchKernel::Crypto(i), host) == "1 op = 1 "@ + host.algorithms@[i as int].name@
            + " call over the payload"@,
        unit_of(BenchKernel::Kernel(a), host)
            == "1 op = 1 kernel call over the payload, syscall included"@,
        unit_of(BenchKernel::Ring0(a), host) == "1 op = 1 in-kernel call over the payload"@,
        unit_of(BenchKernel::Tls, host) == "1 op = 1 complete handshake"@,
{
}

/// Who says what the processor has.
pub proof fn features_have_their_source()
    ensures
        gate(Machine::X86) == "CPUID + XGETBV"@ && gate(Machine::X86Wide) == "CPUID + XGETBV"@,
        gate(Machine::Aarch64) == "the OS's HWCAP report (the ID registers trap at EL0)"@,
        gate(Machine::PowerPc) == "the OS's CPU feature report"@ && gate(Machine::PowerPcWide)
            == "the OS's CPU feature report"@,
        gate(Machine::RiscV) == "the OS's CPU feature report"@ && gate(Machine::RiscVWide)
            == "the OS's CPU feature report"@,
        gate(Machine::Arm) == "the OS's CPU feature report"@ && gate(Machine::Other)
            == "the OS's CPU feature report"@,
{
}

// ---------------------------------------------------------------------------
// The work
// ---------------------------------------------------------------------------
/// The payload is sixteen kibibytes, each byte 31 more than the one before it,
/// going round; the key is 32 bytes of 0x42.
pub proof fn the_payload_goes_in_steps(bytes: Vec<u8>, key: Vec<u8>, i: int)
    requires
        call_ensures(payload, (), bytes),
        call_ensures(bench_key, (), key),
    ensures
        bytes@.len() == 16 * 1024,
        bytes@[0] == 0,
        0 <= i < bytes@.len() - 1 ==> bytes@[i + 1] == (bytes@[i] + 31) % 256,
        key@.len() == 32,
        0 <= i < 32 ==> key@[i] == 0x42,
{
    if 0 <= i < bytes@.len() - 1 {
        assert(bytes@[i] == payload_byte(i));
        assert(bytes@[i + 1] == payload_byte(i + 1));
        assert(((i + 1) * 31) % 256 == ((i * 31) % 256 + 31) % 256);
    }
}

/// A nonce is its number, low byte first, and zeros.
pub proof fn a_nonce_is_its_number(i: u64, len: int)
    requires
        len >= 8,
    ensures
        nonce(i, len).len() == len,
        le64(nonce(i, len).take(8)) == i,
        forall|k: int| 8 <= k < len ==> #[trigger] nonce(i, len)[k] == 0,
{
    let b = le64_bytes(i);
    assert(nonce(i, len).take(8) =~= b);
    let q1 = i / 0x100;
    let q2 = i / 0x1_0000;
    let q3 = i / 0x100_0000;
    let q4 = i / 0x1_0000_0000;
    let q5 = i / 0x100_0000_0000;
    let q6 = i / 0x1_0000_0000_0000;
    let q7 = i / 0x100_0000_0000_0000;
    assert(q2 == q1 / 0x100 && q3 == q2 / 0x100 && q4 == q3 / 0x100);
    assert(q5 == q4 / 0x100 && q6 == q5 / 0x100 && q7 == q6 / 0x100);
    assert(q7 < 0x100);
}

/// Eight bytes are read low byte first.
pub proof fn eight_bytes_are_read_low_first(b: Seq<u8>)
    requires
        b.len() == 8,
    ensures
        le64(b) == b[0] + 256 * (b[1] + 256 * (b[2] + 256 * (b[3] + 256 * (b[4] + 256 * (b[5] + 256
            * (b[6] + 256 * b[7])))))),
{
}

/// What is kept of each output depends on all of it that matters: the first
/// eight bytes of a digest, the last eight of a ciphertext, and the number of
/// the operation where outputs would repeat. A primitive that fails ends its
/// repeat, a failure of the kernel the run.
pub proof fn work_is_kept_of_each_output(
    hmac: bool,
    a: KernelAlgorithm,
    room: usize,
    sink: u64,
    i: u64,
    out: Seq<u8>,
)
    requires
        out.len() >= 8,
    ensures
        kept(Workload::Hash { hmac }, sink, i, Some(out)) == (Iteration::Next {
            sink: sink ^ (le64(out.subrange(0, 8)) as u64 ^ i),
        }),
        kept(Workload::Aead, sink, i, Some(out)) == (Iteration::Next {
            sink: sink ^ le64(out.subrange(out.len() - 8, out.len() as int)) as u64,
        }),
        kept((Workload::Kernel { algorithm: a, room }), sink, i, Some(out)) == (Iteration::Next {
            sink: sink.wrapping_add(
                le64(out.subrange(out.len() - 8, out.len() as int)) as u64 ^ i,
            ),
        }),
        kept(Workload::Aead, sink, i, None) == (Iteration::Stop { outcome: Some(sink) }),
        kept((Workload::Kernel { algorithm: a, room }), sink, i, None) == (Iteration::Stop {
            outcome: None,
        }),
{
    assert(out.take(8) =~= out.subrange(0, 8));
    assert(out.skip(out.len() - 8) =~= out.subrange(out.len() - 8, out.len() as int));
}

/// Which work a row is.
pub proof fn rows_are_their_work(host: BenchHost, b: Backend, i: usize, a: KernelAlgorithm)
    requires
        i < host.algorithms@.len(),
    ensures
        Workload::of(BenchKernel::Scalar, host) == Ok::<Workload, NoWorkload>(
            (Workload::Isa { kernel: BenchKernel::Scalar }),
        ),
        Workload::of(BenchKernel::Isa(b), host) == Ok::<Workload, NoWorkload>(
            (Workload::Isa { kernel: BenchKernel::Isa(b) }),
        ),
        Workload::of(BenchKernel::CryptoRaw(i), host) == Ok::<Workload, NoWorkload>(
            (Workload::Isa { kernel: BenchKernel::CryptoRaw(i) }),
        ),
        Workload::of(BenchKernel::Kernel(a), host) == Ok::<Workload, NoWorkload>(
            (Workload::Kernel { algorithm: a, room: 16384 }),
        ),
        Workload::of(BenchKernel::Ring0(a), host) == Err::<Workload, NoWorkload>(
            NoWorkload::MeasuredByRing0,
        ),
        Workload::of(BenchKernel::Tls, host) == Err::<Workload, NoWorkload>(
            NoWorkload::MeasuredByTls,
        ),
        match host.algorithms@[i as int].work {
            CryptoWork::Sha256 => Workload::of(BenchKernel::Crypto(i), host) == Ok::<
                Workload,
                NoWorkload,
            >((Workload::Hash { hmac: false })),
            CryptoWork::HmacSha256 => Workload::of(BenchKernel::Crypto(i), host) == Ok::<
                Workload,
                NoWorkload,
            >((Workload::Hash { hmac: true })),
            CryptoWork::Aead => Workload::of(BenchKernel::Crypto(i), host) == Ok::<
                Workload,
                NoWorkload,
            >(Workload::Aead),
        },
        NoWorkload::MeasuredByRing0.text() == "ring 0 is measured by run_ring0"@,
        NoWorkload::MeasuredByTls.text() == "TLS is measured by run_tls"@,
{
}

/// A run that can be made is made as its row says; one that cannot is refused
/// with the reason of its mode.
pub proof fn a_run_is_made_as_its_row_says(config: BenchConfig, host: BenchHost, plan: RunPlan)
    requires
        config.kernel.known(host),
        call_ensures(plan_run, (&config, &host), plan),
    ensures
        !config.kernel.available(host) ==> plan is Refused,
        config.kernel is Tls ==> plan is Tls,
        config.kernel.available(host) ==> {
            &&& config.kernel matches BenchKernel::Ring0(a) ==> plan == (RunPlan::Ring0 {
                algorithm: a,
            })
            &&& !(config.kernel is Tls) && !(config.kernel is Ring0) ==> (plan matches
                RunPlan::Passes { workload } && Workload::of(config.kernel, host) == Ok::<
                Workload,
                NoWorkload,
            >(workload))
        },
        plan matches RunPlan::Refused { report } ==> (report.error matches Some(e) && e@
            == refusal_text(config.mode)) && report.passes@.len() == 0 && report.total_cycles == 0,
        refusal_text(BenchMode::CpuIsa) == "NOT AVAILABLE on this CPU"@,
        refusal_text(BenchMode::CryptoRaw) == "NOT AVAILABLE on this CPU"@,
        refusal_text(BenchMode::KernelCrypto)
            == "NOT AVAILABLE: this kernel does not offer the algorithm through AF_ALG, or the socket family is unavailable here."@,
        refusal_text(BenchMode::KernelCryptoRing0)
            == "NOT AVAILABLE: the kernel module is not loaded, or it did not measure this algorithm. Build and insert kernel/linux/ with `make load`, or use --mode kernel for the ring-3 measurement."@,
{
}

// ---------------------------------------------------------------------------
// Counting
// ---------------------------------------------------------------------------
/// A total is the sum of its counts, and the greatest number where that does
/// not fit.
pub proof fn a_total_is_the_sum(counts: &[u64], total: u64, count: u64)
    requires
        call_ensures(total_cycles, (counts,), total),
    ensures
        sum(Seq::empty()) == 0,
        sum(counts@.push(count)) == sum(counts@) + count,
        sum(counts@) <= u64::MAX ==> total == sum(counts@),
        sum(counts@) > u64::MAX ==> total == u64::MAX,
{
    assert(counts@.push(count).drop_last() =~= counts@);
}

/// A pass whose every repeat left something has the units between its two
/// readings, and mixes what the repeats left; one with a failure has nothing.
pub proof fn a_pass_counts_its_window(
    pass: u32,
    repeats: u32,
    loops: usize,
    start: u64,
    end: u64,
    outcomes: &[Option<u64>],
    counts: Option<PassCounts>,
    i: int,
    word: u64,
)
    requires
        call_ensures(run_pass, (pass, repeats, loops, start, end, outcomes), counts),
        0 <= i < outcomes@.len(),
    ensures
        outcomes@[i] is None ==> counts is None,
        (forall|k: int| 0 <= k < outcomes@.len() ==> (#[trigger] outcomes@[k]) is Some) ==> (
        counts matches Some(c) && c.pass == pass && c.repeats == repeats && c.loops == loops
            && c.cycles == elapsed(start, end) && c.sink == kept_of_all(outcomes@)),
        kept_of_all(Seq::empty()) == 0,
        kept_of_all(outcomes@.push(Some(word))) == kept_of_all(outcomes@) ^ word,
{
    assert(outcomes@.push(Some(word)).drop_last() =~= outcomes@);
}

/// What the module measured is read as it is: its rounds, its payload, and the
/// cycles under the algorithm's name.
pub proof fn the_modules_word_is_taken(
    report: Option<Ring0>,
    a: KernelAlgorithm,
    pass: Result<Ring0Pass, String>,
)
    requires
        call_ensures(ring0_pass, (&report, a), pass),
    ensures
        pass is Ok <==> (report matches Some(r) && timed(r, a.kernel_name()) is Some),
        pass matches Ok(p) ==> (report matches Some(r) && timed(r, a.kernel_name()) == Some(
            p.cycles,
        ) && p.loops == r.rounds && p.bytes == r.payload_bytes),
{
}

proof fn lemma_best(pairs: Seq<(u64, u64)>)
    ensures
        best_of(pairs) > 0,
        forall|i: int|
            0 <= i < pairs.len() && elapsed((#[trigger] pairs[i]).0, pairs[i].1) > 0 ==> best_of(
                pairs,
            ) <= elapsed(pairs[i].0, pairs[i].1),
        best_of(pairs) == u64::MAX || exists|i: int|
            0 <= i < pairs.len() && elapsed((#[trigger] pairs[i]).0, pairs[i].1) == best_of(pairs),
    decreases pairs.len(),
{
    if pairs.len() > 0 {
        let shorter = pairs.drop_last();
        lemma_best(shorter);
        assert forall|i: int|
            0 <= i < pairs.len() && elapsed(
                (#[trigger] pairs[i]).0,
                pairs[i].1,
            ) > 0 implies best_of(pairs) <= elapsed(pairs[i].0, pairs[i].1) by {
            if i < shorter.len() {
                assert(shorter[i] == pairs[i]);
            }
        }
        let last = pairs.len() - 1;
        if best_of(pairs) == elapsed(pairs[last].0, pairs[last].1) {
        } else if best_of(pairs) != u64::MAX {
            let i = choose|i: int|
                0 <= i < shorter.len() && elapsed((#[trigger] shorter[i]).0, shorter[i].1)
                    == best_of(shorter);
            assert(pairs[i] == shorter[i]);
        }
    }
}

/// The cost of an operation from user space is the least that was timed and
/// that is not zero; none where there is none.
pub proof fn the_least_timed_operation_counts(
    pairs: &[(u64, u64)],
    cycles: Option<u64>,
    i: int,
)
    requires
        call_ensures(ring3_cycles_per_op, (pairs,), cycles),
        0 <= i < pairs@.len(),
    ensures
        0 < elapsed(pairs@[i].0, pairs@[i].1) < u64::MAX ==> (cycles matches Some(c) && 0 < c
            <= elapsed(pairs@[i].0, pairs@[i].1)),
        cycles matches Some(c) ==> exists|k: int|
            0 <= k < pairs@.len() && elapsed((#[trigger] pairs@[k]).0, pairs@[k].1) == c,
{
    lemma_best(pairs@);
}

/// The boundary's cost is told only where user space was slower than a kernel
/// that measured something.
pub proof fn the_boundary_is_told_where_it_costs(ring3: u64, ring0: u64, ratio: Seq<char>)
    ensures
        ring0 == 0 || ring3 <= ring0 ==> overhead_text(ring3, ring0, ratio).len() == 0,
        ring0 > 0 && ring3 > ring0 ==> overhead_text(ring3, ring0, ratio)
            == "\nAF_ALG overhead: ring 3 "@ + crate::text::decimal(ring3 as int)
            + " cyc/op vs ring 0 "@ + crate::text::decimal(ring0 as int) + " cyc/op = "@
            + crate::text::decimal(ring3 - ring0) + " cycles ("@ + ratio
            + "x) spent crossing the boundary\n"@,
{
}

/// Each flag is shown under its own name, as one or zero.
pub proof fn flags_are_shown_under_their_names(out: Seq<char>, f: CpuFeatures)
    ensures
        flag(true) == "1"@ && flag(false) == "0"@,
        flags_text(out, f, Machine::X86Wide) == out + "AES="@ + flag(f.aesni) + " SHA="@ + flag(
            f.shani,
        ) + " VAES="@ + flag(f.vaes) + " PCLMUL="@ + flag(f.pclmulqdq) + " AVX="@ + flag(f.avx)
            + " AVX2="@ + flag(f.avx2) + " AVX-VNNI="@ + flag(f.avx_vnni) + " AVX512F="@ + flag(
            f.avx512f,
        ),
        flags_text(out, f, Machine::X86) == flags_text(out, f, Machine::X86Wide),
        flags_text(out, f, Machine::Aarch64) == out + "AES="@ + flag(f.arm_aes) + " SHA2="@ + flag(
            f.arm_sha2,
        ) + " PMULL="@ + flag(f.pclmulqdq) + " NEON="@ + flag(f.neon) + " SVE="@ + flag(f.sve)
            + " SVE2="@ + flag(f.sve2) + " SME="@ + flag(f.sme),
        flags_text(out, f, Machine::Arm) == flags_text(out, f, Machine::Aarch64),
        flags_text(out, f, Machine::PowerPcWide) == out + "ALTIVEC="@ + flag(f.altivec) + " VSX="@
            + flag(f.vsx),
        flags_text(out, f, Machine::PowerPc) == flags_text(out, f, Machine::PowerPcWide),
        flags_text(out, f, Machine::RiscVWide) == out + "RVV="@ + flag(f.rvv),
        flags_text(out, f, Machine::RiscV) == flags_text(out, f, Machine::RiscVWide),
{
}

} // verus!
