//! What the command line decides and prints.
//!
//! Arguments are taken apart and measurements made elsewhere; figures with a
//! fraction come in as texts.
use crate::backend::Backend;
use crate::bench::{BenchHost, BenchKernel, BenchMode};
use crate::cpu::CpuFeatures;
use crate::machine::Target;
use crate::simd::same_ignoring_case;
use crate::text::{chars_of, cut_before, push_decimal, push_text, string_of};
use vstd::prelude::*;

verus! {

// ---------------------------------------------------------------------------
// Arguments
// ---------------------------------------------------------------------------

/// How much of a time is shown.
#[derive(Debug, Clone, Copy, PartialEq, Eq, Structural)]
pub enum DetailMode {
    Simple,
    Nano,
}

/// In which zone a time is shown.
#[derive(Debug, Clone, Copy, PartialEq, Eq, Structural)]
pub enum TimeZoneMode {
    Local,
    Utc,
    /// So many minutes from UTC.
    CustomOffset(i32),
}

/// The clock's arguments.
#[derive(Debug, Clone, PartialEq, Eq)]
pub struct ClockArgs {
    pub simple: bool,
    pub nano: bool,
    pub utc: bool,
    pub utc_offset: Option<i32>,
    pub ntp: Option<String>,
}

impl ClockArgs {
    /// Full detail, unless less was asked for.
    pub fn detail(&self) -> (detail: DetailMode)
        ensures
            detail == (if self.simple {
                DetailMode::Simple
            } else {
                DetailMode::Nano
            }),
    {
        if self.simple {
            DetailMode::Simple
        } else {
            DetailMode::Nano
        }
    }

    /// UTC before a fixed offset, and the local zone where neither was asked
    /// for.
    pub fn zone(&self) -> (zone: TimeZoneMode)
        ensures
            zone == (if self.utc {
                TimeZoneMode::Utc
            } else {
                match self.utc_offset {
                    Some(minutes) => TimeZoneMode::CustomOffset(minutes),
                    None => TimeZoneMode::Local,
                }
            }),
    {
        if self.utc {
            return TimeZoneMode::Utc;
        }
        match self.utc_offset {
            Some(minutes) => TimeZoneMode::CustomOffset(minutes),
            None => TimeZoneMode::Local,
        }
    }
}

/// How long a live clock waits between two samples, in milliseconds.
pub fn refresh_ms(detail: DetailMode) -> (ms: u64)
    ensures
        ms == (if detail is Nano {
            100int
        } else {
            250
        }),
{
    match detail {
        DetailMode::Nano => 100,
        DetailMode::Simple => 250,
    }
}

/// What a requested backend comes to.
#[derive(Debug, Clone, Copy, PartialEq, Eq, Structural)]
pub enum BackendRequest {
    /// None was requested.
    Detected,
    Use(Backend),
    /// The processor lacks it: warn, and take the detected one.
    Unsupported(Backend),
    /// There is no such backend: an error.
    Unknown,
}

/// Judges a requested backend.
pub fn request_backend(name: &Option<String>, f: &CpuFeatures, target: &Target) -> (request:
    BackendRequest)
    ensures
        request == (match name {
            None => BackendRequest::Detected,
            Some(name) => match crate::backend::named(crate::backend::plain_name(name@)) {
                Some(b) => if b.available(*f, *target) {
                    BackendRequest::Use(b)
                } else {
                    BackendRequest::Unsupported(b)
                },
                None => BackendRequest::Unknown,
            },
        }),
{
    match name {
        None => BackendRequest::Detected,
        Some(name) => match Backend::parse(name.as_str()) {
            Some(b) => if b.is_available(f, target) {
                BackendRequest::Use(b)
            } else {
                BackendRequest::Unsupported(b)
            },
            None => BackendRequest::Unknown,
        },
    }
}

/// Some backends' names, separated by commas.
pub open spec fn backend_names(list: Seq<Backend>) -> Seq<char>
    decreases list.len(),
{
    if list.len() == 0 {
        Seq::empty()
    } else if list.len() == 1 {
        list[0].label()
    } else {
        backend_names(list.drop_last()) + ", "@ + list.last().label()
    }
}

/// The error for a backend nobody knows.
pub fn unknown_backend(name: &str) -> (text: String)
    ensures
        text@ == "error: unknown backend '"@ + name@ + "'\n        known backends: "@
            + backend_names(Backend::every()) + "\n"@,
{
    let mut out: String = String::new();
    push_text(&mut out, "error: unknown backend '");
    push_text(&mut out, name);
    push_text(&mut out, "'\n        known backends: ");
    let ghost head = out@;
    assert(head =~= "error: unknown backend '"@ + name@ + "'\n        known backends: "@);
    let all: Vec<Backend> = Backend::all();
    let mut i: usize = 0;
    assert(all@.take(0) =~= Seq::empty());
    assert(out@ =~= head + Seq::<char>::empty());
    while i < all.len()
        invariant
            i <= all.len(),
            all@ == Backend::every(),
            out@ == head + backend_names(all@.take(i as int)),
        decreases all.len() - i,
    {
        let ghost before = backend_names(all@.take(i as int));
        assert(all@.take(i + 1).drop_last() =~= all@.take(i as int));
        assert(all@.take(i + 1).last() == all@[i as int]);
        if i > 0 {
            push_text(&mut out, ", ");
        }
        push_text(&mut out, all[i].name());
        assert(out@ =~= head + backend_names(all@.take(i + 1)));
        i = i + 1;
    }
    assert(all@.take(i as int) =~= all@);
    push_text(&mut out, "\n");
    out
}

/// The warning for a backend that cannot be run here.
pub fn unsupported_backend(b: Backend) -> (text: String)
    ensures
        text@ == "warning: backend '"@ + b.label()
            + "' is not supported on this CPU; using the detected best\n"@,
{
    let mut out: String = String::new();
    push_text(&mut out, "warning: backend '");
    push_text(&mut out, b.name());
    push_text(&mut out, "' is not supported on this CPU; using the detected best\n");
    assert(out@ =~= "warning: backend '"@ + b.label()
        + "' is not supported on this CPU; using the detected best\n"@);
    out
}

/// The warning for a processor the thread could not be pinned to.
pub fn pin_warning(cpu: u32) -> (text: String)
    ensures
        text@ == "warning: could not pin to CPU "@ + crate::text::decimal(cpu as int)
            + "; results will be noisier\n"@,
{
    let mut out: String = String::new();
    push_text(&mut out, "warning: could not pin to CPU ");
    push_decimal(&mut out, cpu as u64);
    push_text(&mut out, "; results will be noisier\n");
    assert(out@ =~= "warning: could not pin to CPU "@ + crate::text::decimal(cpu as int)
        + "; results will be noisier\n"@);
    out
}

// ---------------------------------------------------------------------------
// Choosing what to benchmark
// ---------------------------------------------------------------------------

/// Whether two texts are the same but for capitals.
pub open spec fn alike(a: Seq<char>, b: Seq<char>) -> bool {
    crate::text::lowered(a) == crate::text::lowered(b)
}

/// Whether a row answers to a name: its own, its algorithm's, or that of its
/// instructions with or without the register width.
pub open spec fn row_answers(row: BenchKernel, host: BenchHost, name: Seq<char>) -> bool {
    ||| alike(row.title(host), name)
    ||| (match row {
        BenchKernel::Kernel(a) => alike(a.kernel_name(), name),
        BenchKernel::Ring0(a) => alike(a.kernel_name(), name),
        BenchKernel::CryptoRaw(i) => alike(host.raw@[i as int].name@, name) || alike(
            crate::text::before_text(host.raw@[i as int].name@, " ("@),
            name,
        ),
        _ => false,
    })
}

fn answers(row: BenchKernel, host: &BenchHost, name: &str) -> (yes: bool)
    requires
        row.known(*host),
    ensures
        yes == row_answers(row, *host, name@),
{
    let title: String = row.name(host);
    if same_ignoring_case(title.as_str(), name) {
        return true;
    }
    match row {
        BenchKernel::Kernel(a) => same_ignoring_case(a.algorithm(), name),
        BenchKernel::Ring0(a) => same_ignoring_case(a.algorithm(), name),
        BenchKernel::CryptoRaw(i) => {
            if same_ignoring_case(host.raw[i].name.as_str(), name) {
                return true;
            }
            let chars: Vec<char> = chars_of(host.raw[i].name.as_str());
            proof {
                reveal_strlit(" (");
            }
            let short: String = string_of(cut_before(chars.as_slice(), " ("));
            same_ignoring_case(short.as_str(), name)
        },
        _ => false,
    }
}

/// The rows of a list that can be run.
pub open spec fn runnable(rows: Seq<BenchKernel>, host: BenchHost) -> Seq<BenchKernel> {
    rows.filter(|k: BenchKernel| k.available(host))
}

/// The first row of a list that answers to a name.
pub open spec fn first_row(rows: Seq<BenchKernel>, host: BenchHost, name: Seq<char>) -> Option<
    BenchKernel,
>
    decreases rows.len(),
{
    if rows.len() == 0 {
        None
    } else if row_answers(rows[0], host, name) {
        Some(rows[0])
    } else {
        first_row(rows.skip(1), host, name)
    }
}

/// Why nothing was chosen.
#[derive(Debug, Clone, Copy, PartialEq, Eq, Structural)]
pub enum SelectionError {
    /// No row of the mode answers to the name.
    UnknownKernel,
    /// None of the mode's rows can be run. That is no success.
    NothingToRun,
}

/// The rows a request comes to.
pub open spec fn selection(mode: BenchMode, host: BenchHost, name: Seq<char>) -> Result<
    Seq<BenchKernel>,
    SelectionError,
> {
    let rows = BenchKernel::rows(mode, host);
    if alike(name, "all"@) {
        let all = runnable(rows, host);
        if all.len() == 0 {
            Err(SelectionError::NothingToRun)
        } else {
            Ok(all)
        }
    } else {
        match first_row(rows, host, name) {
            Some(k) => Ok(seq![k]),
            None => Err(SelectionError::UnknownKernel),
        }
    }
}

fn keep_runnable(rows: &Vec<BenchKernel>, host: &BenchHost) -> (kept: Vec<BenchKernel>)
    requires
        forall|i: int| 0 <= i < rows@.len() ==> (#[trigger] rows@[i]).known(*host),
    ensures
        kept@ == runnable(rows@, *host),
{
    let ghost wanted = |k: BenchKernel| k.available(*host);
    let mut kept: Vec<BenchKernel> = Vec::new();
    let mut i: usize = 0;
    assert(rows@.take(0) =~= Seq::empty());
    proof {
        reveal(Seq::filter);
    }
    while i < rows.len()
        invariant
            i <= rows.len(),
            wanted == (|k: BenchKernel| k.available(*host)),
            forall|i: int| 0 <= i < rows@.len() ==> (#[trigger] rows@[i]).known(*host),
            kept@ == rows@.take(i as int).filter(wanted),
        decreases rows.len() - i,
    {
        proof {
            reveal(Seq::filter);
            assert(rows@.take(i + 1).drop_last() =~= rows@.take(i as int));
            assert(rows@.take(i + 1).last() == rows@[i as int]);
        }
        if rows[i].is_available(host) {
            kept.push(rows[i]);
        }
        i = i + 1;
    }
    assert(rows@.take(i as int) =~= rows@);
    kept
}

fn find_row(rows: &Vec<BenchKernel>, host: &BenchHost, name: &str) -> (row: Option<BenchKernel>)
    requires
        forall|i: int| 0 <= i < rows@.len() ==> (#[trigger] rows@[i]).known(*host),
    ensures
        row == first_row(rows@, *host, name@),
{
    let mut i: usize = 0;
    assert(rows@.skip(0) =~= rows@);
    while i < rows.len()
        invariant
            i <= rows.len(),
            forall|i: int| 0 <= i < rows@.len() ==> (#[trigger] rows@[i]).known(*host),
            first_row(rows@, *host, name@) == first_row(rows@.skip(i as int), *host, name@),
        decreases rows.len() - i,
    {
        assert(rows@.skip(i as int)[0] == rows@[i as int]);
        assert(rows@.skip(i as int).skip(1) =~= rows@.skip(i + 1));
        if answers(rows[i], host, name) {
            return Some(rows[i]);
        }
        i = i + 1;
    }
    None
}

/// Chooses what to benchmark: every row that can be run, or the one that was
/// named.
pub fn select_kernels(mode: BenchMode, host: &BenchHost, name: &str) -> (selected: Result<
    Vec<BenchKernel>,
    SelectionError,
>)
    ensures
        match selected {
            Ok(rows) => selection(mode, *host, name@) == Ok::<Seq<BenchKernel>, SelectionError>(
                rows@,
            ),
            Err(e) => selection(mode, *host, name@) == Err::<Seq<BenchKernel>, SelectionError>(e),
        },
{
    let rows: Vec<BenchKernel> = BenchKernel::rows_for(mode, host);
    proof {
        assert forall|i: int| 0 <= i < rows@.len() implies (#[trigger] rows@[i]).known(*host) by {
            crate::bench::rows_belong_to_their_mode(mode, *host, i);
        }
    }
    if same_ignoring_case(name, "all") {
        let kept: Vec<BenchKernel> = keep_runnable(&rows, host);
        if kept.len() == 0 {
            Err(SelectionError::NothingToRun)
        } else {
            Ok(kept)
        }
    } else {
        match find_row(&rows, host, name) {
            Some(k) => {
                let one: Vec<BenchKernel> = vec![k];
                assert(one@ =~= seq![k]);
                Ok(one)
            },
            None => Err(SelectionError::UnknownKernel),
        }
    }
}

/// Why nothing was chosen, in words.
pub open spec fn selection_error_text(e: SelectionError, mode: BenchMode, name: Seq<char>) -> Seq<
    char,
> {
    match e {
        SelectionError::UnknownKernel => "unknown kernel '"@ + name + "' for mode "@
            + mode.title(),
        SelectionError::NothingToRun => "no runnable kernels for mode "@ + mode.title() + ": "@ + (
        if mode is KernelCryptoRing0 {
            "the kernel module is not loaded. Build and insert it with `cd kernel/linux && make load`, or use `--mode kernel` for the ring-3 measurement, which needs nothing."@
        } else {
            "nothing this machine offers matches it."@
        }),
    }
}

/// Why nothing was chosen, in words.
pub fn selection_error(e: SelectionError, mode: BenchMode, name: &str) -> (text: String)
    ensures
        text@ == selection_error_text(e, mode, name@),
{
    let mut out: String = String::new();
    match e {
        SelectionError::UnknownKernel => {
            push_text(&mut out, "unknown kernel '");
            push_text(&mut out, name);
            push_text(&mut out, "' for mode ");
            push_text(&mut out, mode.name());
        },
        SelectionError::NothingToRun => {
            push_text(&mut out, "no runnable kernels for mode ");
            push_text(&mut out, mode.name());
            push_text(&mut out, ": ");
            push_text(
                &mut out,
                if matches!(mode, BenchMode::KernelCryptoRing0) {
                    "the kernel module is not loaded. Build and insert it with `cd kernel/linux && make load`, or use `--mode kernel` for the ring-3 measurement, which needs nothing."
                } else {
                    "nothing this machine offers matches it."
                },
            );
        },
    }
    assert(out@ =~= selection_error_text(e, mode, name@));
    out
}

proof fn lemma_filter_runs(rows: Seq<BenchKernel>, host: BenchHost, i: int)
    requires
        0 <= i < runnable(rows, host).len(),
    ensures
        runnable(rows, host)[i].available(host),
        rows.contains(runnable(rows, host)[i]),
{
    rows.lemma_filter_contains_rev(|k: BenchKernel| k.available(host), runnable(rows, host)[i]);
    rows.lemma_filter_pred(|k: BenchKernel| k.available(host), i);
}

/// Whatever is asked for, what is chosen belongs to the mode it was asked of,
/// and what `all` chooses can be run.
pub proof fn selections_stay_in_their_mode(
    mode: BenchMode,
    host: BenchHost,
    name: Seq<char>,
    i: int,
)
    requires
        selection(mode, host, name) matches Ok(rows) && 0 <= i < rows.len(),
    ensures
        selection(mode, host, name) matches Ok(rows) && rows[i].home() == mode && (alike(
            name,
            "all"@,
        ) ==> rows[i].available(host)),
{
    let rows = BenchKernel::rows(mode, host);
    if alike(name, "all"@) {
        lemma_filter_runs(rows, host, i);
        let k = choose|k: int| 0 <= k < rows.len() && rows[k] == runnable(rows, host)[i];
        crate::bench::rows_belong_to_their_mode(mode, host, k);
    } else {
        lemma_first_row(rows, host, name);
        let row = first_row(rows, host, name)->0;
        let k = choose|k: int| 0 <= k < rows.len() && rows[k] == row;
        crate::bench::rows_belong_to_their_mode(mode, host, k);
    }
}

proof fn lemma_first_row(rows: Seq<BenchKernel>, host: BenchHost, name: Seq<char>)
    ensures
        first_row(rows, host, name) matches Some(k) ==> rows.contains(k),
    decreases rows.len(),
{
    if rows.len() > 0 {
        let rest = rows.skip(1);
        lemma_first_row(rest, host, name);
        if row_answers(rows[0], host, name) {
            assert(rows[0] == rows[0]);
        } else if let Some(k) = first_row(rest, host, name) {
            let i = choose|i: int| 0 <= i < rest.len() && rest[i] == k;
            assert(rows[i + 1] == k);
        }
    }
}

} // verus!
