//! What the kernel's own crypto says of itself, and how it is asked.
use crate::kcrypto::{
    after_read, after_write, alg_address, answers_to, available, check_digest, check_encrypt,
    chosen, described, first_report, iv_block, listed, marked_accelerated, reported, reported_by,
    timing_of, told, AlgAddress, Descriptors, DriverView, Kind, Listing, Progress, RequestError,
    Ring0View,
};
use crate::machine::Target;
use crate::cli_report::Ring0Counts;
use crate::ring0_perf::{counts, value_of};
use crate::text::{has_text, lowered, parted, parted_last, trimmed, trimmed_end, Trim};
use vstd::prelude::*;

verus! {

// ---------------------------------------------------------------------------
// The kernel's list
// ---------------------------------------------------------------------------
proof fn lemma_keys()
    ensures
        "driver"@.len() == 6,
        "type"@.len() == 4,
        "priority"@.len() == 8,
        "module"@.len() == 6,
        "internal"@.len() == 8,
        "selftest"@.len() == 8,
        "name"@.len() == 4,
        "driver"@[0] == 'd',
        "module"@[0] == 'm',
        "type"@[0] == 't',
        "name"@[0] == 'n',
        "priority"@[0] == 'p',
        "internal"@[0] == 'i',
        "selftest"@[0] == 's',
{
    reveal_strlit("driver");
    reveal_strlit("type");
    reveal_strlit("priority");
    reveal_strlit("module");
    reveal_strlit("internal");
    reveal_strlit("selftest");
    reveal_strlit("name");
}

/// Each key of a stanza says its own thing: the implementation, the type, the
/// priority as a signed number (zero where it is none), the module, whether it
/// is internal (`yes`) and whether its self-test passed (`passed`). Any other
/// key says nothing.
pub proof fn each_key_says_its_own_thing(d: DriverView, value: Seq<char>, key: Seq<char>)
    ensures
        told(d, "driver"@, value) == (DriverView { driver: value, ..d }),
        told(d, "type"@, value) == (DriverView { kind: value, ..d }),
        told(d, "module"@, value) == (DriverView { module: value, ..d }),
        told(d, "internal"@, value) == (DriverView { internal: value == "yes"@, ..d }),
        told(d, "selftest"@, value) == (DriverView { selftest_passed: value == "passed"@, ..d }),
        match crate::text::signed_value(value, -0x8000_0000, 0x7FFF_FFFF) {
            Some(n) => told(d, "priority"@, value) == (DriverView { priority: n as i32, ..d }),
            None => told(d, "priority"@, value) == (DriverView { priority: 0, ..d }),
        },
        key != "driver"@ && key != "type"@ && key != "priority"@ && key != "module"@ && key
            != "internal"@ && key != "selftest"@ ==> told(d, key, value) == d,
{
    lemma_keys();
    assert("module"@ != "driver"@);
    assert("internal"@ != "priority"@);
    assert("selftest"@ != "priority"@ && "selftest"@ != "internal"@);
}

/// A blank line ends a stanza, and a name begins one of which nothing else is
/// known; before the first name nothing is read, and a line with no colon is
/// passed over.
pub proof fn a_stanza_runs_from_its_name_to_a_blank_line(
    at: Listing,
    raw: Seq<char>,
    key: Seq<char>,
    value: Seq<char>,
)
    ensures
        ({
            let line = trimmed_end(raw, Trim::Space);
            let open = match at.current {
                Some(d) => at.done.push(d),
                None => at.done,
            };
            let next = at.after(raw);
            &&& line.len() == 0 ==> next.done == open && next.current is None
            &&& line.len() > 0 && parted(line, ':') is None ==> next == at
            &&& line.len() > 0 && parted(line, ':') == Some((key, value)) ==> {
                let k = trimmed(key, Trim::Space);
                let v = trimmed(value, Trim::Space);
                &&& k == "name"@ ==> next.done == open && (next.current matches Some(d) && d.name
                    == v && d.driver.len() == 0 && d.kind.len() == 0 && d.priority == 0
                    && d.module.len() == 0 && !d.internal && !d.selftest_passed)
                &&& k != "name"@ ==> next.done == at.done && match at.current {
                    Some(d) => next.current == Some(told(d, k, v)),
                    None => next.current is None,
                }
            }
        }),
{
}

/// A list is read line by line from its start, and its last stanza counts
/// though nothing ends it.
pub proof fn a_list_is_read_line_by_line(lines: Seq<Seq<char>>, line: Seq<char>, text: Seq<char>)
    ensures
        listed(Seq::empty()).done.len() == 0 && listed(Seq::empty()).current is None,
        listed(lines.push(line)) == listed(lines).after(line),
        match listed(crate::text::text_lines(text)).current {
            Some(d) => described(text) == listed(crate::text::text_lines(text)).done.push(d),
            None => described(text) == listed(crate::text::text_lines(text)).done,
        },
{
    assert(lines.push(line).drop_last() =~= lines);
}

/// The kernel takes the implementation of the highest priority that answers to
/// the name and is not internal; the last of several equals.
pub proof fn the_highest_priority_is_taken(drivers: Seq<DriverView>, name: Seq<char>, i: int, j: int)
    requires
        chosen(drivers, name, i),
        0 <= j < drivers.len(),
        drivers[j].name == name,
        !drivers[j].internal,
    ensures
        0 <= i < drivers.len() && drivers[i].name == name && !drivers[i].internal,
        drivers[j].priority <= drivers[i].priority,
        j > i ==> drivers[j].priority < drivers[i].priority,
{
    assert(answers_to(drivers[j], name));
}

/// A driver looks accelerated where its name, in small letters, holds one of
/// the marks, and not otherwise.
pub proof fn marks_are_looked_for_in_small_letters(driver: Seq<char>)
    ensures
        ({
            let s = lowered(driver);
            &&& has_text(s, "aesni"@) || has_text(s, "vaes"@) || has_text(s, "avx"@) || has_text(
                s,
                "sse"@,
            ) || has_text(s, "neon"@) ==> marked_accelerated(driver)
            &&& has_text(s, "ssse3"@) || has_text(s, "-ce"@) || has_text(s, "ce-"@) || has_text(
                s,
                "sha_ni"@,
            ) || has_text(s, "shani"@) ==> marked_accelerated(driver)
            &&& has_text(s, "asm"@) || has_text(s, "clmul"@) || has_text(s, "pclmul"@) || has_text(
                s,
                "armv8"@,
            ) || has_text(s, "vpmsum"@) || has_text(s, "s390"@) ==> marked_accelerated(driver)
            &&& marked_accelerated(driver) ==> has_text(s, "aesni"@) || has_text(s, "vaes"@)
                || has_text(s, "avx"@) || has_text(s, "sse"@) || has_text(s, "ssse3"@) || has_text(
                s,
                "neon"@,
            ) || has_text(s, "-ce"@) || has_text(s, "ce-"@) || has_text(s, "sha_ni"@) || has_text(
                s,
                "shani"@,
            ) || has_text(s, "asm"@) || has_text(s, "clmul"@) || has_text(s, "pclmul"@) || has_text(
                s,
                "armv8"@,
            ) || has_text(s, "vpmsum"@) || has_text(s, "s390"@)
        }),
{
}

// ---------------------------------------------------------------------------
// Asking over a socket
// ---------------------------------------------------------------------------
/// The two types are spelled in ASCII.
pub proof fn types_are_spelled_in_ascii()
    ensures
        crate::laws::spells(Kind::Hash.kind_name(), "hash"@),
        crate::laws::spells(Kind::Skcipher.kind_name(), "skcipher"@),
{
    reveal_strlit("hash");
    reveal_strlit("skcipher");
    assert forall|i: int| 0 <= i < 8 implies (#[trigger] Kind::Skcipher.kind_name()[i]) as int
        == "skcipher"@[i] as int by {
        if i == 0 || i == 1 || i == 2 || i == 3 {
        } else if i == 4 || i == 5 || i == 6 {
        } else {
            assert(i == 7);
        }
    }
    assert forall|i: int| 0 <= i < 4 implies (#[trigger] Kind::Hash.kind_name()[i]) as int
        == "hash"@[i] as int by {
        if i == 0 || i == 1 || i == 2 {
        } else {
            assert(i == 3);
        }
    }
}

/// An address holds the type in fourteen bytes and the name in 64, each filled
/// up with zeros; only Linux has one, and a name must leave room for its zero.
pub proof fn an_address_is_two_fields(
    target: Target,
    kind: Kind,
    algorithm: &[u8],
    address: Result<AlgAddress, RequestError>,
)
    requires
        call_ensures(alg_address, (&target, kind, algorithm), address),
    ensures
        !target.linux ==> address is Err && address->Err_0 is Unsupported,
        target.linux && algorithm@.len() > 63 ==> address is Err && address->Err_0 is InvalidInput,
        target.linux && algorithm@.len() <= 63 ==> (address matches Ok(a) && {
            &&& a.salg_type@.len() == 14 && a.salg_name@.len() == 64
            &&& a.salg_name@.take(algorithm@.len() as int) == algorithm@
            &&& forall|i: int| algorithm@.len() <= i < 64 ==> #[trigger] a.salg_name@[i] == 0
            &&& a.salg_type@.take(kind.kind_name().len() as int) == kind.kind_name()
            &&& forall|i: int| kind.kind_name().len() <= i < 14 ==> #[trigger] a.salg_type@[i] == 0
        }),
{
    if let Ok(a) = address {
        assert(a.salg_name@.take(algorithm@.len() as int) =~= algorithm@);
        assert(a.salg_type@.take(kind.kind_name().len() as int) =~= kind.kind_name());
    }
}

/// A vector is sent behind its length, four bytes in the machine's order; one
/// of more than sixteen bytes is refused.
pub proof fn a_vector_is_sent_behind_its_length(
    iv: &[u8],
    little_endian: bool,
    block: Result<Vec<u8>, RequestError>,
)
    requires
        call_ensures(iv_block, (iv, little_endian), block),
    ensures
        iv@.len() > 16 ==> block is Err && block->Err_0 is InvalidInput,
        iv@.len() <= 16 ==> (block matches Ok(b) && {
            &&& b@.len() == 4 + iv@.len()
            &&& b@.skip(4) == iv@
            &&& little_endian ==> b@[0] == iv@.len() && b@[1] == 0 && b@[2] == 0 && b@[3] == 0
            &&& !little_endian ==> b@[0] == 0 && b@[1] == 0 && b@[2] == 0 && b@[3] == iv@.len()
        }),
{
    if let Ok(b) = block {
        assert(b@.skip(4) =~= iv@);
    }
}

/// Only a hash session digests; only a cipher session encrypts, and only with
/// room for all of its data.
pub proof fn sessions_do_what_they_are_for(
    kind: Kind,
    data: usize,
    out: usize,
    digest: Result<(), RequestError>,
    encrypt: Result<(), RequestError>,
)
    requires
        call_ensures(check_digest, (kind,), digest),
        call_ensures(check_encrypt, (kind, data, out), encrypt),
    ensures
        digest is Ok <==> kind is Hash,
        encrypt is Ok <==> kind is Skcipher && out >= data,
        digest matches Err(e) ==> e is InvalidInput,
        encrypt matches Err(e) ==> e is InvalidInput,
{
}

/// A write goes on until all has gone, a read until all has come or nothing
/// more does; a negative count is a failure of either.
pub proof fn transfers_go_on_to_their_end(
    total: usize,
    from: usize,
    moved: i64,
    written: Progress,
    read: Progress,
)
    requires
        from < total,
        moved <= total - from,
        call_ensures(after_write, (total, from, moved), written),
        call_ensures(after_read, (total, from, moved), read),
    ensures
        moved < 0 ==> written is Failed && read is Failed,
        moved == 0 ==> written is Stalled && read == (Progress::Done { moved: from }),
        moved > 0 && from + moved < total ==> written == (Progress::Again {
            from: (from + moved) as usize,
        }) && read == written,
        moved > 0 && from + moved == total ==> written == (Progress::Done { moved: total }) && read
            == written,
{
}

/// A session closes what it opened, the operation before the algorithm, and
/// the kernel is there where a socket could be opened on Linux.
pub proof fn what_was_opened_is_closed(
    d: Descriptors,
    target: Target,
    socket: i32,
    there: bool,
)
    requires
        call_ensures(available, (&target, socket), there),
    ensures
        d.op >= 0 && d.bound >= 0 ==> d.owned() == seq![d.op, d.bound],
        d.op >= 0 && d.bound < 0 ==> d.owned() == seq![d.op],
        d.op < 0 && d.bound >= 0 ==> d.owned() == seq![d.bound],
        d.op < 0 && d.bound < 0 ==> d.owned().len() == 0,
        there <==> target.linux && socket >= 0,
{
    assert(d.op >= 0 && d.bound >= 0 ==> d.owned() =~= seq![d.op, d.bound]);
    assert(d.op >= 0 && d.bound < 0 ==> d.owned() =~= seq![d.op]);
    assert(d.op < 0 && d.bound >= 0 ==> d.owned() =~= seq![d.bound]);
}

/// The two refusals in words.
pub proof fn refused_requests_are_told_in_words()
    ensures
        RequestError::InvalidInput.text() == "invalid input parameter"@,
        RequestError::Unsupported.text()
            == "the kernel crypto API is reached through AF_ALG, which is Linux's"@,
{
}

// ---------------------------------------------------------------------------
// The kernel module's reports
// ---------------------------------------------------------------------------
/// A line of the module's report fills what its key names: the payload, the
/// rounds, or one more timing; a count that is none is zero, and a timing that
/// is none is passed over.
pub proof fn each_line_fills_what_it_names(
    r: Ring0View,
    raw: Seq<char>,
    key: Seq<char>,
    value: Seq<char>,
)
    requires
        parted(trimmed(raw, Trim::Space), '=') == Some((key, value)),
    ensures
        key == "crypto_payload_bytes"@ ==> reported(r, raw) == (Ring0View {
            payload_bytes: match crate::text::unsigned_value(value, 10, usize::MAX as int) {
                Some(n) => n,
                None => 0,
            },
            ..r
        }),
        key == "crypto_rounds"@ ==> reported(r, raw) == (Ring0View {
            rounds: match crate::text::unsigned_value(value, 10, usize::MAX as int) {
                Some(n) => n,
                None => 0,
            },
            ..r
        }),
        key == "crypto"@ ==> match timing_of(value) {
            Some(t) => reported(r, raw) == (Ring0View { timings: r.timings.push(t), ..r }),
            None => reported(r, raw) == r,
        },
        key != "crypto_payload_bytes"@ && key != "crypto_rounds"@ && key != "crypto"@ ==> reported(
            r,
            raw,
        ) == r,
{
    reveal_strlit("crypto_payload_bytes");
    reveal_strlit("crypto_rounds");
    reveal_strlit("crypto");
    assert("crypto_payload_bytes"@.len() == 20);
    assert("crypto_rounds"@.len() == 13);
    assert("crypto"@.len() == 6);
}

/// A timing is what stands before the last comma, and the count behind it.
pub proof fn a_timing_is_a_name_and_a_count(
    value: Seq<char>,
    name: Seq<char>,
    cycles: Seq<char>,
    n: int,
)
    requires
        parted_last(value, ',') == Some((name, cycles)),
        crate::text::unsigned_value(trimmed(cycles, Trim::Space), 10, u64::MAX as int) == Some(n),
    ensures
        timing_of(value) == Some((name, n as u64)),
{
}

/// A report is read line by line from nothing, a line with no mark passed
/// over.
pub proof fn a_report_is_read_line_by_line(lines: Seq<Seq<char>>, line: Seq<char>)
    ensures
        reported_by(Seq::empty()).timings.len() == 0,
        reported_by(Seq::empty()).payload_bytes == 0 && reported_by(Seq::empty()).rounds == 0,
        reported_by(lines.push(line)) == reported(reported_by(lines), line),
        parted(trimmed(line, Trim::Space), '=') is None ==> reported_by(lines.push(line))
            == reported_by(lines),
{
    assert(lines.push(line).drop_last() =~= lines);
}

/// The first report with a timing counts.
pub proof fn the_first_report_with_a_timing_counts(texts: Seq<Option<String>>, i: int, text: String)
    requires
        0 <= i < texts.len(),
        texts[i] == Some(text),
        reported_by(crate::text::text_lines(text@)).timings.len() > 0,
        forall|j: int|
            0 <= j < i ==> (#[trigger] texts[j] matches Some(t) ==> reported_by(
                crate::text::text_lines(t@),
            ).timings.len() == 0),
    ensures
        first_report(texts) == Some(reported_by(crate::text::text_lines(text@))),
    decreases texts.len(),
{
    if i > 0 {
        let rest = texts.skip(1);
        assert(texts[0] matches Some(t) ==> reported_by(
            crate::text::text_lines(t@),
        ).timings.len() == 0);
        assert forall|j: int| 0 <= j < i - 1 implies (#[trigger] rest[j] matches Some(t)
            ==> reported_by(crate::text::text_lines(t@)).timings.len() == 0) by {
            assert(rest[j] == texts[j + 1]);
        }
        the_first_report_with_a_timing_counts(rest, i - 1, text);
    }
}

/// A key's value stands on the first line that has it, behind the mark.
pub proof fn a_value_stands_behind_its_key(
    lines: Seq<Seq<char>>,
    key: Seq<char>,
    value: Seq<char>,
    i: int,
)
    requires
        0 <= i < lines.len(),
        parted(trimmed(lines[i], Trim::Space), '=') == Some((key, value)),
        forall|j: int|
            0 <= j < i ==> (parted(#[trigger] trimmed(lines[j], Trim::Space), '=') matches Some((k, v))
                ==> k != key),
    ensures
        value_of(lines, key) == Some(value),
    decreases lines.len(),
{
    if i > 0 {
        assert(parted(trimmed(lines[0], Trim::Space), '=') matches Some((k, v)) ==> k != key);
        let rest = lines.skip(1);
        assert forall|j: int| 0 <= j < i - 1 implies (parted(
            #[trigger] trimmed(rest[j], Trim::Space),
            '=',
        ) matches Some((k, v)) ==> k != key) by {
            assert(rest[j] == lines[j + 1]);
            assert(parted(trimmed(lines[j + 1], Trim::Space), '=') matches Some((k, v)) ==> k
                != key);
        }
        a_value_stands_behind_its_key(rest, key, value, i - 1);
    }
}

/// The counters are read each under its own key; counting is on where its key
/// says `1`.
pub proof fn counters_are_read_under_their_keys(lines: Seq<Seq<char>>, c: Ring0Counts, n: int)
    requires
        counts(lines, c),
    ensures
        value_of(lines, "perf_event"@) == Some(c.event@),
        c.enabled <==> value_of(lines, "perf_enabled"@) == Some("1"@),
        (value_of(lines, "perf_npmu"@) matches Some(v) && crate::text::unsigned_value(
            v,
            10,
            u64::MAX as int,
        ) == Some(n)) ==> c.npmu == n,
        (value_of(lines, "perf_raw"@) matches Some(v) && crate::text::unsigned_value(
            v,
            10,
            u64::MAX as int,
        ) == Some(n)) ==> c.raw == n,
        (value_of(lines, "perf_enabled_ns"@) matches Some(v) && crate::text::unsigned_value(
            v,
            10,
            u64::MAX as int,
        ) == Some(n)) ==> c.enabled_ns == n,
        (value_of(lines, "perf_running_ns"@) matches Some(v) && crate::text::unsigned_value(
            v,
            10,
            u64::MAX as int,
        ) == Some(n)) ==> c.running_ns == n,
        (value_of(lines, "perf_scaled"@) matches Some(v) && crate::text::unsigned_value(
            v,
            10,
            u64::MAX as int,
        ) == Some(n)) ==> c.scaled == n,
        value_of(lines, "perf_raw"@) is None ==> c.raw == 0,
        value_of(lines, "perf_scaled"@) is None ==> c.scaled == 0,
{
}

} // verus!
