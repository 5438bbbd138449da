//! What the kernel module counted, out of its `key=value` report.
//!
//! The module is built apart from this crate. Of its format only the
//! `key=value` lines are settled here; that it spells its keys as they are
//! read below is taken on trust, and a module that spells one otherwise reads
//! as one that did not count.
use crate::cli_report::Ring0Counts;
use crate::text::{chars_of, lines, parse_unsigned, same, split_once, string_of, trim, Trim};
use vstd::prelude::*;

verus! {

/// The value of the first line with a key.
pub open spec fn value_of(lines: Seq<Seq<char>>, key: Seq<char>) -> Option<Seq<char>>
    decreases lines.len(),
{
    if lines.len() == 0 {
        None
    } else {
        match crate::text::parted(crate::text::trimmed(lines[0], Trim::Space), '=') {
            Some((k, value)) => if k == key {
                Some(value)
            } else {
                value_of(lines.skip(1), key)
            },
            None => value_of(lines.skip(1), key),
        }
    }
}

/// A count, or zero where there is none.
pub open spec fn count_of(value: Option<Seq<char>>) -> int {
    match value {
        Some(value) => match crate::text::unsigned_value(value, 10, u64::MAX as int) {
            Some(n) => n,
            None => 0,
        },
        None => 0,
    }
}

fn find_value<'a>(parts: &Vec<&'a [char]>, key: &str) -> (value: Option<&'a [char]>)
    ensures
        match value {
            Some(value) => value_of(crate::text::parts_view(parts@), key@) == Some(value@),
            None => value_of(crate::text::parts_view(parts@), key@) is None,
        },
{
    let ghost all = crate::text::parts_view(parts@);
    let mut i: usize = 0;
    assert(all.skip(0) =~= all);
    while i < parts.len()
        invariant
            i <= parts.len(),
            all == crate::text::parts_view(parts@),
            value_of(all, key@) == value_of(all.skip(i as int), key@),
        decreases parts.len() - i,
    {
        assert(all.skip(i as int)[0] == parts@[i as int]@);
        assert(all.skip(i as int).skip(1) =~= all.skip(i + 1));
        match split_once(trim(parts[i], Trim::Space), '=') {
            Some((k, value)) => {
                if same(k, key) {
                    return Some(value);
                }
            },
            None => {},
        }
        i = i + 1;
    }
    None
}

fn find_count(parts: &Vec<&[char]>, key: &str) -> (n: u64)
    ensures
        n == count_of(value_of(crate::text::parts_view(parts@), key@)),
{
    match find_value(parts, key) {
        Some(value) => match parse_unsigned(value, 10, u64::MAX) {
            Some(n) => n,
            None => 0,
        },
        None => 0,
    }
}

/// What a report's lines say was counted. A report that names no event is
/// that of a module that counts nothing. The spelling of these keys is the
/// module's own, and nothing in this crate can confirm it.
pub open spec fn counts(lines: Seq<Seq<char>>, c: Ring0Counts) -> bool {
    &&& value_of(lines, "perf_event"@) == Some(c.event@)
    &&& c.enabled == (value_of(lines, "perf_enabled"@) == Some("1"@))
    &&& c.npmu == count_of(value_of(lines, "perf_npmu"@))
    &&& c.raw == count_of(value_of(lines, "perf_raw"@))
    &&& c.enabled_ns == count_of(value_of(lines, "perf_enabled_ns"@))
    &&& c.running_ns == count_of(value_of(lines, "perf_running_ns"@))
    &&& c.scaled == count_of(value_of(lines, "perf_scaled"@))
}

/// Reads the counters out of the module's report, `None` where the module is
/// not loaded.
pub fn read_counts(text: &Option<String>) -> (read: Option<Ring0Counts>)
    ensures
        match read {
            Some(c) => *text matches Some(text) && counts(crate::text::text_lines(text@), c),
            None => *text matches Some(text) ==> value_of(
                crate::text::text_lines(text@),
                "perf_event"@,
            ) is None,
        },
{
    let text: &String = match text {
        Some(text) => text,
        None => return None,
    };
    let chars: Vec<char> = chars_of(text.as_str());
    let parts: Vec<&[char]> = lines(chars.as_slice());
    let event: String = match find_value(&parts, "perf_event") {
        Some(event) => string_of(event),
        None => return None,
    };
    let enabled = match find_value(&parts, "perf_enabled") {
        Some(value) => same(value, "1"),
        None => false,
    };
    Some(
        Ring0Counts {
            event,
            enabled,
            npmu: find_count(&parts, "perf_npmu"),
            raw: find_count(&parts, "perf_raw"),
            enabled_ns: find_count(&parts, "perf_enabled_ns"),
            running_ns: find_count(&parts, "perf_running_ns"),
            scaled: find_count(&parts, "perf_scaled"),
        },
    )
}

} // verus!
