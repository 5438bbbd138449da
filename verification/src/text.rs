//! Text as sequences of characters: trimming, splitting, matching, reading
//! numbers and writing them.
//!
//! Every function says what it does over `Seq<char>`, the view of `&str` and
//! `String`. Text is taken apart as `&[char]`, so that a position is a
//! character and every part of a text is a slice of it.
use vstd::prelude::*;
use vstd::slice::slice_subrange;
use vstd::string::*;

verus! {

/// `String::push` appends the character to the end of the text.
pub assume_specification[ String::push ](text: &mut String, c: char)
    ensures
        final(text)@ == old(text)@.push(c),
;

/// The characters of a text.
pub fn chars_of(text: &str) -> (chars: Vec<char>)
    ensures
        chars@ == text@,
{
    let mut chars: Vec<char> = Vec::new();
    for c in it: text.chars()
        invariant
            chars@ == it.seq().take(it.index() as int),
            it.seq() == text@,
    {
        chars.push(c);
        assert(it.seq().take(it.index() + 1) =~= it.seq().take(it.index() as int).push(c));
    }
    assert(chars@ =~= text@);
    chars
}

/// The text that these characters spell.
pub fn string_of(chars: &[char]) -> (text: String)
    ensures
        text@ == chars@,
{
    let mut text: String = String::new();
    let mut i: usize = 0;
    while i < chars.len()
        invariant
            i <= chars.len(),
            text@ == chars@.take(i as int),
        decreases chars.len() - i,
    {
        text.push(chars[i]);
        i = i + 1;
        assert(chars@.take(i as int) =~= chars@.take(i - 1).push(chars@[i - 1]));
    }
    assert(text@ =~= chars@);
    text
}

/// Whether these characters spell exactly `text`.
pub fn same(chars: &[char], text: &str) -> (equal: bool)
    ensures
        equal == (chars@ == text@),
{
    let other: Vec<char> = chars_of(text);
    if chars.len() != other.len() {
        return false;
    }
    let mut i: usize = 0;
    while i < chars.len()
        invariant
            i <= chars.len(),
            chars.len() == other.len(),
            other@ == text@,
            forall|k: int| 0 <= k < i ==> chars@[k] == other@[k],
        decreases chars.len() - i,
    {
        if chars[i] != other[i] {
            return false;
        }
        i = i + 1;
    }
    assert(chars@ =~= text@);
    true
}

/// Whether two texts are the same.
pub fn same_text(a: &str, b: &str) -> (equal: bool)
    ensures
        equal == (a@ == b@),
{
    same(chars_of(a).as_slice(), b)
}

// ---------------------------------------------------------------------------
// Trimming
// ---------------------------------------------------------------------------

/// Whether a character has the Unicode `White_Space` property.
pub open spec fn is_space(c: char) -> bool {
    ||| '\u{9}' <= c <= '\u{d}'
    ||| c == ' '
    ||| c == '\u{85}'
    ||| c == '\u{a0}'
    ||| c == '\u{1680}'
    ||| '\u{2000}' <= c <= '\u{200a}'
    ||| c == '\u{2028}'
    ||| c == '\u{2029}'
    ||| c == '\u{202f}'
    ||| c == '\u{205f}'
    ||| c == '\u{3000}'
}

/// Tests for white space.
pub fn space(c: char) -> (space: bool)
    ensures
        space == is_space(c),
{
    ('\u{9}' <= c && c <= '\u{d}') || c == ' ' || c == '\u{85}' || c == '\u{a0}' || c == '\u{1680}'
        || ('\u{2000}' <= c && c <= '\u{200a}') || c == '\u{2028}' || c == '\u{2029}' || c
        == '\u{202f}' || c == '\u{205f}' || c == '\u{3000}'
}

/// Which characters a trim takes off.
#[derive(Debug, Clone, Copy, PartialEq, Eq, Structural)]
pub enum Trim {
    /// White space.
    Space,
    /// White space and NUL, which device-tree and sysfs strings end in.
    SpaceOrNul,
    /// NUL alone.
    Nul,
}

impl Trim {
    /// Whether this trim takes `c` off.
    pub open spec fn takes(self, c: char) -> bool {
        match self {
            Trim::Space => is_space(c),
            Trim::SpaceOrNul => is_space(c) || c == '\0',
            Trim::Nul => c == '\0',
        }
    }

    fn takes_off(self, c: char) -> (takes: bool)
        ensures
            takes == self.takes(c),
    {
        match self {
            Trim::Space => space(c),
            Trim::SpaceOrNul => space(c) || c == '\0',
            Trim::Nul => c == '\0',
        }
    }
}

/// `s` without the characters at its start that the trim takes off.
pub open spec fn trimmed_start(s: Seq<char>, trim: Trim) -> Seq<char>
    decreases s.len(),
{
    if s.len() > 0 && trim.takes(s[0]) {
        trimmed_start(s.skip(1), trim)
    } else {
        s
    }
}

/// `s` without the characters at its end that the trim takes off.
pub open spec fn trimmed_end(s: Seq<char>, trim: Trim) -> Seq<char>
    decreases s.len(),
{
    if s.len() > 0 && trim.takes(s.last()) {
        trimmed_end(s.drop_last(), trim)
    } else {
        s
    }
}

/// `s` without the characters at both ends that the trim takes off.
pub open spec fn trimmed(s: Seq<char>, trim: Trim) -> Seq<char> {
    trimmed_end(trimmed_start(s, trim), trim)
}

/// Takes characters off the start.
pub fn trim_start(s: &[char], trim: Trim) -> (rest: &[char])
    ensures
        rest@ == trimmed_start(s@, trim),
{
    let mut from: usize = 0;
    assert(s@.skip(0) =~= s@);
    while from < s.len() && trim.takes_off(s[from])
        invariant
            from <= s.len(),
            trimmed_start(s@.skip(from as int), trim) == trimmed_start(s@, trim),
        decreases s.len() - from,
    {
        assert(s@.skip(from as int).skip(1) =~= s@.skip(from + 1));
        from = from + 1;
    }
    let rest = slice_subrange(s, from, s.len());
    assert(rest@ =~= s@.skip(from as int));
    rest
}

/// Takes characters off the end.
pub fn trim_end(s: &[char], trim: Trim) -> (rest: &[char])
    ensures
        rest@ == trimmed_end(s@, trim),
{
    let mut to: usize = s.len();
    assert(s@.take(s.len() as int) =~= s@);
    while to > 0 && trim.takes_off(s[to - 1])
        invariant
            to <= s.len(),
            trimmed_end(s@.take(to as int), trim) == trimmed_end(s@, trim),
        decreases to,
    {
        assert(s@.take(to as int).drop_last() =~= s@.take(to - 1));
        to = to - 1;
    }
    let rest = slice_subrange(s, 0, to);
    assert(rest@ =~= s@.take(to as int));
    rest
}

/// Takes characters off both ends.
pub fn trim(s: &[char], which: Trim) -> (rest: &[char])
    ensures
        rest@ == trimmed(s@, which),
{
    trim_end(trim_start(s, which), which)
}

// ---------------------------------------------------------------------------
// Splitting
// ---------------------------------------------------------------------------

/// Where `c` first stands in `s`, or the length of `s` if it does not.
pub open spec fn position(s: Seq<char>, c: char) -> int
    decreases s.len(),
{
    if s.len() == 0 {
        0
    } else if s[0] == c {
        0
    } else {
        1 + position(s.skip(1), c)
    }
}

proof fn lemma_position(s: Seq<char>, c: char)
    ensures
        0 <= position(s, c) <= s.len(),
        position(s, c) < s.len() ==> s[position(s, c)] == c,
        forall|i: int| 0 <= i < position(s, c) ==> s[i] != c,
    decreases s.len(),
{
    if s.len() > 0 && s[0] != c {
        let rest = s.skip(1);
        lemma_position(rest, c);
        assert forall|i: int| 0 <= i < position(s, c) implies s[i] != c by {
            if i > 0 {
                assert(s[i] == rest[i - 1]);
            }
        }
    }
}

/// Finds a character.
pub fn find(s: &[char], c: char) -> (at: usize)
    ensures
        at == position(s@, c),
        at <= s.len(),
        at < s.len() ==> s@[at as int] == c,
{
    let mut at: usize = 0;
    assert(s@.skip(0) =~= s@);
    while at < s.len() && s[at] != c
        invariant
            at <= s.len(),
            position(s@, c) == at + position(s@.skip(at as int), c),
        decreases s.len() - at,
    {
        assert(s@.skip(at as int).skip(1) =~= s@.skip(at + 1));
        at = at + 1;
    }
    proof {
        lemma_position(s@, c);
        if at == s.len() {
            assert(s@.skip(at as int).len() == 0);
        }
    }
    at
}

/// The parts of `s` before and after the first `c`.
pub open spec fn parted(s: Seq<char>, c: char) -> Option<(Seq<char>, Seq<char>)> {
    let at = position(s, c);
    if at < s.len() {
        Some((s.take(at), s.skip(at + 1)))
    } else {
        None
    }
}

/// Splits at the first `c`.
pub fn split_once(s: &[char], c: char) -> (parts: Option<(&[char], &[char])>)
    ensures
        match parts {
            Some((before, after)) => parted(s@, c) == Some((before@, after@)),
            None => parted(s@, c) is None,
        },
{
    let at: usize = find(s, c);
    if at == s.len() {
        return None;
    }
    let before = slice_subrange(s, 0, at);
    let after = slice_subrange(s, at + 1, s.len());
    assert(before@ =~= s@.take(at as int));
    assert(after@ =~= s@.skip(at + 1));
    Some((before, after))
}

/// Where `c` last stands in `s`, or -1 if it does not.
pub open spec fn last_position(s: Seq<char>, c: char) -> int
    decreases s.len(),
{
    if s.len() == 0 {
        -1
    } else if s.last() == c {
        s.len() - 1
    } else {
        last_position(s.drop_last(), c)
    }
}

/// The parts of `s` before and after the last `c`.
pub open spec fn parted_last(s: Seq<char>, c: char) -> Option<(Seq<char>, Seq<char>)> {
    let at = last_position(s, c);
    if at >= 0 {
        Some((s.take(at), s.skip(at + 1)))
    } else {
        None
    }
}

/// Splits at the last `c`.
pub fn split_last(s: &[char], c: char) -> (parts: Option<(&[char], &[char])>)
    ensures
        match parts {
            Some((before, after)) => parted_last(s@, c) == Some((before@, after@)),
            None => parted_last(s@, c) is None,
        },
{
    let mut n: usize = s.len();
    assert(s@.take(n as int) =~= s@);
    while n > 0
        invariant
            n <= s.len(),
            last_position(s@, c) == last_position(s@.take(n as int), c),
        decreases n,
    {
        assert(s@.take(n as int).drop_last() =~= s@.take(n - 1));
        if s[n - 1] == c {
            let before = slice_subrange(s, 0, n - 1);
            let after = slice_subrange(s, n, s.len());
            assert(before@ =~= s@.take(n - 1));
            assert(after@ =~= s@.skip(n as int));
            return Some((before, after));
        }
        n = n - 1;
    }
    None
}

/// `line` without the carriage return that ends it.
pub open spec fn without_return(line: Seq<char>) -> Seq<char> {
    if line.len() > 0 && line.last() == '\r' {
        line.drop_last()
    } else {
        line
    }
}

/// The lines of a text: what stands before each line feed, without the
/// carriage return before it, and what stands after the last one if anything
/// does.
pub open spec fn text_lines(s: Seq<char>) -> Seq<Seq<char>>
    decreases s.len(),
    via text_lines_decreases
{
    if s.len() == 0 {
        Seq::empty()
    } else {
        let at = position(s, '\n');
        if at < s.len() {
            seq![without_return(s.take(at))] + text_lines(s.skip(at + 1))
        } else {
            seq![s]
        }
    }
}

#[via_fn]
proof fn text_lines_decreases(s: Seq<char>) {
    lemma_position(s, '\n');
}

/// What a list of text parts spells.
pub open spec fn parts_view(parts: Seq<&[char]>) -> Seq<Seq<char>> {
    parts.map_values(|part: &[char]| part@)
}

/// Splits a text into its lines.
pub fn lines(s: &[char]) -> (out: Vec<&[char]>)
    ensures
        parts_view(out@) == text_lines(s@),
{
    let mut out: Vec<&[char]> = Vec::new();
    let mut from: usize = 0;
    assert(s@.skip(0) =~= s@);
    assert(parts_view(out@) + text_lines(s@) =~= text_lines(s@));
    while from < s.len()
        invariant
            from <= s.len(),
            parts_view(out@) + text_lines(s@.skip(from as int)) == text_lines(s@),
        decreases s.len() - from,
    {
        let rest = slice_subrange(s, from, s.len());
        assert(rest@ =~= s@.skip(from as int));
        let at: usize = find(rest, '\n');
        let ghost before = out@;
        if at == rest.len() {
            out.push(rest);
            proof {
                assert(parts_view(out@) =~= parts_view(before).push(rest@));
                assert(s@.skip(s.len() as int).len() == 0);
                assert(parts_view(out@) + text_lines(s@.skip(s.len() as int)) =~= parts_view(before)
                    + seq![rest@]);
            }
            from = s.len();
        } else {
            let mut line = slice_subrange(rest, 0, at);
            assert(line@ =~= rest@.take(at as int));
            if line.len() > 0 && line[line.len() - 1] == '\r' {
                let ghost whole = line@;
                line = slice_subrange(line, 0, line.len() - 1);
                assert(line@ =~= whole.drop_last());
            }
            assert(line@ == without_return(rest@.take(at as int)));
            out.push(line);
            proof {
                assert(parts_view(out@) =~= parts_view(before).push(line@));
                assert(rest@.skip(at + 1) =~= s@.skip(from + at + 1));
                assert(parts_view(out@) + text_lines(rest@.skip(at + 1)) =~= parts_view(before) + (
                seq![line@] + text_lines(rest@.skip(at + 1))));
            }
            from = from + at + 1;
        }
    }
    assert(s@.skip(from as int).len() == 0);
    assert(parts_view(out@) + text_lines(s@.skip(from as int)) =~= parts_view(out@));
    out
}

/// How many characters at the start of `s` are not white space.
pub open spec fn word_length(s: Seq<char>) -> int
    decreases s.len(),
{
    if s.len() == 0 || is_space(s[0]) {
        0
    } else {
        1 + word_length(s.skip(1))
    }
}

proof fn lemma_word_length(s: Seq<char>)
    ensures
        0 <= word_length(s) <= s.len(),
    decreases s.len(),
{
    if s.len() > 0 && !is_space(s[0]) {
        lemma_word_length(s.skip(1));
    }
}

proof fn lemma_trimmed_start_shorter(s: Seq<char>, trim: Trim)
    ensures
        trimmed_start(s, trim).len() <= s.len(),
        trimmed_start(s, trim).len() > 0 ==> !trim.takes(trimmed_start(s, trim)[0]),
    decreases s.len(),
{
    if s.len() > 0 && trim.takes(s[0]) {
        lemma_trimmed_start_shorter(s.skip(1), trim);
    }
}

/// The words of a text: its longest parts without white space.
pub open spec fn words(s: Seq<char>) -> Seq<Seq<char>>
    decreases s.len(),
    via words_decreases
{
    let rest = trimmed_start(s, Trim::Space);
    if rest.len() == 0 {
        Seq::empty()
    } else {
        let n = word_length(rest);
        seq![rest.take(n)] + words(rest.skip(n))
    }
}

#[via_fn]
proof fn words_decreases(s: Seq<char>) {
    let rest = trimmed_start(s, Trim::Space);
    lemma_trimmed_start_shorter(s, Trim::Space);
    lemma_word_length(rest);
    if rest.len() > 0 {
        lemma_word_length(rest.skip(1));
        assert(word_length(rest) > 0);
    }
}

/// Splits a text into its words.
pub fn split_words(s: &[char]) -> (out: Vec<&[char]>)
    ensures
        parts_view(out@) == words(s@),
{
    let mut out: Vec<&[char]> = Vec::new();
    let mut rest: &[char] = trim_start(s, Trim::Space);
    assert(parts_view(out@) + words(s@) =~= words(s@));
    proof {
        lemma_trimmed_start_shorter(s@, Trim::Space);
        lemma_words_of_trimmed(s@);
    }
    while rest.len() > 0
        invariant
            rest.len() > 0 ==> !is_space(rest@[0]),
            trimmed_start(rest@, Trim::Space) == rest@,
            parts_view(out@) + words(rest@) == words(s@),
        decreases rest.len(),
    {
        let mut n: usize = 0;
        assert(rest@.skip(0) =~= rest@);
        while n < rest.len() && !space(rest[n])
            invariant
                n <= rest.len(),
                word_length(rest@) == n + word_length(rest@.skip(n as int)),
            decreases rest.len() - n,
        {
            assert(rest@.skip(n as int).skip(1) =~= rest@.skip(n + 1));
            n = n + 1;
        }
        assert(word_length(rest@) == n);
        let word = slice_subrange(rest, 0, n);
        let after = slice_subrange(rest, n, rest.len());
        let ghost before = out@;
        out.push(word);
        proof {
            assert(word@ =~= rest@.take(n as int));
            assert(after@ =~= rest@.skip(n as int));
            assert(parts_view(out@) =~= parts_view(before).push(word@));
            assert(parts_view(out@) + words(after@) =~= parts_view(before) + (seq![word@] + words(
                after@,
            )));
            lemma_word_length(rest@.skip(1));
            lemma_trimmed_start_shorter(after@, Trim::Space);
            lemma_words_of_trimmed(after@);
        }
        rest = trim_start(after, Trim::Space);
    }
    assert(parts_view(out@) + words(rest@) =~= parts_view(out@));
    out
}

proof fn lemma_words_of_trimmed(s: Seq<char>)
    ensures
        words(trimmed_start(s, Trim::Space)) == words(s),
        trimmed_start(trimmed_start(s, Trim::Space), Trim::Space) == trimmed_start(s, Trim::Space),
{
    lemma_trimmed_start_shorter(s, Trim::Space);
}

// ---------------------------------------------------------------------------
// Matching
// ---------------------------------------------------------------------------

/// An ASCII capital as its small letter; any other character as it is.
pub open spec fn lower_char(c: char) -> char {
    if 'A' <= c <= 'Z' {
        (c as u32 + 32) as char
    } else {
        c
    }
}

/// A text with its ASCII capitals made small.
pub open spec fn lowered(s: Seq<char>) -> Seq<char> {
    s.map_values(|c: char| lower_char(c))
}

/// Makes one ASCII capital small.
pub fn lower(c: char) -> (small: char)
    ensures
        small == lower_char(c),
{
    if 'A' <= c && c <= 'Z' {
        ((c as u8) + 32u8) as char
    } else {
        c
    }
}

/// Makes the ASCII capitals of a text small.
pub fn to_lower(s: &[char]) -> (out: Vec<char>)
    ensures
        out@ == lowered(s@),
{
    let mut out: Vec<char> = Vec::new();
    let mut i: usize = 0;
    while i < s.len()
        invariant
            i <= s.len(),
            out@ == lowered(s@.take(i as int)),
        decreases s.len() - i,
    {
        out.push(lower(s[i]));
        i = i + 1;
        assert(out@ =~= lowered(s@.take(i as int)));
    }
    assert(s@.take(i as int) =~= s@);
    out
}

/// The ASCII capital of a small letter.
pub open spec fn upper_char(c: char) -> char {
    if 'a' <= c <= 'z' {
        (c as u32 - 32) as char
    } else {
        c
    }
}

/// A text with its small ASCII letters made capitals.
pub open spec fn raised(s: Seq<char>) -> Seq<char> {
    s.map_values(|c: char| upper_char(c))
}

fn upper(c: char) -> (capital: char)
    ensures
        capital == upper_char(c),
{
    if 'a' <= c && c <= 'z' {
        (c as u8 - 32) as char
    } else {
        c
    }
}

/// Appends a text with its small ASCII letters made capitals.
pub fn push_raised(out: &mut String, s: &str)
    ensures
        final(out)@ == old(out)@ + raised(s@),
{
    let chars: Vec<char> = chars_of(s);
    let ghost start = out@;
    let mut i: usize = 0;
    assert(out@ =~= start + raised(chars@.take(0)));
    while i < chars.len()
        invariant
            i <= chars.len(),
            chars@ == s@,
            out@ == start + raised(chars@.take(i as int)),
        decreases chars.len() - i,
    {
        out.push(upper(chars[i]));
        i = i + 1;
        assert(out@ =~= start + raised(chars@.take(i as int)));
    }
    assert(chars@.take(i as int) =~= chars@);
}

/// Whether `needle` stands at position `at` of `s`.
pub open spec fn stands_at(s: Seq<char>, needle: Seq<char>, at: int) -> bool {
    0 <= at && at + needle.len() <= s.len() && s.subrange(at, at + needle.len()) == needle
}

/// Whether `needle` stands anywhere in `s`.
pub open spec fn has_text(s: Seq<char>, needle: Seq<char>) -> bool {
    exists|at: int| stands_at(s, needle, at)
}

/// Whether `s` begins with `prefix`.
pub open spec fn begins_with(s: Seq<char>, prefix: Seq<char>) -> bool {
    stands_at(s, prefix, 0)
}

fn matches_at(s: &[char], needle: &[char], at: usize) -> (found: bool)
    requires
        at <= s.len(),
    ensures
        found == stands_at(s@, needle@, at as int),
{
    if s.len() - at < needle.len() {
        return false;
    }
    let mut k: usize = 0;
    while k < needle.len()
        invariant
            k <= needle.len(),
            at + needle.len() <= s.len(),
            forall|j: int| 0 <= j < k ==> s@[at + j] == needle@[j],
        decreases needle.len() - k,
    {
        if s[at + k] != needle[k] {
            proof {
                assert(s@.subrange(at as int, at + needle.len())[k as int] != needle@[k as int]);
            }
            return false;
        }
        k = k + 1;
    }
    assert(s@.subrange(at as int, at + needle.len()) =~= needle@);
    true
}

/// Looks for a text anywhere in another.
pub fn contains(s: &[char], needle: &str) -> (found: bool)
    ensures
        found == has_text(s@, needle@),
{
    let pattern: Vec<char> = chars_of(needle);
    let mut at: usize = 0;
    while at < s.len()
        invariant
            at <= s.len(),
            pattern@ == needle@,
            forall|k: int| 0 <= k < at ==> !stands_at(s@, needle@, k),
        decreases s.len() - at,
    {
        if matches_at(s, pattern.as_slice(), at) {
            return true;
        }
        at = at + 1;
    }
    matches_at(s, pattern.as_slice(), at)
}

/// Where `needle` first stands in `s` from `from` on, or the length of `s`.
pub open spec fn first_at(s: Seq<char>, needle: Seq<char>, from: int) -> int
    decreases s.len() - from,
{
    if from >= s.len() {
        s.len() as int
    } else if stands_at(s, needle, from) {
        from
    } else {
        first_at(s, needle, from + 1)
    }
}

/// The part of `s` before the first `needle`, or all of it.
pub open spec fn before_text(s: Seq<char>, needle: Seq<char>) -> Seq<char> {
    s.take(first_at(s, needle, 0))
}

/// Cuts a text off before the first occurrence of another.
pub fn cut_before<'a>(s: &'a [char], needle: &str) -> (part: &'a [char])
    requires
        needle@.len() > 0,
    ensures
        part@ == before_text(s@, needle@),
{
    let pattern: Vec<char> = chars_of(needle);
    let mut at: usize = 0;
    while at < s.len() && !matches_at(s, pattern.as_slice(), at)
        invariant
            at <= s.len(),
            pattern@ == needle@,
            first_at(s@, needle@, 0) == first_at(s@, needle@, at as int),
        decreases s.len() - at,
    {
        at = at + 1;
    }
    let part = slice_subrange(s, 0, at);
    assert(part@ =~= s@.take(at as int));
    part
}

/// Looks for a text at the start of another.
pub fn starts_with(s: &[char], prefix: &str) -> (found: bool)
    ensures
        found == begins_with(s@, prefix@),
{
    matches_at(s, chars_of(prefix).as_slice(), 0)
}

/// What follows `prefix` in `s`.
pub open spec fn after_prefix(s: Seq<char>, prefix: Seq<char>) -> Option<Seq<char>> {
    if begins_with(s, prefix) {
        Some(s.skip(prefix.len() as int))
    } else {
        None
    }
}

/// Takes a prefix off.
pub fn strip_prefix<'a>(s: &'a [char], prefix: &str) -> (rest: Option<&'a [char]>)
    ensures
        match rest {
            Some(rest) => after_prefix(s@, prefix@) == Some(rest@),
            None => after_prefix(s@, prefix@) is None,
        },
{
    if starts_with(s, prefix) {
        let n: usize = chars_of(prefix).len();
        let rest = slice_subrange(s, n, s.len());
        assert(rest@ =~= s@.skip(n as int));
        Some(rest)
    } else {
        None
    }
}

/// Whether one of these parts is exactly `word`.
pub open spec fn has_part(parts: Seq<Seq<char>>, word: Seq<char>) -> bool {
    exists|i: int| 0 <= i < parts.len() && #[trigger] parts[i] == word
}

/// Looks for a part.
pub fn any_is(parts: &Vec<&[char]>, word: &str) -> (found: bool)
    ensures
        found == has_part(parts_view(parts@), word@),
{
    let mut i: usize = 0;
    while i < parts.len()
        invariant
            i <= parts.len(),
            forall|k: int| 0 <= k < i ==> parts_view(parts@)[k] != word@,
        decreases parts.len() - i,
    {
        if same(parts[i], word) {
            assert(parts_view(parts@)[i as int] == word@);
            return true;
        }
        assert(parts_view(parts@)[i as int] != word@);
        i = i + 1;
    }
    false
}

// ---------------------------------------------------------------------------
// Reading numbers
// ---------------------------------------------------------------------------

/// The value of a digit, up to fifteen.
pub open spec fn digit_value(c: char) -> Option<int> {
    if '0' <= c <= '9' {
        Some(c as int - '0' as int)
    } else if 'a' <= c <= 'f' {
        Some(c as int - 'a' as int + 10)
    } else if 'A' <= c <= 'F' {
        Some(c as int - 'A' as int + 10)
    } else {
        None
    }
}

/// Whether `c` is a digit in this radix.
pub open spec fn is_digit(c: char, radix: int) -> bool {
    digit_value(c) matches Some(d) && d < radix
}

/// Whether every character of `s` is a digit in this radix.
pub open spec fn all_digits(s: Seq<char>, radix: int) -> bool {
    forall|i: int| 0 <= i < s.len() ==> is_digit(#[trigger] s[i], radix)
}

/// The number that a run of digits spells.
pub open spec fn digits_value(s: Seq<char>, radix: int) -> int
    decreases s.len(),
{
    if s.len() == 0 {
        0
    } else {
        radix * digits_value(s.drop_last(), radix) + digit_value(s.last())->0
    }
}

/// The unsigned number up to `limit` that `s` spells: digits only, with or
/// without a plus sign before them.
pub open spec fn unsigned_value(s: Seq<char>, radix: int, limit: int) -> Option<int> {
    let digits = if s.len() > 0 && s[0] == '+' {
        s.skip(1)
    } else {
        s
    };
    if digits.len() > 0 && all_digits(digits, radix) && digits_value(digits, radix) <= limit {
        Some(digits_value(digits, radix))
    } else {
        None
    }
}

/// The signed 64-bit number that `s` spells: digits only, with or without a
/// sign before them.
pub open spec fn signed_value(s: Seq<char>, low: int, high: int) -> Option<int> {
    if s.len() > 0 && s[0] == '-' {
        let digits = s.skip(1);
        if digits.len() > 0 && all_digits(digits, 10) && -digits_value(digits, 10) >= low {
            Some(-digits_value(digits, 10))
        } else {
            None
        }
    } else {
        unsigned_value(s, 10, high)
    }
}

fn digit_of(c: char) -> (digit: Option<u8>)
    ensures
        match digit {
            Some(d) => digit_value(c) == Some(d as int) && d < 16,
            None => digit_value(c) is None,
        },
{
    if '0' <= c && c <= '9' {
        Some(c as u8 - 48u8)
    } else if 'a' <= c && c <= 'f' {
        Some(c as u8 - 87u8)
    } else if 'A' <= c && c <= 'F' {
        Some(c as u8 - 55u8)
    } else {
        None
    }
}

proof fn lemma_digits_value_grows(s: Seq<char>, n: int, radix: int)
    requires
        0 <= n <= s.len(),
        radix >= 2,
        all_digits(s, radix),
    ensures
        0 <= digits_value(s.take(n), radix) <= digits_value(s, radix),
    decreases s.len(),
{
    if n == s.len() {
        assert(s.take(n) =~= s);
        lemma_digits_value_nonnegative(s, radix);
    } else {
        let shorter = s.drop_last();
        assert(all_digits(shorter, radix)) by {
            assert forall|i: int| 0 <= i < shorter.len() implies is_digit(
                #[trigger] shorter[i],
                radix,
            ) by {
                assert(shorter[i] == s[i]);
            }
        }
        lemma_digits_value_grows(shorter, n, radix);
        assert(shorter.take(n) =~= s.take(n));
        let v = digits_value(shorter, radix);
        assert(is_digit(s[s.len() - 1], radix));
        assert(radix * v >= v) by (nonlinear_arith)
            requires
                radix >= 2,
                v >= 0,
        ;
    }
}

proof fn lemma_digits_value_nonnegative(s: Seq<char>, radix: int)
    requires
        radix >= 2,
        all_digits(s, radix),
    ensures
        digits_value(s, radix) >= 0,
    decreases s.len(),
{
    if s.len() > 0 {
        let shorter = s.drop_last();
        assert(all_digits(shorter, radix)) by {
            assert forall|i: int| 0 <= i < shorter.len() implies is_digit(
                #[trigger] shorter[i],
                radix,
            ) by {
                assert(shorter[i] == s[i]);
            }
        }
        lemma_digits_value_nonnegative(shorter, radix);
        let v = digits_value(shorter, radix);
        assert(is_digit(s[s.len() - 1], radix));
        assert(radix * v >= 0) by (nonlinear_arith)
            requires
                radix >= 2,
                v >= 0,
        ;
    }
}

/// Reads a run of digits, none of them missing and the whole at most `limit`.
fn read_digits(s: &[char], radix: u64, limit: u64) -> (value: Option<u64>)
    requires
        radix == 10 || radix == 16,
    ensures
        match value {
            Some(v) => s.len() > 0 && all_digits(s@, radix as int) && digits_value(s@, radix as int)
                == v && v <= limit,
            None => !(s.len() > 0 && all_digits(s@, radix as int) && digits_value(s@, radix as int)
                <= limit),
        },
{
    if s.len() == 0 {
        return None;
    }
    let mut value: u64 = 0;
    let mut i: usize = 0;
    while i < s.len()
        invariant
            i <= s.len(),
            radix == 10 || radix == 16,
            all_digits(s@.take(i as int), radix as int),
            value == digits_value(s@.take(i as int), radix as int),
            value <= limit,
        decreases s.len() - i,
    {
        let digit: u64 = match digit_of(s[i]) {
            Some(d) => d as u64,
            None => return None,
        };
        if digit >= radix {
            return None;
        }
        let next: u128 = radix as u128 * value as u128 + digit as u128;
        proof {
            let longer = s@.take(i + 1);
            assert(longer.drop_last() =~= s@.take(i as int));
            assert(longer.last() == s@[i as int]);
            assert forall|k: int| 0 <= k < longer.len() implies is_digit(
                #[trigger] longer[k],
                radix as int,
            ) by {
                if k < i {
                    assert(longer[k] == s@.take(i as int)[k]);
                }
            }
            assert(next == digits_value(longer, radix as int));
        }
        if next > limit as u128 {
            proof {
                if all_digits(s@, radix as int) {
                    lemma_digits_value_grows(s@, i + 1, radix as int);
                }
            }
            return None;
        }
        value = next as u64;
        i = i + 1;
    }
    assert(s@.take(i as int) =~= s@);
    Some(value)
}

/// Reads an unsigned number.
pub fn parse_unsigned(s: &[char], radix: u64, limit: u64) -> (value: Option<u64>)
    requires
        radix == 10 || radix == 16,
    ensures
        match value {
            Some(v) => unsigned_value(s@, radix as int, limit as int) == Some(v as int) && v
                <= limit,
            None => unsigned_value(s@, radix as int, limit as int) is None,
        },
{
    if s.len() > 0 && s[0] == '+' {
        let rest = slice_subrange(s, 1, s.len());
        assert(rest@ =~= s@.skip(1));
        read_digits(rest, radix, limit)
    } else {
        read_digits(s, radix, limit)
    }
}

/// Reads a signed 32-bit number.
pub fn parse_i32(s: &[char]) -> (value: Option<i32>)
    ensures
        match value {
            Some(v) => signed_value(s@, i32::MIN as int, i32::MAX as int) == Some(v as int),
            None => signed_value(s@, i32::MIN as int, i32::MAX as int) is None,
        },
{
    if s.len() > 0 && s[0] == '-' {
        let rest = slice_subrange(s, 1, s.len());
        assert(rest@ =~= s@.skip(1));
        match read_digits(rest, 10, 0x8000_0000) {
            Some(v) => Some((0 - v as i64) as i32),
            None => None,
        }
    } else {
        match parse_unsigned(s, 10, 0x7FFF_FFFF) {
            Some(v) => Some(v as i32),
            None => None,
        }
    }
}

/// Reads a signed 64-bit number.
pub fn parse_i64(s: &[char]) -> (value: Option<i64>)
    ensures
        match value {
            Some(v) => signed_value(s@, i64::MIN as int, i64::MAX as int) == Some(v as int),
            None => signed_value(s@, i64::MIN as int, i64::MAX as int) is None,
        },
{
    if s.len() > 0 && s[0] == '-' {
        let rest = slice_subrange(s, 1, s.len());
        assert(rest@ =~= s@.skip(1));
        match read_digits(rest, 10, 0x8000_0000_0000_0000) {
            Some(v) => Some((0 - v as i128) as i64),
            None => None,
        }
    } else {
        match parse_unsigned(s, 10, 0x7FFF_FFFF_FFFF_FFFF) {
            Some(v) => Some(v as i64),
            None => None,
        }
    }
}

// ---------------------------------------------------------------------------
// Writing numbers
// ---------------------------------------------------------------------------

/// The character for a digit up to fifteen.
pub open spec fn digit_char(d: int) -> char {
    if d < 10 {
        ('0' as int + d) as char
    } else {
        ('a' as int + d - 10) as char
    }
}

/// `n` in this radix, with no leading zeros.
pub open spec fn numeral(n: nat, radix: nat) -> Seq<char>
    decreases n,
{
    if n < radix || radix < 2 {
        seq![digit_char(n as int)]
    } else {
        proof {
            assert(n / radix < n) by (nonlinear_arith)
                requires
                    n >= radix,
                    radix >= 2,
            ;
        }
        numeral(n / radix, radix).push(digit_char((n % radix) as int))
    }
}

/// `n` in decimal.
pub open spec fn decimal(n: int) -> Seq<char> {
    if n < 0 {
        seq!['-'] + numeral((-n) as nat, 10)
    } else {
        numeral(n as nat, 10)
    }
}

/// `n` copies of `c`.
pub open spec fn repeated(c: char, n: int) -> Seq<char> {
    Seq::new(
        if n > 0 {
            n as nat
        } else {
            0
        },
        |i: int| c,
    )
}

/// `n` in hexadecimal, padded with zeros to at least `width` digits.
pub open spec fn hex(n: int, width: int) -> Seq<char> {
    let digits = numeral(n as nat, 16);
    repeated('0', width - digits.len()) + digits
}

/// `s` padded with blanks on the right to at least `width` characters.
pub open spec fn padded_right(s: Seq<char>, width: int) -> Seq<char> {
    s + repeated(' ', width - s.len())
}

/// `s` padded with blanks on the left to at least `width` characters.
pub open spec fn padded_left(s: Seq<char>, width: int) -> Seq<char> {
    repeated(' ', width - s.len()) + s
}

fn char_of_digit(d: u8) -> (c: char)
    requires
        d < 16,
    ensures
        c == digit_char(d as int),
{
    if d < 10 {
        (48u8 + d) as char
    } else {
        (87u8 + d) as char
    }
}

fn numeral_of(n: u64, radix: u64) -> (digits: Vec<char>)
    requires
        radix == 10 || radix == 16,
    ensures
        digits@ == numeral(n as nat, radix as nat),
    decreases n,
{
    if n < radix {
        let mut digits: Vec<char> = Vec::new();
        digits.push(char_of_digit(n as u8));
        assert(digits@ =~= seq![digit_char(n as int)]);
        digits
    } else {
        let mut digits: Vec<char> = numeral_of(n / radix, radix);
        digits.push(char_of_digit((n % radix) as u8));
        digits
    }
}

/// Appends the characters of a slice.
pub fn push_chars(out: &mut String, s: &[char])
    ensures
        final(out)@ == old(out)@ + s@,
{
    let mut i: usize = 0;
    assert(out@ =~= old(out)@ + s@.take(0));
    while i < s.len()
        invariant
            i <= s.len(),
            out@ == old(out)@ + s@.take(i as int),
        decreases s.len() - i,
    {
        out.push(s[i]);
        i = i + 1;
        assert(s@.take(i as int) =~= s@.take(i - 1).push(s@[i - 1]));
        assert(out@ =~= old(out)@ + s@.take(i as int));
    }
    assert(s@.take(i as int) =~= s@);
}

/// Appends a text.
pub fn push_text(out: &mut String, s: &str)
    ensures
        final(out)@ == old(out)@ + s@,
{
    out.append(s);
}

/// Appends `n` copies of a character.
pub fn push_repeated(out: &mut String, c: char, n: usize)
    ensures
        final(out)@ == old(out)@ + repeated(c, n as int),
{
    let mut i: usize = 0;
    assert(out@ =~= old(out)@ + repeated(c, 0));
    while i < n
        invariant
            i <= n,
            out@ == old(out)@ + repeated(c, i as int),
        decreases n - i,
    {
        out.push(c);
        i = i + 1;
        assert(out@ =~= old(out)@ + repeated(c, i as int));
    }
}

/// Appends an unsigned number in decimal.
pub fn push_decimal(out: &mut String, n: u64)
    ensures
        final(out)@ == old(out)@ + decimal(n as int),
{
    push_chars(out, numeral_of(n, 10).as_slice());
}

/// Appends a signed number in decimal.
pub fn push_signed(out: &mut String, n: i64)
    ensures
        final(out)@ == old(out)@ + decimal(n as int),
{
    if n < 0 {
        let magnitude: u64 = (0 - n as i128) as u64;
        out.push('-');
        push_chars(out, numeral_of(magnitude, 10).as_slice());
        assert(out@ =~= old(out)@ + decimal(n as int));
    } else {
        push_chars(out, numeral_of(n as u64, 10).as_slice());
    }
}

/// Appends a number in hexadecimal, padded with zeros to `width` digits.
pub fn push_hex(out: &mut String, n: u64, width: usize)
    ensures
        final(out)@ == old(out)@ + hex(n as int, width as int),
{
    let digits: Vec<char> = numeral_of(n, 16);
    if digits.len() < width {
        push_repeated(out, '0', width - digits.len());
    } else {
        assert(repeated('0', width - digits.len()) =~= Seq::<char>::empty());
        assert(out@ =~= old(out)@ + repeated('0', width - digits.len()));
    }
    push_chars(out, digits.as_slice());
    assert(out@ =~= old(out)@ + hex(n as int, width as int));
}

/// Appends a number in hexadecimal with capital digits, padded with zeros to
/// `width` digits.
pub fn push_hex_raised(out: &mut String, n: u64, width: usize)
    ensures
        final(out)@ == old(out)@ + raised(hex(n as int, width as int)),
{
    let mut digits: String = String::new();
    push_hex(&mut digits, n, width);
    assert(digits@ =~= hex(n as int, width as int));
    push_raised(out, digits.as_str());
}

/// `n` in hexadecimal behind `0x`.
pub open spec fn hex_0x(n: int) -> Seq<char> {
    "0x"@ + hex(n, 1)
}

/// Appends a number in hexadecimal behind `0x`.
pub fn push_hex_0x(out: &mut String, n: u64)
    ensures
        final(out)@ == old(out)@ + hex_0x(n as int),
{
    push_text(out, "0x");
    push_hex(out, n, 1);
    assert(out@ =~= old(out)@ + hex_0x(n as int));
}

/// `n` in decimal, with a zero before a single digit.
pub open spec fn two_digits(n: int) -> Seq<char> {
    if 0 <= n < 10 {
        "0"@ + decimal(n)
    } else {
        decimal(n)
    }
}

/// Appends a number with a zero before a single digit.
pub fn push_two_digits(out: &mut String, n: u64)
    ensures
        final(out)@ == old(out)@ + two_digits(n as int),
{
    if n < 10 {
        push_text(out, "0");
    }
    push_decimal(out, n);
    assert(out@ =~= old(out)@ + two_digits(n as int));
}

/// Appends a number padded on the left with blanks.
pub fn push_decimal_left(out: &mut String, n: u64, width: usize)
    ensures
        final(out)@ == old(out)@ + padded_left(decimal(n as int), width as int),
{
    let digits: String = decimal_text(n);
    push_padded_left(out, digits.as_str(), width);
}

/// Appends a text padded on the right.
pub fn push_padded_right(out: &mut String, s: &str, width: usize)
    ensures
        final(out)@ == old(out)@ + padded_right(s@, width as int),
{
    let n: usize = s.unicode_len();
    out.append(s);
    if n < width {
        push_repeated(out, ' ', width - n);
    }
    assert(out@ =~= old(out)@ + padded_right(s@, width as int));
}

/// Appends a text padded on the left.
pub fn push_padded_left(out: &mut String, s: &str, width: usize)
    ensures
        final(out)@ == old(out)@ + padded_left(s@, width as int),
{
    let n: usize = s.unicode_len();
    if n < width {
        push_repeated(out, ' ', width - n);
    }
    out.append(s);
    assert(out@ =~= old(out)@ + padded_left(s@, width as int));
}

/// A number in decimal.
pub fn decimal_text(n: u64) -> (text: String)
    ensures
        text@ == decimal(n as int),
{
    let mut text: String = String::new();
    push_decimal(&mut text, n);
    assert(text@ =~= decimal(n as int));
    text
}

/// `n` as three decimals.
pub open spec fn thousandths(n: int) -> Seq<char> {
    seq![digit_char(n / 100 % 10), digit_char(n / 10 % 10), digit_char(n % 10)]
}

/// Appends a number below a thousand as three decimals.
pub fn push_thousandths(out: &mut String, n: u32)
    requires
        n < 1000,
    ensures
        final(out)@ == old(out)@ + thousandths(n as int),
{
    out.push(char_of_digit((n / 100 % 10) as u8));
    out.push(char_of_digit((n / 10 % 10) as u8));
    out.push(char_of_digit((n % 10) as u8));
    assert(out@ =~= old(out)@ + thousandths(n as int));
}

/// How `Debug` shows a text.
pub uninterp spec fn debug_shown(s: Seq<char>) -> Seq<char>;

/// `<str as Debug>::fmt` shows a text between quotation marks with what
/// cannot be printed escaped. Which characters those are is left to it.
#[verifier::external_body]
pub(crate) fn debug_text(s: &str) -> (shown: String)
    ensures
        shown@ == debug_shown(s@),
{
    format!("{:?}", s)
}

// ---------------------------------------------------------------------------
// Laws
// ---------------------------------------------------------------------------

/// Reading back what was written in decimal gives the number that was
/// written.
pub proof fn decimal_reads_back(n: nat, limit: int)
    requires
        n <= limit,
    ensures
        unsigned_value(decimal(n as int), 10, limit) == Some(n as int),
{
    lemma_numeral(n, 10);
    let s = decimal(n as int);
    assert(is_digit(s[0], 10));
}

proof fn lemma_numeral(n: nat, radix: nat)
    requires
        2 <= radix <= 16,
    ensures
        numeral(n, radix).len() > 0,
        all_digits(numeral(n, radix), radix as int),
        digits_value(numeral(n, radix), radix as int) == n,
    decreases n,
{
    let s = numeral(n, radix);
    if n < radix {
        assert(s.drop_last() =~= Seq::<char>::empty());
        assert(digits_value(s.drop_last(), radix as int) == 0);
        assert(radix * 0 == 0) by (nonlinear_arith);
    } else {
        assert(n / radix < n) by (nonlinear_arith)
            requires
                n >= radix,
                radix >= 2,
        ;
        lemma_numeral(n / radix, radix);
        assert(s.drop_last() =~= numeral(n / radix, radix));
        assert(n % radix < radix) by (nonlinear_arith)
            requires
                radix >= 2,
        ;
        assert forall|i: int| 0 <= i < s.len() implies is_digit(#[trigger] s[i], radix as int) by {
            if i < s.len() - 1 {
                assert(s[i] == numeral(n / radix, radix)[i]);
            }
        }
        assert(n == radix * (n / radix) + n % radix) by (nonlinear_arith)
            requires
                radix >= 2,
        ;
    }
}

} // verus!
