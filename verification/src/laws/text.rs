//! What taking texts apart comes to.
use crate::text::Trim;
use vstd::prelude::*;

verus! {

/// The code of a character, an ASCII capital's being that of its small letter.
pub open spec fn small(c: char) -> int {
    if 65 <= c as int <= 90 {
        c as int + 32
    } else {
        c as int
    }
}

/// Whether a text holds a word somewhere, whatever the text's capitals.
pub open spec fn mentions(text: Seq<char>, word: Seq<char>) -> bool {
    exists|at: int| #[trigger] mentions_at(text, word, at)
}

/// Whether a text holds a word at a position, whatever the text's capitals.
pub open spec fn mentions_at(text: Seq<char>, word: Seq<char>, at: int) -> bool {
    &&& 0 <= at <= text.len() - word.len()
    &&& forall|j: int| 0 <= j < word.len() ==> small(text[at + j]) == (#[trigger] word[j]) as int
}

proof fn lemma_small(c: char)
    ensures
        crate::text::lower_char(c) as int == small(c),
{
}

/// A text in small letters holds a word where the text mentions it.
pub proof fn small_letters_hold_what_is_mentioned(text: Seq<char>, word: Seq<char>)
    ensures
        crate::text::has_text(crate::text::lowered(text), word) <==> mentions(text, word),
{
    let low = crate::text::lowered(text);
    assert forall|at: int| crate::text::stands_at(low, word, at) <==> #[trigger] mentions_at(
        text,
        word,
        at,
    ) by {
        if 0 <= at <= text.len() - word.len() {
            let part = low.subrange(at, at + word.len());
            assert forall|j: int| 0 <= j < word.len() implies (part[j] == #[trigger] word[j]
                <==> small(text[at + j]) == word[j] as int) by {
                lemma_small(text[at + j]);
                assert(part[j] == crate::text::lower_char(text[at + j]));
            }
            if mentions_at(text, word, at) {
                assert(part =~= word);
            }
            if part == word {
                assert forall|j: int| 0 <= j < word.len() implies small(text[at + j]) == (
                #[trigger] word[j]) as int by {
                    assert(part[j] == word[j]);
                }
            }
        }
    }
    if crate::text::has_text(low, word) {
        let at = choose|at: int| crate::text::stands_at(low, word, at);
        assert(mentions_at(text, word, at));
    }
    if mentions(text, word) {
        let at = choose|at: int| #[trigger] mentions_at(text, word, at);
        assert(crate::text::stands_at(low, word, at));
    }
}

proof fn lemma_trimmed_start(s: Seq<char>, trim: Trim) -> (n: int)
    ensures
        0 <= n <= s.len(),
        crate::text::trimmed_start(s, trim) == s.skip(n),
        forall|i: int| 0 <= i < n ==> trim.takes(#[trigger] s[i]),
        n < s.len() ==> !trim.takes(s[n]),
    decreases s.len(),
{
    if s.len() > 0 && trim.takes(s[0]) {
        let rest = s.skip(1);
        let m = lemma_trimmed_start(rest, trim);
        assert(rest.skip(m) =~= s.skip(m + 1));
        assert forall|i: int| 0 <= i < m + 1 implies trim.takes(#[trigger] s[i]) by {
            if i > 0 {
                assert(rest[i - 1] == s[i]);
            }
        }
        if m < rest.len() {
            assert(rest[m] == s[m + 1]);
        }
        m + 1
    } else {
        assert(s.skip(0) =~= s);
        0
    }
}

proof fn lemma_trimmed_end(s: Seq<char>, trim: Trim) -> (n: int)
    ensures
        0 <= n <= s.len(),
        crate::text::trimmed_end(s, trim) == s.take(n),
        forall|i: int| n <= i < s.len() ==> trim.takes(#[trigger] s[i]),
        n > 0 ==> !trim.takes(s[n - 1]),
    decreases s.len(),
{
    if s.len() > 0 && trim.takes(s.last()) {
        let rest = s.drop_last();
        let m = lemma_trimmed_end(rest, trim);
        assert(rest.take(m) =~= s.take(m));
        assert forall|i: int| m <= i < s.len() implies trim.takes(#[trigger] s[i]) by {
            if i < rest.len() {
                assert(rest[i] == s[i]);
            }
        }
        if m > 0 {
            assert(rest[m - 1] == s[m - 1]);
        }
        m
    } else {
        assert(s.take(s.len() as int) =~= s);
        s.len() as int
    }
}

/// Trimming takes off what stands at both ends and nothing else: the text is
/// what is left with something of that kind before and behind it, and what is
/// left neither begins nor ends with it.
pub proof fn trimming_takes_the_ends_off(s: Seq<char>, trim: Trim)
    ensures
        exists|from: int, to: int|
            0 <= from <= to <= s.len() && #[trigger] s.subrange(from, to) == crate::text::trimmed(
                s,
                trim,
            ) && (forall|i: int| 0 <= i < from ==> trim.takes(#[trigger] s[i])) && (forall|i: int|
                to <= i < s.len() ==> trim.takes(#[trigger] s[i])) && (from < to ==> !trim.takes(
                s[from],
            ) && !trim.takes(s[to - 1])),
{
    let from = lemma_trimmed_start(s, trim);
    let rest = s.skip(from);
    let n = lemma_trimmed_end(rest, trim);
    let to = from + n;
    assert(rest.take(n) =~= s.subrange(from, to));
    assert forall|i: int| to <= i < s.len() implies trim.takes(#[trigger] s[i]) by {
        assert(rest[i - from] == s[i]);
    }
    if n > 0 {
        assert(rest[0] == s[from]);
        assert(rest[n - 1] == s[to - 1]);
    }
    assert(s.subrange(from, to) == crate::text::trimmed(s, trim));
}

/// White space is blanks, tabs and line ends, and NUL is none; a trim takes
/// what its name says.
pub proof fn trims_take_what_they_name(c: char)
    ensures
        c == ' ' || c == '\t' || c == '\n' || c == '\r' ==> Trim::Space.takes(c)
            && Trim::SpaceOrNul.takes(c) && !Trim::Nul.takes(c),
        Trim::Nul.takes(c) <==> c == '\0',
        Trim::SpaceOrNul.takes(c) <==> Trim::Space.takes(c) || c == '\0',
        '!' <= c <= '~' || c == '\0' ==> !Trim::Space.takes(c),
{
}

proof fn lemma_position(s: Seq<char>, c: char)
    ensures
        0 <= crate::text::position(s, c) <= s.len(),
        crate::text::position(s, c) < s.len() ==> s[crate::text::position(s, c)] == c,
        forall|i: int| 0 <= i < crate::text::position(s, c) ==> #[trigger] s[i] != c,
    decreases s.len(),
{
    if s.len() > 0 && s[0] != c {
        let rest = s.skip(1);
        lemma_position(rest, c);
        let at = crate::text::position(rest, c);
        if at < rest.len() {
            assert(rest[at] == s[at + 1]);
        }
        assert forall|i: int| 0 <= i < at + 1 implies #[trigger] s[i] != c by {
            if i > 0 {
                assert(rest[i - 1] == s[i]);
            }
        }
    }
}

/// A text is parted at the first mark: put together again the two parts are
/// the text, and the mark is not in the first.
pub proof fn a_text_is_parted_at_the_first_mark(s: Seq<char>, c: char)
    ensures
        match crate::text::parted(s, c) {
            Some((before, after)) => before + seq![c] + after == s && !before.contains(c),
            None => !s.contains(c),
        },
{
    lemma_position(s, c);
    let at = crate::text::position(s, c);
    if at < s.len() {
        assert(s.take(at) + seq![c] + s.skip(at + 1) =~= s);
        assert(!s.take(at).contains(c)) by {
            if s.take(at).contains(c) {
                let i = choose|i: int| 0 <= i < at && s.take(at)[i] == c;
                assert(s[i] == c);
            }
        }
    } else {
        if s.contains(c) {
            let i = choose|i: int| 0 <= i < s.len() && s[i] == c;
            assert(s[i] == c);
        }
    }
}

/// The first line of a text is what stands before its first line end, without
/// a carriage return there; the others are the lines of the rest. A text with
/// no line end is one line, and an empty one none.
pub proof fn lines_end_at_line_ends(line: Seq<char>, rest: Seq<char>)
    requires
        !line.contains('\n'),
    ensures
        crate::text::text_lines(line + seq!['\n'] + rest) == seq![
            if line.len() > 0 && line.last() == '\r' {
                line.drop_last()
            } else {
                line
            },
        ] + crate::text::text_lines(rest),
        line.len() > 0 ==> crate::text::text_lines(line) == seq![line],
        crate::text::text_lines(Seq::empty()) == Seq::<Seq<char>>::empty(),
{
    let s = line + seq!['\n'] + rest;
    lemma_position(s, '\n');
    let at = crate::text::position(s, '\n');
    assert(s[line.len() as int] == '\n');
    assert(at == line.len()) by {
        if at < line.len() {
            assert(line[at] == s[at]);
            assert(line.contains('\n'));
        }
    }
    assert(s.take(at) =~= line);
    assert(s.skip(at + 1) =~= rest);
    lemma_position(line, '\n');
    if crate::text::position(line, '\n') < line.len() {
        assert(line.contains('\n'));
    }
}

// ---------------------------------------------------------------------------
// Numbers
// ---------------------------------------------------------------------------
/// A decimal digit stands for its distance from zero, a hexadecimal one for
/// ten and its distance from A, in either case.
pub proof fn digits_stand_for_numbers(c: char)
    ensures
        48 <= c as int <= 57 ==> crate::text::digit_value(c) == Some(c as int - 48),
        97 <= c as int <= 102 ==> crate::text::digit_value(c) == Some(c as int - 87),
        65 <= c as int <= 70 ==> crate::text::digit_value(c) == Some(c as int - 55),
        !(48 <= c as int <= 57) && !(97 <= c as int <= 102) && !(65 <= c as int <= 70)
            ==> crate::text::digit_value(c) is None,
{
}

/// Each further digit is worth a place less: what came before it counts as
/// often as there are digits.
pub proof fn digits_count_by_their_places(s: Seq<char>, c: char, radix: int)
    requires
        crate::text::is_digit(c, radix),
    ensures
        crate::text::digits_value(Seq::empty(), radix) == 0,
        crate::text::digit_value(c) matches Some(d) && crate::text::digits_value(s.push(c), radix)
            == crate::text::digits_value(s, radix) * radix + d,
        crate::text::is_digit(c, radix) <==> (crate::text::digit_value(c) matches Some(d) && d
            < radix),
{
    assert(s.push(c).drop_last() =~= s);
    assert(crate::text::digits_value(s, radix) * radix == radix * crate::text::digits_value(
        s,
        radix,
    )) by (nonlinear_arith);
}

/// An unsigned number is one digit at least, with a plus before it or none,
/// and no more than it may be; a signed one may have a minus.
pub proof fn numbers_are_digits_behind_a_sign(
    s: Seq<char>,
    digits: Seq<char>,
    radix: int,
    limit: int,
    low: int,
)
    requires
        s.len() > 0,
        s[0] == '+' ==> s == seq!['+'] + digits,
        s[0] != '+' ==> s == digits,
    ensures
        digits.len() > 0 && (forall|i: int|
            0 <= i < digits.len() ==> crate::text::is_digit(#[trigger] digits[i], radix))
            && crate::text::digits_value(digits, radix) <= limit ==> crate::text::unsigned_value(
            s,
            radix,
            limit,
        ) == Some(crate::text::digits_value(digits, radix)),
        crate::text::unsigned_value(s, radix, limit) matches Some(n) ==> digits.len() > 0 && (
        forall|i: int|
            0 <= i < digits.len() ==> crate::text::is_digit(#[trigger] digits[i], radix)) && n
            == crate::text::digits_value(digits, radix) && n <= limit,
        s[0] != '-' ==> crate::text::signed_value(s, low, limit) == crate::text::unsigned_value(
            s,
            10,
            limit,
        ),
        s[0] == '-' && s.len() == 1 ==> crate::text::signed_value(s, low, limit) is None,
        s[0] == '-' && s.len() > 1 && s[1] != '+' && low <= 0 ==> match crate::text::unsigned_value(
            s.skip(1),
            10,
            -low,
        ) {
            Some(n) => crate::text::signed_value(s, low, limit) == Some(-n),
            None => crate::text::signed_value(s, low, limit) is None,
        },
{
    if s[0] == '+' {
        assert(s.skip(1) =~= digits);
    }
}

/// A numeral is written digit by digit, the last place last: ten times a
/// number and a digit more is the number with the digit behind it.
pub proof fn numerals_are_written_by_places(n: nat, d: nat, radix: nat)
    requires
        radix == 10 || radix == 16,
        d < radix,
    ensures
        d < 10 ==> crate::text::numeral(d, radix).len() == 1 && crate::text::numeral(d, radix)[0] as int
            == 48 + d,
        d >= 10 ==> crate::text::numeral(d, radix).len() == 1 && crate::text::numeral(
            d,
            radix,
        )[0] as int == 87 + d,
        n > 0 ==> crate::text::numeral((radix * n + d) as nat, radix) == crate::text::numeral(
            n,
            radix,
        ) + crate::text::numeral(d, radix),
        n > 0 ==> crate::text::decimal(-(n as int)) == seq!['-'] + crate::text::decimal(n as int),
        crate::text::decimal(n as int) == crate::text::numeral(n, 10),
{
    if n > 0 {
        let whole = (radix * n + d) as nat;
        assert(whole >= radix && whole / radix == n && whole % radix == d) by (nonlinear_arith)
            requires
                whole == radix * n + d,
                d < radix,
                n > 0,
        ;
        assert(crate::text::numeral(whole, radix) =~= crate::text::numeral(n, radix)
            + crate::text::numeral(d, radix));
    }
}

/// A hexadecimal number is filled up with zeros on the left to its width, and
/// longer where it needs to be.
pub proof fn hexadecimal_is_filled_with_zeros(n: nat, width: int)
    ensures
        ({
            let digits = crate::text::numeral(n, 16);
            let shown = crate::text::hex(n as int, width);
            &&& digits.len() >= width ==> shown == digits
            &&& digits.len() < width ==> shown.len() == width && shown.skip(width - digits.len())
                == digits && forall|i: int|
                0 <= i < width - digits.len() ==> #[trigger] shown[i] == '0'
            &&& crate::text::hex_0x(n as int) == "0x"@ + digits
        }),
{
    let digits = crate::text::numeral(n, 16);
    let shown = crate::text::hex(n as int, width);
    lemma_numeral_long(n, 16);
    assert(digits.len() >= width ==> shown =~= digits);
    assert(digits.len() < width ==> shown.skip(width - digits.len()) =~= digits);
    assert(crate::text::hex(n as int, 1) =~= digits);
}

proof fn lemma_numeral_long(n: nat, radix: nat)
    requires
        radix >= 2,
    ensures
        crate::text::numeral(n, radix).len() >= 1,
    decreases n,
{
}

/// Text is filled up with blanks to its width, behind it or before it, and
/// never cut.
pub proof fn text_is_filled_with_blanks(s: Seq<char>, width: int)
    ensures
        s.len() >= width ==> crate::text::padded_right(s, width) == s && crate::text::padded_left(
            s,
            width,
        ) == s,
        s.len() < width ==> {
            let right = crate::text::padded_right(s, width);
            let left = crate::text::padded_left(s, width);
            &&& right.len() == width && left.len() == width
            &&& right.take(s.len() as int) == s && left.skip(width - s.len()) == s
            &&& forall|i: int| s.len() <= i < width ==> #[trigger] right[i] == ' '
            &&& forall|i: int| 0 <= i < width - s.len() ==> #[trigger] left[i] == ' '
        },
{
    let right = crate::text::padded_right(s, width);
    let left = crate::text::padded_left(s, width);
    assert(s.len() >= width ==> right =~= s && left =~= s);
    assert(s.len() < width ==> right.take(s.len() as int) =~= s && left.skip(width - s.len())
        =~= s);
}

/// Two places for what is below a hundred, and three for thousandths.
pub proof fn places_are_kept(n: int)
    ensures
        0 <= n < 10 ==> crate::text::two_digits(n) == "0"@ + crate::text::decimal(n),
        n >= 10 ==> crate::text::two_digits(n) == crate::text::decimal(n),
        0 <= n < 1000 ==> {
            let t = crate::text::thousandths(n);
            &&& t.len() == 3
            &&& (t[0] as int - 48) * 100 + (t[1] as int - 48) * 10 + (t[2] as int - 48) == n
        },
{
    if 0 <= n < 1000 {
        let a = n / 100 % 10;
        let b = n / 10 % 10;
        let c = n % 10;
        assert(a * 100 + b * 10 + c == n);
        let t = crate::text::thousandths(n);
        assert(t[0] as int == 48 + a && t[1] as int == 48 + b && t[2] as int == 48 + c);
    }
}

// ---------------------------------------------------------------------------
// Parts
// ---------------------------------------------------------------------------
proof fn lemma_last_position(s: Seq<char>, c: char)
    ensures
        -1 <= crate::text::last_position(s, c) < s.len(),
        crate::text::last_position(s, c) >= 0 ==> s[crate::text::last_position(s, c)] == c,
        forall|i: int|
            crate::text::last_position(s, c) < i < s.len() ==> #[trigger] s[i] != c,
    decreases s.len(),
{
    if s.len() > 0 && s.last() != c {
        let shorter = s.drop_last();
        lemma_last_position(shorter, c);
        assert forall|i: int|
            crate::text::last_position(s, c) < i < s.len() implies #[trigger] s[i] != c by {
            if i < shorter.len() {
                assert(shorter[i] == s[i]);
            }
        }
    }
}

/// A text is parted at the last mark it holds, where that is asked for.
pub proof fn a_text_is_parted_at_the_last_mark(s: Seq<char>, c: char)
    ensures
        match crate::text::parted_last(s, c) {
            Some((before, after)) => before + seq![c] + after == s && !after.contains(c),
            None => !s.contains(c),
        },
{
    lemma_last_position(s, c);
    let at = crate::text::last_position(s, c);
    if at >= 0 {
        assert(s.take(at) + seq![c] + s.skip(at + 1) =~= s);
        let after = s.skip(at + 1);
        assert forall|i: int| 0 <= i < after.len() implies after[i] != c by {
            assert(after[i] == s[at + 1 + i]);
        }
    }
}

/// Capitals are the letters 32 places before the small ones.
pub proof fn capitals_stand_before_small_letters(s: Seq<char>, i: int)
    requires
        0 <= i < s.len(),
    ensures
        crate::text::raised(s).len() == s.len(),
        97 <= s[i] as int <= 122 ==> crate::text::raised(s)[i] as int == s[i] as int - 32,
        !(97 <= s[i] as int <= 122) ==> crate::text::raised(s)[i] == s[i],
{
}

/// A prefix is taken off where the text begins with it.
pub proof fn a_prefix_is_taken_off(prefix: Seq<char>, rest: Seq<char>, s: Seq<char>)
    ensures
        crate::text::after_prefix(prefix + rest, prefix) == Some(rest),
        crate::text::after_prefix(s, prefix) matches Some(tail) ==> s == prefix + tail,
{
    let whole = prefix + rest;
    assert(whole.subrange(0, prefix.len() as int) =~= prefix);
    assert(whole.skip(prefix.len() as int) =~= rest);
    if let Some(tail) = crate::text::after_prefix(s, prefix) {
        assert(s =~= s.subrange(0, prefix.len() as int) + tail);
    }
}

proof fn lemma_first_at(s: Seq<char>, needle: Seq<char>, from: int)
    requires
        0 <= from <= s.len(),
    ensures
        from <= crate::text::first_at(s, needle, from) <= s.len(),
        crate::text::first_at(s, needle, from) < s.len() ==> crate::text::stands_at(
            s,
            needle,
            crate::text::first_at(s, needle, from),
        ),
        forall|i: int|
            from <= i < crate::text::first_at(s, needle, from) ==> !#[trigger] crate::text::stands_at(
                s,
                needle,
                i,
            ),
    decreases s.len() - from,
{
    if from < s.len() && !crate::text::stands_at(s, needle, from) {
        lemma_first_at(s, needle, from + 1);
    }
}

/// A text is cut before the first place that a word stands at, and left whole
/// where there is none.
pub proof fn a_text_is_cut_before_a_word(s: Seq<char>, word: Seq<char>, at: int)
    requires
        word.len() > 0,
        0 <= at <= s.len(),
        at < s.len() ==> at + word.len() <= s.len() && s.subrange(at, at + word.len()) == word,
        forall|i: int|
            0 <= i < at && i + word.len() <= s.len() ==> #[trigger] s.subrange(i, i + word.len())
                != word,
    ensures
        crate::text::before_text(s, word) == s.take(at),
{
    lemma_first_at(s, word, 0);
    let found = crate::text::first_at(s, word, 0);
    if found < at {
        assert(crate::text::stands_at(s, word, found));
        assert(s.subrange(found, found + word.len()) == word);
    }
    if at < found {
        assert(crate::text::stands_at(s, word, at));
    }
}

proof fn lemma_word_length(s: Seq<char>, n: int)
    requires
        0 <= n <= s.len(),
        forall|i: int| 0 <= i < n ==> !crate::text::is_space(#[trigger] s[i]),
        n < s.len() ==> crate::text::is_space(s[n]),
    ensures
        crate::text::word_length(s) == n,
    decreases s.len(),
{
    if n > 0 {
        let rest = s.skip(1);
        assert forall|i: int| 0 <= i < n - 1 implies !crate::text::is_space(
            #[trigger] rest[i],
        ) by {
            assert(rest[i] == s[i + 1]);
        }
        lemma_word_length(rest, n - 1);
    }
}

/// Words stand between white space: the first runs from the first character
/// that is none to the next that is.
pub proof fn words_stand_between_white_space(s: Seq<char>, word: Seq<char>, rest: Seq<char>)
    requires
        crate::text::trimmed_start(s, Trim::Space) == word + rest,
        word.len() > 0,
        forall|i: int| 0 <= i < word.len() ==> !crate::text::is_space(#[trigger] word[i]),
        rest.len() > 0 ==> crate::text::is_space(rest[0]),
    ensures
        crate::text::words(s) == seq![word] + crate::text::words(rest),
{
    let whole = word + rest;
    assert forall|i: int| 0 <= i < word.len() implies !crate::text::is_space(
        #[trigger] whole[i],
    ) by {
        assert(whole[i] == word[i]);
    }
    if rest.len() > 0 {
        assert(whole[word.len() as int] == rest[0]);
    }
    lemma_word_length(whole, word.len() as int);
    assert(whole.take(word.len() as int) =~= word);
    assert(whole.skip(word.len() as int) =~= rest);
}

/// White space alone is no word.
pub proof fn white_space_is_no_word(s: Seq<char>)
    requires
        crate::text::trimmed_start(s, Trim::Space).len() == 0,
    ensures
        crate::text::words(s).len() == 0,
{
}

/// White space is Unicode's: the five controls from a tab on, the space, the
/// next line, and the spaces and separators that are named so.
pub proof fn white_space_is_what_unicode_calls_so(c: char)
    ensures
        crate::text::is_space(c) <==> {
            let n = c as int;
            ||| 0x09 <= n <= 0x0D
            ||| n == 0x20
            ||| n == 0x85
            ||| n == 0xA0
            ||| n == 0x1680
            ||| 0x2000 <= n <= 0x200A
            ||| n == 0x2028
            ||| n == 0x2029
            ||| n == 0x202F
            ||| n == 0x205F
            ||| n == 0x3000
        },
{
}

} // verus!
