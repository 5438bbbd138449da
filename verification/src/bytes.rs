//! Bytes and the registers they are packed in.
use crate::text::chars_of;
use vstd::prelude::*;
use vstd::slice::slice_subrange;
use vstd::utf8::*;

verus! {

/// Bit `n` of a word.
pub open spec fn bit32(word: u32, n: u32) -> bool {
    (word >> n) & 1 == 1
}

/// Bit `n` of a doubleword.
pub open spec fn bit64(word: u64, n: u64) -> bool {
    (word >> n) & 1 == 1
}

/// Tests one bit of a word.
pub fn test32(word: u32, n: u32) -> (set: bool)
    requires
        n < 32,
    ensures
        set == bit32(word, n),
{
    (word >> n) & 1 == 1
}

/// Tests one bit of a doubleword.
pub fn test64(word: u64, n: u64) -> (set: bool)
    requires
        n < 64,
    ensures
        set == bit64(word, n),
{
    (word >> n) & 1 == 1
}

/// The bytes of a word, low byte first.
pub open spec fn le_bytes(word: u32) -> Seq<u8> {
    seq![
        (word % 0x100) as u8,
        (word / 0x100 % 0x100) as u8,
        (word / 0x1_0000 % 0x100) as u8,
        (word / 0x100_0000) as u8,
    ]
}

/// Appends the bytes of a word, low byte first.
pub fn push_le_bytes(out: &mut Vec<u8>, word: u32)
    ensures
        final(out)@ == old(out)@ + le_bytes(word),
{
    out.push((word % 0x100) as u8);
    out.push((word / 0x100 % 0x100) as u8);
    out.push((word / 0x1_0000 % 0x100) as u8);
    out.push((word / 0x100_0000) as u8);
    assert(out@ =~= old(out)@ + le_bytes(word));
}

/// Packs three words into twelve bytes, each low byte first.
pub fn twelve_bytes(a: u32, b: u32, c: u32) -> (out: [u8; 12])
    ensures
        out@ == le_bytes(a) + le_bytes(b) + le_bytes(c),
{
    let out: [u8; 12] = [
        (a % 0x100) as u8,
        (a / 0x100 % 0x100) as u8,
        (a / 0x1_0000 % 0x100) as u8,
        (a / 0x100_0000) as u8,
        (b % 0x100) as u8,
        (b / 0x100 % 0x100) as u8,
        (b / 0x1_0000 % 0x100) as u8,
        (b / 0x100_0000) as u8,
        (c % 0x100) as u8,
        (c / 0x100 % 0x100) as u8,
        (c / 0x1_0000 % 0x100) as u8,
        (c / 0x100_0000) as u8,
    ];
    assert(out@ =~= le_bytes(a) + le_bytes(b) + le_bytes(c));
    out
}

/// The bytes of a text whose characters are all ASCII.
pub open spec fn ascii(s: Seq<char>) -> Seq<u8> {
    s.map_values(|c: char| c as u8)
}

/// Whether these bytes are the ASCII text `text`.
pub fn bytes_are(bytes: &[u8], text: &str) -> (equal: bool)
    ensures
        equal == (bytes@ == ascii(text@)),
{
    let chars: Vec<char> = chars_of(text);
    if bytes.len() != chars.len() {
        return false;
    }
    let mut i: usize = 0;
    while i < bytes.len()
        invariant
            i <= bytes.len(),
            bytes.len() == chars.len(),
            chars@ == text@,
            forall|k: int| 0 <= k < i ==> bytes@[k] == ascii(text@)[k],
        decreases bytes.len() - i,
    {
        if bytes[i] != chars[i] as u8 {
            assert(bytes@[i as int] != ascii(text@)[i as int]);
            return false;
        }
        i = i + 1;
    }
    assert(bytes@ =~= ascii(text@));
    true
}

/// `core::str::from_utf8` reads bytes as text exactly where they are valid
/// UTF-8, and the text it gives back encodes to those bytes.
#[verifier::external_body]
pub(crate) fn utf8_text(bytes: &[u8]) -> (text: Option<&str>)
    ensures
        match text {
            Some(text) => valid_utf8(bytes@) && encode_utf8(text@) == bytes@,
            None => !valid_utf8(bytes@),
        },
{
    core::str::from_utf8(bytes).ok()
}

/// What `String::from_utf8_lossy` makes of these bytes.
pub uninterp spec fn lossy_text(bytes: Seq<u8>) -> Seq<char>;

/// `String::from_utf8_lossy` reads bytes as text, putting replacement
/// characters where they are not UTF-8. Bytes that are valid UTF-8 come back
/// as the text they encode; what stands for the others is left to it.
#[verifier::external_body]
pub(crate) fn utf8_lossy(bytes: &[u8]) -> (text: String)
    ensures
        text@ == lossy_text(bytes@),
        valid_utf8(bytes@) ==> encode_utf8(text@) == bytes@,
{
    String::from_utf8_lossy(bytes).into_owned()
}

/// `bytes` up to the first zero.
pub open spec fn before_nul(bytes: Seq<u8>) -> Seq<u8>
    decreases bytes.len(),
{
    if bytes.len() == 0 || bytes[0] == 0 {
        Seq::empty()
    } else {
        seq![bytes[0]] + before_nul(bytes.skip(1))
    }
}

/// Cuts bytes at the first zero.
pub fn until_nul(bytes: &[u8]) -> (text: &[u8])
    ensures
        text@ == before_nul(bytes@),
{
    let mut end: usize = 0;
    assert(bytes@.skip(0) =~= bytes@);
    assert(bytes@.take(0) + before_nul(bytes@) =~= before_nul(bytes@));
    while end < bytes.len() && bytes[end] != 0
        invariant
            end <= bytes.len(),
            before_nul(bytes@) == bytes@.take(end as int) + before_nul(bytes@.skip(end as int)),
        decreases bytes.len() - end,
    {
        assert(bytes@.skip(end as int).skip(1) =~= bytes@.skip(end + 1));
        assert(bytes@.take(end as int) + (seq![bytes@[end as int]] + before_nul(
            bytes@.skip(end + 1),
        )) =~= bytes@.take(end + 1) + before_nul(bytes@.skip(end + 1)));
        end = end + 1;
    }
    let text = slice_subrange(bytes, 0, end);
    assert(before_nul(bytes@.skip(end as int)) =~= Seq::<u8>::empty());
    assert(text@ =~= before_nul(bytes@));
    text
}

/// What stands before the first zero is no longer than the whole, and a zero
/// follows it where it is shorter.
pub proof fn lemma_before_nul(bytes: Seq<u8>)
    ensures
        before_nul(bytes).len() <= bytes.len(),
        before_nul(bytes) == bytes.take(before_nul(bytes).len() as int),
        before_nul(bytes).len() < bytes.len() ==> bytes[before_nul(bytes).len() as int] == 0,
    decreases bytes.len(),
{
    if bytes.len() > 0 && bytes[0] != 0 {
        let rest = bytes.skip(1);
        lemma_before_nul(rest);
        assert(before_nul(bytes) =~= bytes.take(before_nul(bytes).len() as int));
    } else {
        assert(before_nul(bytes) =~= bytes.take(0));
    }
}

} // verus!
