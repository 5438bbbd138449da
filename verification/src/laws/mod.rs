//! What the library promises as a whole.
//!
//! The modules state what each function returns. Here stands what those
//! results mean for whoever asked: said of bytes, registers, instructions and
//! texts as the hardware and its documentation have them, and proved of the
//! functions' own contracts.
pub mod accounts;
pub mod bench;
pub mod boot;
pub mod calibration;
pub mod choice;
pub mod console;
pub mod controller;
pub mod counters;
pub mod crosscheck;
pub mod descriptor;
pub mod detection;
pub mod hid;
pub mod kernel;
pub mod lines;
pub mod measures;
pub mod outcomes;
pub mod platform;
pub mod processor;
pub mod report;
pub mod routes;
pub mod session;
pub mod text;
pub mod usb;

use vstd::arithmetic::power2::*;
use vstd::bits::*;
use vstd::prelude::*;

verus! {

/// Whether bytes are the codes of a text's characters, one for one.
pub open spec fn spells(bytes: Seq<u8>, text: Seq<char>) -> bool {
    bytes.len() == text.len() && forall|i: int|
        0 <= i < text.len() ==> (#[trigger] bytes[i]) as int == text[i] as int
}

/// Whether a bit of a register is set, bits counted by their weight.
pub open spec fn holds(word: int, weight: int) -> bool {
    word / weight % 2 == 1
}

/// The byte of an ASCII character is its code.
proof fn lemma_ascii_char(c: char)
    requires
        c as int <= 127,
    ensures
        (c as u8) as int == c as int,
{
    let n: u32 = c as u32;
    assert(n <= 127 ==> n as u8 == n) by (bit_vector);
    assert(c as u8 == n as u8);
}

/// Bytes that spell a text are its ASCII bytes, and the other way round.
pub(crate) proof fn lemma_spells(bytes: Seq<u8>, text: Seq<char>)
    requires
        forall|i: int| 0 <= i < text.len() ==> (#[trigger] text[i]) as int <= 127,
    ensures
        spells(bytes, text) <==> bytes == crate::bytes::ascii(text),
{
    let ascii = crate::bytes::ascii(text);
    assert forall|i: int| 0 <= i < text.len() implies (#[trigger] ascii[i]) as int
        == text[i] as int by {
        let c = text[i];
        assert(c as int <= 127);
        assert(ascii[i] == c as u8);
        lemma_ascii_char(c);
    }
    if spells(bytes, text) {
        assert(bytes =~= ascii);
    }
}

/// A bit of a 32-bit word by its number is the bit of that weight.
pub(crate) proof fn lemma_bit32(word: u32, n: u32)
    requires
        n < 32,
    ensures
        crate::bytes::bit32(word, n) <==> holds(word as int, pow2(n as nat) as int),
{
    lemma_u32_shr_is_div(word, n);
    let shifted = word >> n;
    assert(shifted & 1 == shifted % 2) by (bit_vector);
}

/// A bit of a 64-bit word by its number is the bit of that weight.
pub(crate) proof fn lemma_bit64(word: u64, n: u64)
    requires
        n < 64,
    ensures
        crate::bytes::bit64(word, n) <==> holds(word as int, pow2(n as nat) as int),
{
    lemma_u64_shr_is_div(word, n);
    let shifted = word >> n;
    assert(shifted & 1 == shifted % 2) by (bit_vector);
}

} // verus!
