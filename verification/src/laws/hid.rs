//! What a HID report says, in terms of its bytes.
use crate::hid_report::{Field, KeyboardLayout, PointerLayout};
use vstd::arithmetic::power2::*;
use vstd::bits::*;
use vstd::prelude::*;

verus! {

/// Whether bit `at` of a report is set: bits are counted from the low bit of
/// the first byte, and there are none past the last one.
pub open spec fn bit_set(body: Seq<u8>, at: int) -> bool {
    0 <= at < 8 * body.len() && crate::laws::holds(
        body[at / 8] as int,
        pow2((at % 8) as nat) as int,
    )
}

proof fn lemma_bit_at(body: Seq<u8>, at: int)
    requires
        0 <= at < 8 * body.len(),
    ensures
        crate::hid_report::bit_at(body, at) <==> bit_set(body, at),
{
    let byte = body[at / 8];
    let low = (at % 8) as u8;
    lemma_u8_shr_is_div(byte, low);
    let shifted = byte >> low;
    assert(shifted & 1u8 == shifted % 2) by (bit_vector);
}

proof fn lemma_one_bit(field: Field, body: Seq<u8>, index: int)
    requires
        field.bit_size == 1,
        index >= 0,
        field.bit_offset + index < usize::MAX,
    ensures
        field.reading(body, index) != 0 <==> index < field.count && bit_set(
            body,
            field.bit_offset + index,
        ),
{
    let at = field.bit_offset + index;
    assert(field.start(index) == at) by (nonlinear_arith)
        requires
            field.start(index) == field.bit_offset + index * field.bit_size,
            field.bit_size == 1,
            at == field.bit_offset + index,
    ;
    lemma2_to64();
    if field.readable(body, index) {
        lemma_bit_at(body, at);
        reveal_with_fuel(crate::hid_report::bits_value, 2);
        assert(crate::hid_report::bits_value(body, at, 1) == (if crate::hid_report::bit_at(
            body,
            at,
        ) {
            1nat
        } else {
            0nat
        }));
    }
}

/// Buttons are the bits of the button field in the order HID numbers them:
/// the first is the left one, the second the right, the third the middle.
/// One past the field's count is not held.
pub proof fn buttons_are_left_right_middle(layout: PointerLayout, body: Seq<u8>)
    requires
        layout.buttons matches Some(field) ==> field.bit_size == 1 && field.bit_offset + 2
            < usize::MAX,
    ensures
        match layout.buttons {
            Some(field) => {
                let b = field.bit_offset as int;
                let m = layout.movement(body);
                &&& m.left <==> field.count > 0 && bit_set(body, b)
                &&& m.right <==> field.count > 1 && bit_set(body, b + 1)
                &&& m.middle <==> field.count > 2 && bit_set(body, b + 2)
            },
            None => {
                let m = layout.movement(body);
                !m.left && !m.right && !m.middle
            },
        },
{
    if let Some(field) = layout.buttons {
        lemma_one_bit(field, body, 0);
        lemma_one_bit(field, body, 1);
        lemma_one_bit(field, body, 2);
    }
}

/// A byte read as a signed number.
pub open spec fn signed_byte(byte: u8) -> int {
    if byte < 128 {
        byte as int
    } else {
        byte - 256
    }
}

proof fn lemma_byte(body: Seq<u8>, k: int)
    requires
        0 <= k < body.len(),
    ensures
        crate::hid_report::bits_value(body, 8 * k, 8) == body[k],
{
    let byte = body[k];
    lemma2_to64();
    reveal_with_fuel(crate::hid_report::bits_value, 9);
    assert forall|i: int| 0 <= i < 8 implies crate::hid_report::bit_at(body, #[trigger] (8 * k + i))
        == ((byte >> (i as u8)) & 1u8 == 1u8) by {
        assert((8 * k + i) / 8 == k && (8 * k + i) % 8 == i);
    }
    let at = 8 * k;
    assert(crate::hid_report::bit_at(body, at + 0) == ((byte >> 0u8) & 1u8 == 1u8));
    assert(crate::hid_report::bit_at(body, at + 1) == ((byte >> 1u8) & 1u8 == 1u8));
    assert(crate::hid_report::bit_at(body, at + 2) == ((byte >> 2u8) & 1u8 == 1u8));
    assert(crate::hid_report::bit_at(body, at + 3) == ((byte >> 3u8) & 1u8 == 1u8));
    assert(crate::hid_report::bit_at(body, at + 4) == ((byte >> 4u8) & 1u8 == 1u8));
    assert(crate::hid_report::bit_at(body, at + 5) == ((byte >> 5u8) & 1u8 == 1u8));
    assert(crate::hid_report::bit_at(body, at + 6) == ((byte >> 6u8) & 1u8 == 1u8));
    assert(crate::hid_report::bit_at(body, at + 7) == ((byte >> 7u8) & 1u8 == 1u8));
    assert(byte == (if (byte >> 0u8) & 1u8 == 1u8 { 1u8 } else { 0u8 }) + (if (byte >> 1u8) & 1u8
        == 1u8 { 2u8 } else { 0u8 }) + (if (byte >> 2u8) & 1u8 == 1u8 { 4u8 } else { 0u8 }) + (
    if (byte >> 3u8) & 1u8 == 1u8 { 8u8 } else { 0u8 }) + (if (byte >> 4u8) & 1u8 == 1u8 { 16u8
    } else { 0u8 }) + (if (byte >> 5u8) & 1u8 == 1u8 { 32u8 } else { 0u8 }) + (if (byte >> 6u8)
        & 1u8 == 1u8 { 64u8 } else { 0u8 }) + (if (byte >> 7u8) & 1u8 == 1u8 { 128u8 } else { 0u8
    })) by (bit_vector);
}

/// Whether a field is one byte of a report, at byte `k`.
pub open spec fn is_byte(field: Field, k: int) -> bool {
    field.bit_size == 8 && field.count == 1 && field.bit_offset == 8 * k && field.bit_offset + 8
        <= usize::MAX
}

proof fn lemma_byte_field(field: Field, k: int, body: Seq<u8>)
    requires
        is_byte(field, k),
        0 <= k < body.len(),
    ensures
        field.signed ==> field.reading(body, 0) == signed_byte(body[k]),
        !field.signed ==> field.reading(body, 0) == body[k],
{
    lemma_byte(body, k);
    lemma2_to64();
    assert(field.start(0) == 8 * k) by (nonlinear_arith)
        requires
            field.start(0) == field.bit_offset + 0 * field.bit_size,
            field.bit_offset == 8 * k,
    ;
}

/// A pointer moves by what its own bytes say: across by the X byte, down by
/// the Y byte, and turned by the wheel's, each a signed number. A field that
/// the report does not hold says nothing.
pub proof fn movement_is_what_its_bytes_say(
    layout: PointerLayout,
    x: int,
    y: int,
    wheel: int,
    body: Seq<u8>,
)
    requires
        is_byte(layout.x, x) && layout.x.signed,
        is_byte(layout.y, y) && layout.y.signed,
        layout.wheel matches Some(field) ==> is_byte(field, wheel) && field.signed,
        0 <= x && 0 <= y && 0 <= wheel,
    ensures
        ({
            let m = layout.movement(body);
            &&& x < body.len() ==> m.dx == signed_byte(body[x])
            &&& x >= body.len() ==> m.dx == 0
            &&& y < body.len() ==> m.dy == signed_byte(body[y])
            &&& y >= body.len() ==> m.dy == 0
            &&& layout.wheel is Some && wheel < body.len() ==> m.wheel == signed_byte(body[wheel])
            &&& layout.wheel is None || wheel >= body.len() ==> m.wheel == 0
        }),
{
    if x < body.len() {
        lemma_byte_field(layout.x, x, body);
    }
    if y < body.len() {
        lemma_byte_field(layout.y, y, body);
    }
    if let Some(field) = layout.wheel {
        if wheel < body.len() {
            lemma_byte_field(field, wheel, body);
        }
        assert(field.start(0) == 8 * wheel) by (nonlinear_arith)
            requires
                field.start(0) == field.bit_offset + 0 * field.bit_size,
                field.bit_offset == 8 * wheel,
        ;
    }
    assert(layout.x.start(0) == 8 * x) by (nonlinear_arith)
        requires
            layout.x.start(0) == layout.x.bit_offset + 0 * layout.x.bit_size,
            layout.x.bit_offset == 8 * x,
    ;
    assert(layout.y.start(0) == 8 * y) by (nonlinear_arith)
        requires
            layout.y.start(0) == layout.y.bit_offset + 0 * layout.y.bit_size,
            layout.y.bit_offset == 8 * y,
    ;
}

/// The fields of a numbered report stand behind its number, and only a report
/// that starts with the number is read; an unnumbered one is all fields.
pub proof fn the_report_id_is_no_field(id: u8, report: Seq<u8>)
    ensures
        crate::hid_report::report_body(None, report) == Some(report),
        crate::hid_report::report_body(Some(id), report) is Some <==> report.len() > 0
            && report[0] == id,
        crate::hid_report::report_body(Some(id), report) matches Some(body) ==> body.len()
            == report.len() - 1 && forall|k: int|
            0 <= k < body.len() ==> #[trigger] body[k] == report[k + 1],
{
}

/// A keyboard whose modifiers are one-bit flags and whose keys are bytes is
/// decoded into the boot form: the flags in order in the first byte, a zero,
/// then up to six keys in the order of their slots.
pub proof fn keys_are_the_bytes_of_their_slots(
    layout: KeyboardLayout,
    k: int,
    body: Seq<u8>,
    out: Seq<u8>,
)
    requires
        layout.boot_report(body, out),
        layout.modifiers matches Some(field) ==> field.bit_size == 1 && field.bit_offset + 8
            < usize::MAX,
        layout.keys.bit_size == 8 && !layout.keys.signed,
        layout.keys.bit_offset == 8 * k,
        0 <= k,
        k + layout.keys.count <= body.len(),
        8 * (k + 6) < usize::MAX,
    ensures
        out.len() == 8,
        out[1] == 0,
        forall|slot: int|
            0 <= slot < 6 ==> (#[trigger] out[2 + slot]) == (if slot < layout.keys.count {
                body[k + slot]
            } else {
                0
            }),
        layout.modifiers matches Some(field) ==> forall|i: int|
            0 <= i < 8 ==> (crate::laws::holds(out[0] as int, #[trigger] pow2(i as nat) as int)
                <==> i < field.count && bit_set(body, field.bit_offset + i)),
        layout.modifiers is None ==> out[0] == 0,
{
    assert forall|slot: int| 0 <= slot < 6 implies (#[trigger] out[2 + slot]) == (if slot
        < layout.keys.count {
        body[k + slot]
    } else {
        0
    }) by {
        if slot < layout.keys.count {
            lemma_byte(body, k + slot);
            lemma2_to64();
            assert(layout.keys.start(slot) == 8 * (k + slot)) by (nonlinear_arith)
                requires
                    layout.keys.start(slot) == layout.keys.bit_offset + slot * layout.keys.bit_size,
                    layout.keys.bit_offset == 8 * k,
                    layout.keys.bit_size == 8,
            ;
            assert(layout.keys.readable(body, slot));
        }
        assert(out[2 + slot] == layout.key(body, slot));
    }
    if let Some(field) = layout.modifiers {
        assert forall|i: int| 0 <= i < 8 implies (crate::laws::holds(
            out[0] as int,
            #[trigger] pow2(i as nat) as int,
        ) <==> i < field.count && bit_set(body, field.bit_offset + i)) by {
            lemma_one_bit(field, body, i);
            let byte = out[0];
            let low = i as u8;
            lemma_u8_shr_is_div(byte, low);
            let shifted = byte >> low;
            assert(shifted & 1u8 == shifted % 2) by (bit_vector);
            assert((byte >> low) & 1u8 == 1u8 <==> i < crate::num::min_int(field.count as int, 8)
                && field.reading(body, i) != 0);
        }
    }
}

/// A field of any width spells its number low bit first: bit `j` of the number
/// is bit `j` of the field, and there are no others.
pub proof fn a_value_is_its_bits(body: Seq<u8>, start: int, n: nat, j: nat)
    requires
        0 <= start,
        start + n <= 8 * body.len(),
        j < n,
    ensures
        crate::hid_report::bits_value(body, start, n) < pow2(n),
        crate::laws::holds(
            crate::hid_report::bits_value(body, start, n) as int,
            pow2(j) as int,
        ) <==> bit_set(body, start + j),
    decreases n,
{
    let low = crate::hid_report::bits_value(body, start, (n - 1) as nat);
    let value = crate::hid_report::bits_value(body, start, n);
    let top = (n - 1) as nat;
    crate::hid_report::lemma_bits_value_bound(body, start, n);
    crate::hid_report::lemma_bits_value_bound(body, start, top);
    lemma_bit_at(body, start + top);
    lemma_pow2_pos(j);
    if j == top {
        let weight = pow2(top) as int;
        if crate::hid_report::bit_at(body, start + top) {
            vstd::arithmetic::div_mod::lemma_hoist_over_denominator(low as int, 1, weight as nat);
        }
        vstd::arithmetic::div_mod::lemma_basic_div(low as int, weight);
    } else {
        a_value_is_its_bits(body, start, top, j);
        let weight = pow2(j) as int;
        let rest = pow2((top - j - 1) as nat) as int;
        lemma_pow2_adds(j, (top - j) as nat);
        lemma_pow2_unfold((top - j) as nat);
        if crate::hid_report::bit_at(body, start + top) {
            assert(pow2(top) == weight * (2 * rest));
            assert(weight * (2 * rest) == (2 * rest) * weight) by (nonlinear_arith);
            vstd::arithmetic::div_mod::lemma_hoist_over_denominator(
                low as int,
                2 * rest,
                weight as nat,
            );
            assert(value as int / weight == low as int / weight + 2 * rest);
        }
    }
}

/// A value that is signed, or takes 32 bits, is negative exactly where its top
/// bit is set, and then short of what its bits spell by its whole range; one
/// that is not is what its bits spell. One that is not in the report is zero.
pub proof fn a_signed_value_is_negative_by_its_top_bit(field: Field, body: Seq<u8>, index: int)
    requires
        0 <= index,
        0 < field.bit_size <= 32,
    ensures
        ({
            let n = field.bit_size as nat;
            let first = field.bit_offset + index * field.bit_size;
            let raw = crate::hid_report::bits_value(body, first, n) as int;
            let there = index < field.count && first + n <= 8 * body.len() && first + n
                <= usize::MAX + 1;
            let reading = field.reading(body, index);
            &&& !there ==> reading == 0
            &&& there && !field.signed && n < 32 ==> reading == raw
            &&& there && (field.signed || n == 32) ==> (reading < 0 <==> bit_set(
                body,
                first + n - 1,
            )) && reading == (if reading < 0 {
                raw - pow2(n)
            } else {
                raw
            })
        }),
{
    let n = field.bit_size as nat;
    let first = field.bit_offset + index * field.bit_size;
    assert(0 <= index * field.bit_size) by (nonlinear_arith)
        requires
            0 <= index,
            0 < field.bit_size,
    ;
    if first + n <= 8 * body.len() {
        let raw = crate::hid_report::bits_value(body, first, n) as int;
        a_value_is_its_bits(body, first, n, (n - 1) as nat);
        let half = pow2((n - 1) as nat) as int;
        lemma_pow2_pos((n - 1) as nat);
        lemma_pow2_unfold(n);
        if raw < half {
            vstd::arithmetic::div_mod::lemma_basic_div(raw, half);
        } else {
            vstd::arithmetic::div_mod::lemma_hoist_over_denominator(raw - half, 1, half as nat);
            vstd::arithmetic::div_mod::lemma_basic_div(raw - half, half);
        }
    }
}

} // verus!
