//! Finding the pointer and the keyboard in a HID report descriptor.
//!
//! A USB keyboard or mouse can be driven through its boot protocol, a fixed
//! layout that needs no descriptor. An I2C-HID device has none: the only way
//! to know what a byte of a report means is to read the descriptor the device
//! hands over.
//!
//! What is looked for is the input report carrying X and Y as relative
//! variables, together with the buttons that share it, and the report
//! carrying the array of held keys. A digitizer collection's X and Y are
//! absolute contact coordinates, so a report declared inside one is never
//! taken for a pointer.
//!
//! Item encoding follows the USB-IF *Device Class Definition for Human
//! Interface Devices*, section 6.2.2.
use crate::num::{div_ceil_8, min_usize, saturating_mul};
use vstd::arithmetic::power2::*;
use vstd::prelude::*;
use vstd::slice::slice_subrange;

verus! {

/// Usage page of X, Y and the wheel.
pub const PAGE_GENERIC_DESKTOP: u16 = 0x01;

/// Usage page of the keyboard and keypad. Its usages are the keycodes.
pub const PAGE_KEYBOARD: u16 = 0x07;

/// Usage page of the buttons.
pub const PAGE_BUTTON: u16 = 0x09;

/// Usage page of digitizers.
pub const PAGE_DIGITIZER: u16 = 0x0D;

/// The first of the eight modifier usages, `LeftControl`.
pub const MODIFIER_FIRST: u32 = 0xE0;

/// The last of the eight modifier usages, `RightGUI`.
pub const MODIFIER_LAST: u32 = 0xE7;

/// The X axis, on the generic desktop page.
pub const USAGE_X: u32 = 0x0030;

/// The Y axis, on the generic desktop page.
pub const USAGE_Y: u32 = 0x0031;

/// The wheel, on the generic desktop page.
pub const USAGE_WHEEL: u32 = 0x0038;

/// How many usages one main item may have queued. A longer list is cut off
/// rather than refused: the fields looked for come first in every descriptor
/// that has them.
pub const MAX_USAGES: usize = 16;

/// How many distinct report IDs a descriptor may define. A descriptor with
/// more is parsed up to the limit rather than refused.
pub const MAX_REPORTS: usize = 16;

// ---------------------------------------------------------------------------
// Reading values out of a report
// ---------------------------------------------------------------------------

/// Where one value sits inside a report.
#[derive(Debug, Clone, Copy, PartialEq, Eq, Structural)]
pub struct Field {
    /// Bits from the start of the report body, that is, after the report ID
    /// byte where there is one.
    pub bit_offset: usize,
    pub bit_size: usize,
    /// How many consecutive values of this size the field holds. One for X or
    /// Y; the button count for a button field.
    pub count: usize,
    /// Whether the value is two's complement. Taken from the logical minimum
    /// being negative, which is how the descriptor says so.
    pub signed: bool,
    /// Whether it reports a delta rather than a position.
    pub relative: bool,
}

impl Default for Field {
    fn default() -> (field: Field)
        ensures
            field == (Field {
                bit_offset: 0,
                bit_size: 0,
                count: 0,
                signed: false,
                relative: false,
            }),
    {
        Field { bit_offset: 0, bit_size: 0, count: 0, signed: false, relative: false }
    }
}

/// Whether bit `at` of a report body is set, counting from the low bit of the
/// first byte.
pub open spec fn bit_at(body: Seq<u8>, at: int) -> bool {
    (body[at / 8] >> ((at % 8) as u8)) & 1u8 == 1u8
}

/// The number that the `n` bits from `start` spell, low bit first.
pub open spec fn bits_value(body: Seq<u8>, start: int, n: nat) -> nat
    decreases n,
{
    if n == 0 {
        0
    } else {
        bits_value(body, start, (n - 1) as nat) + (if bit_at(body, start + n - 1) {
            pow2((n - 1) as nat)
        } else {
            0
        })
    }
}

/// `raw` read as an `n`-bit two's complement number.
pub open spec fn twos_complement(raw: nat, n: nat) -> int {
    if n > 0 && raw >= pow2((n - 1) as nat) {
        raw - pow2(n)
    } else {
        raw as int
    }
}

impl Field {
    /// The first bit of the `index`th value.
    pub open spec fn start(self, index: int) -> int {
        self.bit_offset + index * self.bit_size
    }

    /// Whether the `index`th value exists, has a width that can be read, and
    /// lies wholly inside `body`.
    pub open spec fn readable(self, body: Seq<u8>, index: int) -> bool {
        &&& index < self.count
        &&& 0 < self.bit_size <= 32
        &&& self.start(index) + self.bit_size <= 8 * body.len()
        &&& self.start(index) + self.bit_size <= usize::MAX + 1
    }

    /// What the `index`th value of this field reads as in `body`.
    pub open spec fn reading(self, body: Seq<u8>, index: int) -> int {
        if !self.readable(body, index) {
            0
        } else {
            let raw = bits_value(body, self.start(index), self.bit_size as nat);
            if self.signed || self.bit_size == 32 {
                twos_complement(raw, self.bit_size as nat)
            } else {
                raw as int
            }
        }
    }

    /// Reads this field's `index`th value out of a report body.
    ///
    /// `body` excludes the report ID. Returns zero for a field that runs past
    /// the end of the report, which is what a short report from a device that
    /// pads inconsistently looks like, and a zero delta is the harmless
    /// reading.
    pub fn value(&self, body: &[u8], index: usize) -> (value: i32)
        ensures
            value == self.reading(body@, index as int),
    {
        if index >= self.count || self.bit_size == 0 || self.bit_size > 32 {
            return 0;
        }
        // Checked: the offsets come from a descriptor the device wrote, and
        // it can declare sizes whose products do not fit.
        let skip: usize = match index.checked_mul(self.bit_size) {
            Some(skip) => skip,
            None => return 0,
        };
        let start: usize = match self.bit_offset.checked_add(skip) {
            Some(start) => start,
            None => return 0,
        };
        let mut raw: u64 = 0;
        let mut weight: u64 = 1;
        let mut bit: usize = 0;
        proof {
            lemma2_to64();
        }
        while bit < self.bit_size
            invariant
                index < self.count,
                0 < self.bit_size <= 32,
                bit <= self.bit_size,
                start == self.start(index as int),
                bit > 0 ==> start + bit <= 8 * body.len(),
                bit > 0 ==> start + bit <= usize::MAX + 1,
                weight == pow2(bit as nat),
                raw == bits_value(body@, start as int, bit as nat),
                raw < weight,
                weight <= 0x1_0000_0000,
            decreases self.bit_size - bit,
        {
            let at: usize = match start.checked_add(bit) {
                Some(at) => at,
                None => return 0,
            };
            if at / 8 >= body.len() {
                return 0;
            }
            let byte: u8 = body[at / 8];
            let low: u8 = (at % 8) as u8;
            proof {
                lemma_pow2_unfold((bit + 1) as nat);
                lemma_pow2_strictly_increases(bit as nat, 32);
                lemma2_to64();
            }
            if (byte >> low) & 1u8 == 1u8 {
                raw = raw + weight;
            }
            weight = weight * 2;
            bit = bit + 1;
        }
        proof {
            lemma2_to64();
            lemma_pow2_unfold(self.bit_size as nat);
        }
        if (self.signed || self.bit_size == 32) && raw >= weight / 2 {
            // Without this an eight-bit -1 reads as 255, and a cursor moves
            // only right and down.
            (raw as i64 - weight as i64) as i32
        } else {
            proof {
                if self.bit_size < 32 {
                    lemma_pow2_strictly_increases(self.bit_size as nat, 32);
                    if self.bit_size < 31 {
                        lemma_pow2_strictly_increases(self.bit_size as nat, 31);
                    }
                }
            }
            raw as i32
        }
    }

    /// Whether the `index`th bit of a bitmap field is set.
    pub fn bit(&self, body: &[u8], index: usize) -> (set: bool)
        ensures
            set == (self.reading(body@, index as int) != 0),
    {
        self.value(body, index) != 0
    }
}

/// Laws of a field's reading.
///
/// A signed field never reads outside its two's complement range, an unsigned
/// one narrower than 32 bits never below zero, and a field that runs past the
/// end of the report reads zero.
pub proof fn field_reading_in_range(field: Field, body: Seq<u8>, index: int)
    ensures
        0 < field.bit_size <= 32 && field.signed ==> -(pow2((field.bit_size - 1) as nat) as int)
            <= field.reading(body, index) < pow2((field.bit_size - 1) as nat),
        0 < field.bit_size < 32 && !field.signed ==> 0 <= field.reading(body, index) < pow2(
            field.bit_size as nat,
        ),
        field.start(index) + field.bit_size > 8 * body.len() ==> field.reading(body, index) == 0,
{
    lemma2_to64();
    if 0 < field.bit_size <= 32 {
        lemma_pow2_unfold(field.bit_size as nat);
        lemma_pow2_pos((field.bit_size - 1) as nat);
        if field.readable(body, index) {
            lemma_bits_value_bound(body, field.start(index), field.bit_size as nat);
        }
    }
}

/// `n` bits spell a number below two to the `n`.
pub proof fn lemma_bits_value_bound(body: Seq<u8>, start: int, n: nat)
    ensures
        bits_value(body, start, n) < pow2(n),
    decreases n,
{
    lemma2_to64();
    if n > 0 {
        lemma_bits_value_bound(body, start, (n - 1) as nat);
        lemma_pow2_unfold(n);
    }
}

// ---------------------------------------------------------------------------
// Decoding whole reports
// ---------------------------------------------------------------------------

/// The part of a report that holds the fields: all of it where the layout has
/// no report ID, what follows the ID where the report starts with it, and
/// nothing where it belongs to another collection.
pub open spec fn report_body(report_id: Option<u8>, report: Seq<u8>) -> Option<Seq<u8>> {
    match report_id {
        None => Some(report),
        Some(id) => if report.len() > 0 && report[0] == id {
            Some(report.subrange(1, report.len() as int))
        } else {
            None
        },
    }
}

fn body_of(report_id: Option<u8>, report: &[u8]) -> (body: Option<&[u8]>)
    ensures
        match body {
            Some(body) => report_body(report_id, report@) == Some(body@),
            None => report_body(report_id, report@) is None,
        },
{
    match report_id {
        Some(id) => {
            if report.len() == 0 || report[0] != id {
                None
            } else {
                Some(slice_subrange(report, 1, report.len()))
            }
        },
        None => Some(report),
    }
}

/// One decoded pointer report.
#[derive(Debug, Clone, Copy, PartialEq, Eq, Structural)]
pub struct Movement {
    pub dx: i32,
    pub dy: i32,
    pub wheel: i32,
    pub left: bool,
    pub right: bool,
    pub middle: bool,
}

impl Default for Movement {
    fn default() -> (movement: Movement)
        ensures
            movement == (Movement {
                dx: 0,
                dy: 0,
                wheel: 0,
                left: false,
                right: false,
                middle: false,
            }),
    {
        Movement { dx: 0, dy: 0, wheel: 0, left: false, right: false, middle: false }
    }
}

/// The report that carries a cursor, and where its values are.
#[derive(Debug, Clone, Copy, PartialEq, Eq, Structural)]
pub struct PointerLayout {
    /// The report ID, or `None` for a descriptor that uses none. A device
    /// with several reports prefixes each with its ID; one with a single
    /// unnumbered report does not, and reading a byte that is not there
    /// shifts every field by eight bits.
    pub report_id: Option<u8>,
    /// Total size of the report body in bytes, ID excluded.
    pub body_bytes: usize,
    pub x: Field,
    pub y: Field,
    pub buttons: Option<Field>,
    pub wheel: Option<Field>,
}

impl PointerLayout {
    /// Whether button `index` reads as held in `body`.
    pub open spec fn held(self, body: Seq<u8>, index: int) -> bool {
        match self.buttons {
            Some(field) => field.reading(body, index) != 0,
            None => false,
        }
    }

    /// The movement that `body` spells.
    pub open spec fn movement(self, body: Seq<u8>) -> Movement {
        Movement {
            dx: self.x.reading(body, 0) as i32,
            dy: self.y.reading(body, 0) as i32,
            wheel: match self.wheel {
                Some(field) => field.reading(body, 0) as i32,
                None => 0,
            },
            left: self.held(body, 0),
            right: self.held(body, 1),
            middle: self.held(body, 2),
        }
    }

    /// Decodes a report into a movement.
    ///
    /// `report` includes the report ID byte when the layout has one. Returns
    /// `None` for a report belonging to a different collection: a touchpad
    /// interleaves its digitizer reports with its mouse reports, and decoding
    /// one as the other produces a cursor that jumps.
    pub fn decode(&self, report: &[u8]) -> (movement: Option<Movement>)
        ensures
            movement == (match report_body(self.report_id, report@) {
                Some(body) => Some(self.movement(body)),
                None => None,
            }),
    {
        let body: &[u8] = match body_of(self.report_id, report) {
            Some(body) => body,
            None => return None,
        };
        Some(
            Movement {
                dx: self.x.value(body, 0),
                dy: self.y.value(body, 0),
                wheel: match self.wheel {
                    Some(field) => field.value(body, 0),
                    None => 0,
                },
                left: self.button(body, 0),
                right: self.button(body, 1),
                middle: self.button(body, 2),
            },
        )
    }

    fn button(&self, body: &[u8], index: usize) -> (held: bool)
        ensures
            held == self.held(body@, index as int),
    {
        match self.buttons {
            Some(field) => index < field.count && field.bit(body, index),
            None => false,
        }
    }
}

/// The report that carries keystrokes, and where they are.
///
/// A pointer's fields are variables, one value per control at a fixed place;
/// the keys are an array, a list of the usages currently held. Six slots of
/// eight bits is the usual shape, and an empty slot is zero.
#[derive(Debug, Clone, Copy, PartialEq, Eq, Structural)]
pub struct KeyboardLayout {
    pub report_id: Option<u8>,
    pub body_bytes: usize,
    /// The modifier bitmap: control, shift, alt and GUI, left and right.
    pub modifiers: Option<Field>,
    /// The held-key slots. Each value is a HID usage, not a scancode.
    pub keys: Field,
}

/// The byte whose bit `i` is set exactly where `i` is below `n` and the
/// field's `i`th value is not zero.
pub open spec fn is_bitmap(byte: u8, field: Field, body: Seq<u8>, n: int) -> bool {
    forall|i: u8|
        i < 8 ==> ((#[trigger] (byte >> i)) & 1u8 == 1u8 <==> i < n && field.reading(body, i as int)
            != 0)
}

impl KeyboardLayout {
    /// The usage in key slot `slot`, where it fits a boot-protocol byte.
    pub open spec fn key(self, body: Seq<u8>, slot: int) -> u8 {
        let usage = self.keys.reading(body, slot);
        if slot < self.keys.count && 0 <= usage < 256 {
            usage as u8
        } else {
            0
        }
    }

    /// Whether `out` is the boot-protocol form of `body`: the modifier bitmap,
    /// a reserved zero, then six key slots.
    pub open spec fn boot_report(self, body: Seq<u8>, out: Seq<u8>) -> bool {
        &&& out.len() == 8
        &&& match self.modifiers {
            Some(field) => is_bitmap(out[0], field, body, crate::num::min_int(field.count as int, 8)),
            None => out[0] == 0,
        }
        &&& out[1] == 0
        &&& forall|slot: int| 0 <= slot < 6 ==> out[2 + slot] == #[trigger] self.key(body, slot)
    }

    /// Reads the held keys out of a report, in boot-protocol shape: the
    /// eight-byte layout a boot keyboard sends, with modifiers, a reserved
    /// byte, then six usages.
    pub fn decode(&self, report: &[u8]) -> (keys: Option<[u8; 8]>)
        ensures
            match report_body(self.report_id, report@) {
                Some(body) => keys matches Some(out) && self.boot_report(body, out@),
                None => keys is None,
            },
    {
        let body: &[u8] = match body_of(self.report_id, report) {
            Some(body) => body,
            None => return None,
        };
        let mut out: [u8; 8] = [0u8; 8];
        if let Some(modifiers) = self.modifiers {
            let n: usize = min_usize(modifiers.count, 8);
            let mut bits: u8 = 0;
            let mut index: usize = 0;
            assert(forall|i: u8| i < 8 ==> (#[trigger] (0u8 >> i)) & 1u8 != 1u8) by (bit_vector);
            while index < n
                invariant
                    index <= n <= 8,
                    is_bitmap(bits, modifiers, body@, index as int),
                decreases n - index,
            {
                if modifiers.bit(body, index) {
                    let low: u8 = index as u8;
                    let ghost before = bits;
                    bits = bits | (1u8 << low);
                    assert(forall|i: u8|
                        i < 8 ==> ((#[trigger] (bits >> i)) & 1u8 == 1u8 <==> i == low || (before >> i)
                            & 1u8 == 1u8)) by (bit_vector)
                        requires
                            low < 8,
                            bits == before | (1u8 << low),
                    ;
                }
                index = index + 1;
            }
            out[0] = bits;
        }
        let n: usize = min_usize(self.keys.count, 6);
        let ghost first = out[0];
        let mut slot: usize = 0;
        while slot < n
            invariant
                slot <= n,
                n == crate::num::min_int(self.keys.count as int, 6),
                out[0] == first,
                out[1] == 0,
                forall|k: int| 0 <= k < slot ==> out[2 + k] == #[trigger] self.key(body@, k),
                forall|k: int| slot <= k < 6 ==> out[#[trigger] (2 + k)] == 0,
            decreases n - slot,
        {
            let usage: i32 = self.keys.value(body, slot);
            let byte: u8 = if 0 <= usage && usage < 256 {
                usage as u8
            } else {
                0
            };
            out[2 + slot] = byte;
            slot = slot + 1;
        }
        Some(out)
    }
}

// ---------------------------------------------------------------------------
// The items of a descriptor
// ---------------------------------------------------------------------------

/// One short item: its kind (main, global or local), its tag, how many data
/// bytes it has and what they spell.
#[derive(Debug, Clone, Copy, PartialEq, Eq, Structural)]
pub struct Item {
    pub kind: u8,
    pub tag: u8,
    pub size: usize,
    pub value: u32,
}

/// The prefix of a long item.
pub const LONG_ITEM: u8 = 0xFE;

/// How many data bytes a short item with this prefix has.
pub open spec fn item_size(prefix: u8) -> int {
    if prefix % 4 == 3 {
        4
    } else {
        (prefix % 4) as int
    }
}

/// Data byte `k` of an item with `size` of them, at `at` in `d`.
pub open spec fn item_byte(d: Seq<u8>, at: int, size: int, k: int) -> int {
    if k < size {
        d[at + k] as int
    } else {
        0
    }
}

/// The number that an item's data bytes spell, low byte first.
pub open spec fn item_value(d: Seq<u8>, at: int, size: int) -> int {
    item_byte(d, at, size, 0) + 0x100 * item_byte(d, at, size, 1) + 0x1_0000 * item_byte(
        d,
        at,
        size,
        2,
    ) + 0x100_0000 * item_byte(d, at, size, 3)
}

/// The short item whose prefix is `d[at]`.
pub open spec fn item_at(d: Seq<u8>, at: int) -> Item {
    Item {
        kind: (d[at] / 4) % 4,
        tag: d[at] / 16,
        size: item_size(d[at]) as usize,
        value: item_value(d, at + 1, item_size(d[at])) as u32,
    }
}

impl Item {
    /// The item's data read as a signed number of the item's own width: a
    /// one-byte 0x81 is -127, not 129.
    pub open spec fn signed_value(self) -> int {
        twos_complement(self.value as nat, 8 * self.size as nat)
    }

    fn signed(&self) -> (value: i32)
        requires
            self.size <= 2 || self.size == 4,
            self.value < pow2(8 * self.size as nat),
        ensures
            value == self.signed_value(),
    {
        proof {
            lemma2_to64();
        }
        if self.size == 1 && self.value >= 0x80 {
            (self.value as i64 - 0x100) as i32
        } else if self.size == 2 && self.value >= 0x8000 {
            (self.value as i64 - 0x1_0000) as i32
        } else if self.size == 4 && self.value >= 0x8000_0000 {
            (self.value as i64 - 0x1_0000_0000) as i32
        } else {
            self.value as i32
        }
    }
}

fn data_byte(d: &[u8], at: usize, size: usize, k: usize) -> (byte: u32)
    requires
        at + size <= d.len(),
    ensures
        byte == item_byte(d@, at as int, size as int, k as int),
        byte < 0x100,
{
    if k < size {
        d[at + k] as u32
    } else {
        0
    }
}

/// Reads the short item whose prefix is at `at`, where its data is all there.
fn read_item(d: &[u8], at: usize) -> (item: Option<Item>)
    requires
        at < d.len(),
    ensures
        match item {
            Some(item) => at + 1 + item_size(d@[at as int]) <= d.len() && item == item_at(
                d@,
                at as int,
            ) && item.size == item_size(d@[at as int]) && item.value < pow2(8 * item.size as nat),
            None => at + 1 + item_size(d@[at as int]) > d.len(),
        },
{
    let prefix: u8 = d[at];
    let size: usize = if prefix % 4 == 3 {
        4
    } else {
        (prefix % 4) as usize
    };
    if size > d.len() - at - 1 {
        return None;
    }
    proof {
        lemma2_to64();
    }
    let data: usize = at + 1;
    let value: u32 = data_byte(d, data, size, 0) + 0x100 * data_byte(d, data, size, 1) + 0x1_0000
        * data_byte(d, data, size, 2) + 0x100_0000 * data_byte(d, data, size, 3);
    Some(Item { kind: (prefix / 4) % 4, tag: prefix / 16, size, value })
}

// ---------------------------------------------------------------------------
// The state that items change
// ---------------------------------------------------------------------------

/// Global item state, which persists across main items until changed.
#[derive(Debug, Clone, Copy, PartialEq, Eq, Structural)]
pub struct Globals {
    pub usage_page: u16,
    pub logical_minimum: i32,
    pub report_size: usize,
    pub report_count: usize,
    pub report_id: Option<u8>,
}

impl Globals {
    /// The state before the first item.
    pub open spec fn initial() -> Globals {
        Globals {
            usage_page: 0,
            logical_minimum: 0,
            report_size: 0,
            report_count: 0,
            report_id: None,
        }
    }
}

impl Default for Globals {
    fn default() -> (globals: Globals)
        ensures
            globals == Globals::initial(),
    {
        Globals {
            usage_page: 0,
            logical_minimum: 0,
            report_size: 0,
            report_count: 0,
            report_id: None,
        }
    }
}

/// Local item state, which is cleared after every main item.
#[derive(Debug)]
pub struct Locals {
    pub usages: Vec<u32>,
    pub minimum: Option<u32>,
    pub maximum: Option<u32>,
}

/// What the local item state holds.
#[verifier::ext_equal]
pub struct LocalsView {
    pub usages: Seq<u32>,
    pub minimum: Option<u32>,
    pub maximum: Option<u32>,
}

impl LocalsView {
    /// No usages and no range.
    pub open spec fn cleared() -> LocalsView {
        LocalsView { usages: Seq::empty(), minimum: None, maximum: None }
    }

    /// One more usage, where there is room for it.
    pub open spec fn with_usage(self, usage: u32) -> LocalsView {
        if self.usages.len() < MAX_USAGES {
            LocalsView { usages: self.usages.push(usage), ..self }
        } else {
            self
        }
    }
}

impl View for Locals {
    type V = LocalsView;

    open spec fn view(&self) -> LocalsView {
        LocalsView { usages: self.usages@, minimum: self.minimum, maximum: self.maximum }
    }
}

impl Default for Locals {
    fn default() -> (locals: Locals)
        ensures
            locals@ == LocalsView::cleared(),
    {
        Locals { usages: Vec::new(), minimum: None, maximum: None }
    }
}

impl Locals {
    /// Queues a usage for the next main item, where there is room for it.
    pub fn push(&mut self, usage: u32)
        ensures
            final(self)@ == old(self)@.with_usage(usage),
    {
        if self.usages.len() < MAX_USAGES {
            self.usages.push(usage);
        }
    }
}

/// What is known about one candidate report so far.
#[derive(Debug, Clone, Copy, PartialEq, Eq, Structural)]
pub struct Candidate {
    pub report_id: Option<u8>,
    /// Input bits declared so far.
    pub bits: usize,
    pub x: Option<Field>,
    pub y: Option<Field>,
    pub buttons: Option<Field>,
    pub wheel: Option<Field>,
    pub modifiers: Option<Field>,
    pub keys: Option<Field>,
    /// Whether part of it was declared inside a digitizer collection. A
    /// digitizer's X and Y are absolute contact coordinates, and treating
    /// them as a delta sends the cursor to the corner.
    pub digitizer: bool,
}

impl Candidate {
    /// A report nothing has been declared for.
    pub open spec fn empty(report_id: Option<u8>) -> Candidate {
        Candidate {
            report_id,
            bits: 0,
            x: None,
            y: None,
            buttons: None,
            wheel: None,
            modifiers: None,
            keys: None,
            digitizer: false,
        }
    }

    /// A report that carries a relative pointer.
    pub open spec fn is_pointer(self) -> bool {
        self.x is Some && self.y is Some && !self.digitizer
    }

    pub fn new(report_id: Option<u8>) -> (candidate: Candidate)
        ensures
            candidate == Candidate::empty(report_id),
    {
        Candidate {
            report_id,
            bits: 0,
            x: None,
            y: None,
            buttons: None,
            wheel: None,
            modifiers: None,
            keys: None,
            digitizer: false,
        }
    }

    /// Whether the report carries a relative pointer.
    pub fn complete(&self) -> (complete: bool)
        ensures
            complete == self.is_pointer(),
    {
        self.x.is_some() && self.y.is_some() && !self.digitizer
    }

    /// Whether the report carries keystrokes.
    pub fn is_keyboard(&self) -> (keyboard: bool)
        ensures
            keyboard == (self.keys is Some),
    {
        self.keys.is_some()
    }
}

// ---------------------------------------------------------------------------
// What one input item adds to its report
// ---------------------------------------------------------------------------

/// The field an input item declares for its `index`th usage.
pub open spec fn axis_field(c: Candidate, g: Globals, index: int, relative: bool) -> Field {
    Field {
        bit_offset: crate::num::capped(
            c.bits + crate::num::capped(index * g.report_size, usize::MAX as int),
            usize::MAX as int,
        ) as usize,
        bit_size: g.report_size,
        count: 1,
        signed: g.logical_minimum < 0,
        relative,
    }
}

/// The unsigned field of `count` values that an input item declares.
pub open spec fn array_field(c: Candidate, g: Globals, count: usize, relative: bool) -> Field {
    Field { bit_offset: c.bits, bit_size: g.report_size, count, signed: false, relative }
}

/// The axis that is known after an input item whose usages are `usages`: the
/// one known before it, or else the first place that names `usage`.
pub open spec fn axis_after(
    known: Option<Field>,
    c: Candidate,
    g: Globals,
    usages: Seq<u32>,
    usage: u32,
    relative: bool,
) -> Option<Field> {
    match known {
        Some(field) => Some(field),
        None => match usages.index_of_first(usage) {
            Some(index) => Some(axis_field(c, g, index, relative)),
            None => None,
        },
    }
}

/// How many buttons an input item's usages name: the size of the usage range
/// where there is one, the number of usages listed otherwise.
pub open spec fn button_count(l: LocalsView) -> int {
    match (l.minimum, l.maximum) {
        (Some(low), Some(high)) => if high >= low {
            crate::num::capped(high - low + 1, usize::MAX as int)
        } else {
            l.usages.len() as int
        },
        _ => l.usages.len() as int,
    }
}

/// A candidate after an input item that is not padding.
///
/// On the keyboard page a variable item over the modifier range is the
/// modifier bitmap and an array is the held keys. On the button page a
/// variable item is the buttons. On the generic desktop page a variable item
/// is whichever of X, Y and the wheel it names; X and Y count only where they
/// are relative. What was found first stays.
pub open spec fn recorded(
    c: Candidate,
    g: Globals,
    l: LocalsView,
    relative: bool,
    variable: bool,
) -> Candidate {
    if g.usage_page == PAGE_KEYBOARD {
        if variable {
            if l.minimum == Some(MODIFIER_FIRST) && l.maximum == Some(MODIFIER_LAST)
                && c.modifiers is None {
                Candidate {
                    modifiers: Some(array_field(c, g, g.report_count, relative)),
                    ..c
                }
            } else {
                c
            }
        } else if c.keys is None {
            Candidate { keys: Some(array_field(c, g, g.report_count, relative)), ..c }
        } else {
            c
        }
    } else if g.usage_page == PAGE_BUTTON && variable {
        if button_count(l) > 0 && c.buttons is None {
            Candidate {
                buttons: Some(
                    array_field(
                        c,
                        g,
                        crate::num::min_int(button_count(l), g.report_count as int) as usize,
                        relative,
                    ),
                ),
                ..c
            }
        } else {
            c
        }
    } else if g.usage_page == PAGE_GENERIC_DESKTOP && variable {
        Candidate {
            x: if relative {
                axis_after(c.x, c, g, l.usages, USAGE_X, relative)
            } else {
                c.x
            },
            y: if relative {
                axis_after(c.y, c, g, l.usages, USAGE_Y, relative)
            } else {
                c.y
            },
            wheel: axis_after(c.wheel, c, g, l.usages, USAGE_WHEEL, relative),
            ..c
        }
    } else {
        c
    }
}

/// Where `usage` first stands in the queue.
fn first_use(usages: &Vec<u32>, usage: u32) -> (index: Option<usize>)
    ensures
        match index {
            Some(index) => usages@.index_of_first(usage) == Some(index as int),
            None => usages@.index_of_first(usage) is None,
        },
{
    let mut index: usize = 0;
    while index < usages.len()
        invariant
            index <= usages.len(),
            forall|j: int| 0 <= j < index ==> usages@[j] != usage,
        decreases usages.len() - index,
    {
        if usages[index] == usage {
            proof {
                usages@.index_of_first_ensures(usage);
                assert(usages@.contains(usage));
            }
            return Some(index);
        }
        index = index + 1;
    }
    proof {
        usages@.index_of_first_ensures(usage);
        assert(!usages@.contains(usage));
    }
    None
}

/// Works out one axis after an input item.
fn find_axis(
    known: Option<Field>,
    c: &Candidate,
    globals: &Globals,
    usages: &Vec<u32>,
    usage: u32,
    relative: bool,
) -> (field: Option<Field>)
    ensures
        field == axis_after(known, *c, *globals, usages@, usage, relative),
{
    if known.is_some() {
        return known;
    }
    match first_use(usages, usage) {
        Some(index) => Some(
            Field {
                bit_offset: c.bits.saturating_add(saturating_mul(index, globals.report_size)),
                bit_size: globals.report_size,
                count: 1,
                signed: globals.logical_minimum < 0,
                relative,
            },
        ),
        None => None,
    }
}

/// Assigns the usages queued for this main item to bit positions.
pub fn record(
    candidate: &mut Candidate,
    globals: &Globals,
    locals: &Locals,
    relative: bool,
    variable: bool,
)
    ensures
        *final(candidate) == recorded(*old(candidate), *globals, locals@, relative, variable),
{
    let before: Candidate = *candidate;
    if globals.usage_page == PAGE_KEYBOARD {
        let whole = Field {
            bit_offset: before.bits,
            bit_size: globals.report_size,
            count: globals.report_count,
            signed: false,
            relative,
        };
        if variable {
            // The modifiers: eight one-bit flags, declared as a usage range.
            let is_modifier = match (locals.minimum, locals.maximum) {
                (Some(low), Some(high)) => low == MODIFIER_FIRST && high == MODIFIER_LAST,
                _ => false,
            };
            if is_modifier && before.modifiers.is_none() {
                candidate.modifiers = Some(whole);
            }
        } else if before.keys.is_none() {
            // An array on the keyboard page: the held keys.
            candidate.keys = Some(whole);
        }
    } else if globals.usage_page == PAGE_BUTTON && variable {
        // Buttons come as a usage range rather than one usage each.
        let count: usize = match (locals.minimum, locals.maximum) {
            (Some(low), Some(high)) => if high >= low {
                ((high - low) as usize).saturating_add(1)
            } else {
                locals.usages.len()
            },
            _ => locals.usages.len(),
        };
        if count > 0 && before.buttons.is_none() {
            candidate.buttons = Some(
                Field {
                    bit_offset: before.bits,
                    bit_size: globals.report_size,
                    count: min_usize(count, globals.report_count),
                    signed: false,
                    relative,
                },
            );
        }
    } else if globals.usage_page == PAGE_GENERIC_DESKTOP && variable {
        if relative {
            candidate.x = find_axis(before.x, &before, globals, &locals.usages, USAGE_X, relative);
            candidate.y = find_axis(before.y, &before, globals, &locals.usages, USAGE_Y, relative);
        }
        candidate.wheel =
        find_axis(before.wheel, &before, globals, &locals.usages, USAGE_WHEEL, relative);
    }
}

// ---------------------------------------------------------------------------
// The walk over a descriptor
// ---------------------------------------------------------------------------

/// Everything a descriptor has said up to some item.
#[verifier::ext_equal]
pub struct Walk {
    pub globals: Globals,
    pub locals: LocalsView,
    /// One candidate per report ID, in the order they were first used.
    pub reports: Seq<Candidate>,
    /// How many open collections stand at or inside a digitizer one.
    pub digitizer_depth: nat,
}

/// Where the report with this ID stands, or the number of reports if it does
/// not.
pub open spec fn report_index(reports: Seq<Candidate>, report_id: Option<u8>) -> int
    decreases reports.len(),
{
    if reports.len() == 0 {
        0
    } else if reports[0].report_id == report_id {
        0
    } else {
        1 + report_index(reports.drop_first(), report_id)
    }
}

/// The reports with one more at the end where this ID is new and there is
/// room for it.
pub open spec fn with_report(reports: Seq<Candidate>, report_id: Option<u8>) -> Seq<Candidate> {
    if report_index(reports, report_id) == reports.len() && reports.len() < MAX_REPORTS {
        reports.push(Candidate::empty(report_id))
    } else {
        reports
    }
}

impl Walk {
    /// Nothing read yet.
    pub open spec fn initial() -> Walk {
        Walk {
            globals: Globals::initial(),
            locals: LocalsView::cleared(),
            reports: Seq::empty(),
            digitizer_depth: 0,
        }
    }

    /// A candidate after an input item with these flags: marked if inside a
    /// digitizer, given the fields the item names unless it is padding, and
    /// longer by the item's bits either way.
    pub open spec fn input_candidate(self, c: Candidate, flags: u32) -> Candidate {
        let marked = Candidate { digitizer: c.digitizer || self.digitizer_depth > 0, ..c };
        let constant = flags % 2 == 1;
        let variable = (flags / 2) % 2 == 1;
        let relative = (flags / 4) % 2 == 1;
        let named = if constant {
            marked
        } else {
            recorded(marked, self.globals, self.locals, relative, variable)
        };
        Candidate {
            bits: crate::num::capped(
                named.bits + crate::num::capped(
                    self.globals.report_size * self.globals.report_count,
                    usize::MAX as int,
                ),
                usize::MAX as int,
            ) as usize,
            ..named
        }
    }

    /// The walk after an input item. An item of a report past the limit on
    /// report IDs is passed over.
    pub open spec fn input(self, flags: u32) -> Walk {
        let reports = with_report(self.reports, self.globals.report_id);
        let index = report_index(reports, self.globals.report_id);
        Walk {
            reports: if index < reports.len() {
                reports.update(index, self.input_candidate(reports[index], flags))
            } else {
                reports
            },
            locals: LocalsView::cleared(),
            ..self
        }
    }

    /// The walk after a main item.
    pub open spec fn main_item(self, item: Item) -> Walk {
        if item.tag == 0x8 {
            self.input(item.value)
        } else if item.tag == 0xA {
            Walk {
                digitizer_depth: if self.globals.usage_page == PAGE_DIGITIZER
                    || self.digitizer_depth > 0 {
                    self.digitizer_depth + 1
                } else {
                    0
                },
                locals: LocalsView::cleared(),
                ..self
            }
        } else if item.tag == 0xC {
            Walk {
                digitizer_depth: if self.digitizer_depth > 0 {
                    (self.digitizer_depth - 1) as nat
                } else {
                    0
                },
                locals: LocalsView::cleared(),
                ..self
            }
        } else {
            Walk { locals: LocalsView::cleared(), ..self }
        }
    }

    /// The walk after a global item, or nothing for a push or pop of the
    /// global state.
    pub open spec fn global_item(self, item: Item) -> Option<Walk> {
        let g = self.globals;
        if item.tag == 0x0 {
            Some(
                Walk {
                    globals: Globals { usage_page: (item.value % 0x1_0000) as u16, ..g },
                    ..self
                },
            )
        } else if item.tag == 0x1 {
            Some(
                Walk {
                    globals: Globals { logical_minimum: item.signed_value() as i32, ..g },
                    ..self
                },
            )
        } else if item.tag == 0x7 {
            Some(Walk { globals: Globals { report_size: item.value as usize, ..g }, ..self })
        } else if item.tag == 0x8 {
            Some(
                Walk {
                    globals: Globals { report_id: Some((item.value % 0x100) as u8), ..g },
                    ..self
                },
            )
        } else if item.tag == 0x9 {
            Some(Walk { globals: Globals { report_count: item.value as usize, ..g }, ..self })
        } else if item.tag == 0xA || item.tag == 0xB {
            None
        } else {
            Some(self)
        }
    }

    /// The walk after a local item. A four-byte usage carries its page in the
    /// upper half.
    pub open spec fn local_item(self, item: Item) -> Walk {
        if item.tag == 0x0 {
            if item.size == 4 {
                Walk {
                    globals: Globals {
                        usage_page: (item.value / 0x1_0000) as u16,
                        ..self.globals
                    },
                    locals: self.locals.with_usage(item.value % 0x1_0000),
                    ..self
                }
            } else {
                Walk { locals: self.locals.with_usage(item.value), ..self }
            }
        } else if item.tag == 0x1 {
            Walk { locals: LocalsView { minimum: Some(item.value), ..self.locals }, ..self }
        } else if item.tag == 0x2 {
            Walk { locals: LocalsView { maximum: Some(item.value), ..self.locals }, ..self }
        } else {
            self
        }
    }

    /// The walk after one item.
    pub open spec fn after(self, item: Item) -> Option<Walk> {
        if item.kind == 0 {
            Some(self.main_item(item))
        } else if item.kind == 1 {
            self.global_item(item)
        } else if item.kind == 2 {
            Some(self.local_item(item))
        } else {
            Some(self)
        }
    }
}

/// The candidates a descriptor holds, given what was read before `at`.
/// Nothing where an item's data is cut off, or where the global state is
/// pushed or popped.
pub open spec fn walked(d: Seq<u8>, at: int, w: Walk) -> Option<Seq<Candidate>>
    decreases d.len() - at,
{
    if at >= d.len() {
        Some(w.reports)
    } else if d[at] == LONG_ITEM {
        if at + 1 >= d.len() {
            None
        } else if at + 3 + d[at + 1] >= d.len() {
            Some(w.reports)
        } else {
            walked(d, at + 3 + d[at + 1], w)
        }
    } else if at + 1 + item_size(d[at]) > d.len() {
        None
    } else {
        match w.after(item_at(d, at)) {
            Some(next) => walked(d, at + 1 + item_size(d[at]), next),
            None => None,
        }
    }
}

/// The candidates a descriptor holds, one per report ID.
pub open spec fn parsed(d: Seq<u8>) -> Option<Seq<Candidate>> {
    walked(d, 0, Walk::initial())
}

struct Parser {
    globals: Globals,
    locals: Locals,
    reports: Vec<Candidate>,
    digitizer_depth: usize,
}

impl Parser {
    spec fn state(self) -> Walk {
        Walk {
            globals: self.globals,
            locals: self.locals@,
            reports: self.reports@,
            digitizer_depth: self.digitizer_depth as nat,
        }
    }

    fn input(&mut self, flags: u32)
        ensures
            final(self).state() == old(self).state().input(flags),
    {
        let ghost before = self.state();
        if let Some(slot) = slot_for(&mut self.reports, self.globals.report_id) {
            let mut candidate: Candidate = self.reports[slot];
            if self.digitizer_depth > 0 {
                candidate.digitizer = true;
            }
            // Saturating: both factors are 32-bit values straight out of the
            // descriptor, and the running offset must not wrap back to a
            // plausible one.
            let field_bits: usize = saturating_mul(
                self.globals.report_size,
                self.globals.report_count,
            );
            if flags % 2 == 0 {
                record(
                    &mut candidate,
                    &self.globals,
                    &self.locals,
                    (flags / 4) % 2 == 1,
                    (flags / 2) % 2 == 1,
                );
            }
            candidate.bits = candidate.bits.saturating_add(field_bits);
            self.reports.set(slot, candidate);
        }
        self.locals = Locals::default();
        assert(self.state() =~= before.input(flags));
    }

    fn main_item(&mut self, item: &Item)
        requires
            old(self).digitizer_depth < usize::MAX,
        ensures
            final(self).state() == old(self).state().main_item(*item),
            final(self).digitizer_depth <= old(self).digitizer_depth + 1,
    {
        if item.tag == 0x8 {
            self.input(item.value);
            return;
        }
        if item.tag == 0xA {
            // Once inside a digitizer, every nested collection counts too: a
            // finger collection inside a touchpad is still absolute
            // coordinates.
            if self.globals.usage_page == PAGE_DIGITIZER || self.digitizer_depth > 0 {
                self.digitizer_depth = self.digitizer_depth + 1;
            }
        } else if item.tag == 0xC {
            if self.digitizer_depth > 0 {
                self.digitizer_depth = self.digitizer_depth - 1;
            }
        }
        self.locals = Locals::default();
    }

    /// Applies a global item; false for a push or pop of the global state.
    fn global_item(&mut self, item: &Item) -> (known: bool)
        requires
            item.size <= 2 || item.size == 4,
            item.value < pow2(8 * item.size as nat),
        ensures
            match old(self).state().global_item(*item) {
                Some(next) => known && final(self).state() == next,
                None => !known,
            },
            final(self).digitizer_depth == old(self).digitizer_depth,
    {
        if item.tag == 0x0 {
            self.globals.usage_page = (item.value % 0x1_0000) as u16;
        } else if item.tag == 0x1 {
            self.globals.logical_minimum = item.signed();
        } else if item.tag == 0x7 {
            self.globals.report_size = item.value as usize;
        } else if item.tag == 0x8 {
            self.globals.report_id = Some((item.value % 0x100) as u8);
        } else if item.tag == 0x9 {
            self.globals.report_count = item.value as usize;
        } else if item.tag == 0xA || item.tag == 0xB {
            // What follows would be read with the wrong state.
            return false;
        }
        true
    }

    fn local_item(&mut self, item: &Item)
        ensures
            final(self).state() == old(self).state().local_item(*item),
            final(self).digitizer_depth == old(self).digitizer_depth,
    {
        if item.tag == 0x0 {
            if item.size == 4 {
                self.globals.usage_page = (item.value / 0x1_0000) as u16;
                self.locals.push(item.value % 0x1_0000);
            } else {
                self.locals.push(item.value);
            }
        } else if item.tag == 0x1 {
            self.locals.minimum = Some(item.value);
        } else if item.tag == 0x2 {
            self.locals.maximum = Some(item.value);
        }
    }
}

/// Finds or creates the candidate for a report ID.
pub fn slot_for(reports: &mut Vec<Candidate>, report_id: Option<u8>) -> (slot: Option<usize>)
    ensures
        final(reports)@ == with_report(old(reports)@, report_id),
        match slot {
            Some(slot) => slot == report_index(final(reports)@, report_id) && slot
                < final(reports).len(),
            None => report_index(final(reports)@, report_id) == final(reports).len(),
        },
{
    let mut index: usize = 0;
    assert(reports@.skip(0) =~= reports@);
    while index < reports.len()
        invariant
            index <= reports.len(),
            reports@ == old(reports)@,
            report_index(reports@, report_id) == index + report_index(
                reports@.skip(index as int),
                report_id,
            ),
        decreases reports.len() - index,
    {
        let ghost rest = reports@.skip(index as int);
        if reports[index].report_id == report_id {
            return Some(index);
        }
        proof {
            assert(rest.drop_first() =~= reports@.skip(index + 1));
        }
        index = index + 1;
    }
    assert(reports@.skip(index as int).len() == 0);
    if index >= MAX_REPORTS {
        return None;
    }
    proof {
        lemma_report_index_push(reports@, report_id);
    }
    reports.push(Candidate::new(report_id));
    Some(index)
}

proof fn lemma_report_index_push(reports: Seq<Candidate>, report_id: Option<u8>)
    requires
        report_index(reports, report_id) == reports.len(),
    ensures
        report_index(reports.push(Candidate::empty(report_id)), report_id) == reports.len(),
    decreases reports.len(),
{
    let pushed = reports.push(Candidate::empty(report_id));
    if reports.len() > 0 {
        lemma_report_index_bound(reports.drop_first(), report_id);
        lemma_report_index_push(reports.drop_first(), report_id);
        assert(pushed.drop_first() =~= reports.drop_first().push(Candidate::empty(report_id)));
    }
}

proof fn lemma_report_index_bound(reports: Seq<Candidate>, report_id: Option<u8>)
    ensures
        0 <= report_index(reports, report_id) <= reports.len(),
        report_index(reports, report_id) < reports.len() ==> reports[report_index(
            reports,
            report_id,
        )].report_id == report_id,
        forall|i: int|
            0 <= i < report_index(reports, report_id) ==> (#[trigger] reports[i]).report_id
                != report_id,
    decreases reports.len(),
{
    if reports.len() > 0 && reports[0].report_id != report_id {
        let rest = reports.drop_first();
        lemma_report_index_bound(rest, report_id);
        assert forall|i: int| 0 <= i < report_index(reports, report_id) implies (
        #[trigger] reports[i]).report_id != report_id by {
            if i > 0 {
                assert(reports[i] == rest[i - 1]);
            }
        }
    }
}

/// Walks a report descriptor into one candidate per report ID.
///
/// Shared by both finders: a descriptor is parsed once and then asked what it
/// holds, which is what lets a device declaring both a mouse and a keyboard
/// be understood as both.
pub fn parse(descriptor: &[u8]) -> (reports: Option<Vec<Candidate>>)
    ensures
        match reports {
            Some(reports) => parsed(descriptor@) == Some(reports@),
            None => parsed(descriptor@) is None,
        },
{
    let mut parser = Parser {
        globals: Globals::default(),
        locals: Locals::default(),
        reports: Vec::new(),
        digitizer_depth: 0,
    };
    let mut at: usize = 0;
    assert(parser.state() =~= Walk::initial());
    while at < descriptor.len()
        invariant
            at <= descriptor.len(),
            parser.digitizer_depth <= at,
            walked(descriptor@, at as int, parser.state()) == parsed(descriptor@),
        decreases descriptor.len() - at,
    {
        if descriptor[at] == LONG_ITEM {
            // Nothing defines a long item, but stepping over it correctly is
            // what keeps the rest of the descriptor readable.
            if at + 1 >= descriptor.len() {
                return None;
            }
            let length: usize = descriptor[at + 1] as usize;
            if descriptor.len() - at < 3 + length {
                // What follows is past the end: no further item.
                at = descriptor.len();
            } else {
                at = at + 3 + length;
            }
            continue;
        }
        let item: Item = match read_item(descriptor, at) {
            Some(item) => item,
            None => return None,
        };
        let next: usize = at + 1 + item.size;
        if item.kind == 0 {
            parser.main_item(&item);
        } else if item.kind == 1 {
            if !parser.global_item(&item) {
                return None;
            }
        } else if item.kind == 2 {
            parser.local_item(&item);
        }
        at = next;
    }
    Some(parser.reports)
}

/// The first candidate that satisfies one of the two finders.
pub open spec fn first_where(reports: Seq<Candidate>, p: spec_fn(Candidate) -> bool) -> Option<
    Candidate,
>
    decreases reports.len(),
{
    if reports.len() == 0 {
        None
    } else if p(reports[0]) {
        Some(reports[0])
    } else {
        first_where(reports.drop_first(), p)
    }
}

/// The pointer layout a descriptor declares: that of its first report with a
/// relative X and Y outside every digitizer.
pub open spec fn pointer_of(d: Seq<u8>) -> Option<PointerLayout> {
    match parsed(d) {
        None => None,
        Some(reports) => match first_where(reports, |c: Candidate| c.is_pointer()) {
            None => None,
            Some(c) => Some(
                PointerLayout {
                    report_id: c.report_id,
                    body_bytes: crate::num::bytes_for_bits(c.bits as int) as usize,
                    x: c.x->0,
                    y: c.y->0,
                    buttons: c.buttons,
                    wheel: c.wheel,
                },
            ),
        },
    }
}

/// The keyboard layout a descriptor declares: that of its first report with
/// an array of keys.
pub open spec fn keyboard_of(d: Seq<u8>) -> Option<KeyboardLayout> {
    match parsed(d) {
        None => None,
        Some(reports) => match first_where(reports, |c: Candidate| c.keys is Some) {
            None => None,
            Some(c) => Some(
                KeyboardLayout {
                    report_id: c.report_id,
                    body_bytes: crate::num::bytes_for_bits(c.bits as int) as usize,
                    modifiers: c.modifiers,
                    keys: c.keys->0,
                },
            ),
        },
    }
}

/// Finds the input report carrying a relative pointer.
///
/// Returns `None` for a descriptor with no such report: a keyboard, or a
/// touchpad already switched into digitizer-only mode.
pub fn find_pointer(descriptor: &[u8]) -> (layout: Option<PointerLayout>)
    ensures
        layout == pointer_of(descriptor@),
{
    let reports: Vec<Candidate> = match parse(descriptor) {
        Some(reports) => reports,
        None => return None,
    };
    let ghost p = |c: Candidate| c.is_pointer();
    let mut index: usize = 0;
    assert(reports@.skip(0) =~= reports@);
    // The first complete candidate. Descriptors put the mouse collection
    // first, and a device that also declares a digitizer declares it after.
    while index < reports.len()
        invariant
            index <= reports.len(),
            p == (|c: Candidate| c.is_pointer()),
            first_where(reports@.skip(index as int), p) == first_where(reports@, p),
            parsed(descriptor@) == Some(reports@),
        decreases reports.len() - index,
    {
        let found: Candidate = reports[index];
        if found.complete() {
            if let (Some(x), Some(y)) = (found.x, found.y) {
                return Some(
                    PointerLayout {
                        report_id: found.report_id,
                        body_bytes: div_ceil_8(found.bits),
                        x,
                        y,
                        buttons: found.buttons,
                        wheel: found.wheel,
                    },
                );
            }
        }
        proof {
            assert(reports@.skip(index as int).drop_first() =~= reports@.skip(index + 1));
        }
        index = index + 1;
    }
    assert(reports@.skip(index as int).len() == 0);
    None
}

/// Finds the input report carrying keystrokes.
///
/// Returns `None` for a descriptor with no key array: a mouse, or a touchpad,
/// both of which declare a keyboard page nowhere.
pub fn find_keyboard(descriptor: &[u8]) -> (layout: Option<KeyboardLayout>)
    ensures
        layout == keyboard_of(descriptor@),
{
    let reports: Vec<Candidate> = match parse(descriptor) {
        Some(reports) => reports,
        None => return None,
    };
    let ghost p = |c: Candidate| c.keys is Some;
    let mut index: usize = 0;
    assert(reports@.skip(0) =~= reports@);
    while index < reports.len()
        invariant
            index <= reports.len(),
            p == (|c: Candidate| c.keys is Some),
            first_where(reports@.skip(index as int), p) == first_where(reports@, p),
            parsed(descriptor@) == Some(reports@),
        decreases reports.len() - index,
    {
        let found: Candidate = reports[index];
        if found.is_keyboard() {
            if let Some(keys) = found.keys {
                return Some(
                    KeyboardLayout {
                        report_id: found.report_id,
                        body_bytes: div_ceil_8(found.bits),
                        modifiers: found.modifiers,
                        keys,
                    },
                );
            }
        }
        proof {
            assert(reports@.skip(index as int).drop_first() =~= reports@.skip(index + 1));
        }
        index = index + 1;
    }
    assert(reports@.skip(index as int).len() == 0);
    None
}

// ---------------------------------------------------------------------------
// Laws of the parser
// ---------------------------------------------------------------------------

/// What every set of candidates satisfies: no more than the limit, one per
/// report ID, every X and Y relative and one value wide, every key, modifier
/// and button field unsigned.
pub open spec fn sound_reports(reports: Seq<Candidate>) -> bool {
    &&& reports.len() <= MAX_REPORTS
    &&& forall|i: int, j: int|
        0 <= i < j < reports.len() ==> (#[trigger] reports[i]).report_id != (
        #[trigger] reports[j]).report_id
    &&& forall|i: int| 0 <= i < reports.len() ==> sound_candidate(#[trigger] reports[i])
}

/// What every candidate satisfies.
pub open spec fn sound_candidate(c: Candidate) -> bool {
    &&& c.x matches Some(f) ==> f.relative && f.count == 1
    &&& c.y matches Some(f) ==> f.relative && f.count == 1
    &&& c.wheel matches Some(f) ==> f.count == 1
    &&& c.keys matches Some(f) ==> !f.signed
    &&& c.modifiers matches Some(f) ==> !f.signed
    &&& c.buttons matches Some(f) ==> !f.signed
}

proof fn lemma_after_sound(w: Walk, item: Item)
    requires
        sound_reports(w.reports),
    ensures
        w.after(item) matches Some(next) ==> sound_reports(next.reports),
{
    if item.kind == 0 && item.tag == 0x8 {
        let id = w.globals.report_id;
        let reports = with_report(w.reports, id);
        lemma_report_index_bound(w.reports, id);
        assert(sound_reports(reports));
        lemma_report_index_bound(reports, id);
        let index = report_index(reports, id);
        if index < reports.len() {
            assert(sound_candidate(reports[index]));
            assert(sound_candidate(w.input_candidate(reports[index], item.value)));
        }
    }
}

proof fn lemma_walked_sound(d: Seq<u8>, at: int, w: Walk)
    requires
        sound_reports(w.reports),
    ensures
        walked(d, at, w) matches Some(reports) ==> sound_reports(reports),
    decreases d.len() - at,
{
    if at >= d.len() {
    } else if d[at] == LONG_ITEM {
        if at + 1 < d.len() && at + 3 + d[at + 1] < d.len() {
            lemma_walked_sound(d, at + 3 + d[at + 1], w);
        }
    } else if at + 1 + item_size(d[at]) <= d.len() {
        lemma_after_sound(w, item_at(d, at));
        if let Some(next) = w.after(item_at(d, at)) {
            lemma_walked_sound(d, at + 1 + item_size(d[at]), next);
        }
    }
}

/// Whatever a descriptor says, parsing it yields at most the limit of
/// candidates, no two with one report ID, and only relative X and Y fields.
pub proof fn parsed_reports_are_sound(d: Seq<u8>)
    ensures
        parsed(d) matches Some(reports) ==> sound_reports(reports),
{
    lemma_walked_sound(d, 0, Walk::initial());
}

proof fn lemma_first_where(reports: Seq<Candidate>, p: spec_fn(Candidate) -> bool)
    ensures
        match first_where(reports, p) {
            Some(c) => reports.contains(c) && p(c),
            None => forall|i: int| 0 <= i < reports.len() ==> !p(#[trigger] reports[i]),
        },
    decreases reports.len(),
{
    if reports.len() > 0 {
        if p(reports[0]) {
            assert(reports.contains(reports[0]));
        } else {
            let rest = reports.drop_first();
            lemma_first_where(rest, p);
            match first_where(rest, p) {
                Some(c) => {
                    let i = choose|i: int| 0 <= i < rest.len() && rest[i] == c;
                    assert(reports[i + 1] == c);
                },
                None => {
                    assert forall|i: int| 0 <= i < reports.len() implies !p(
                        #[trigger] reports[i],
                    ) by {
                        if i > 0 {
                            assert(reports[i] == rest[i - 1]);
                        }
                    }
                },
            }
        }
    }
}

/// A pointer found in a descriptor always has a relative X and a relative Y.
pub proof fn found_pointer_is_relative(d: Seq<u8>)
    ensures
        pointer_of(d) matches Some(layout) ==> layout.x.relative && layout.y.relative
            && layout.x.count == 1 && layout.y.count == 1,
{
    parsed_reports_are_sound(d);
    if let Some(reports) = parsed(d) {
        lemma_first_where(reports, |c: Candidate| c.is_pointer());
    }
}

/// A descriptor has a pointer exactly where it parses and one of its reports
/// carries a relative X and Y outside every digitizer, and a keyboard exactly
/// where one of them carries an array of keys.
pub proof fn finders_find_what_is_there(d: Seq<u8>)
    ensures
        pointer_of(d) is Some <==> (parsed(d) matches Some(reports) && exists|i: int|
            0 <= i < reports.len() && (#[trigger] reports[i]).is_pointer()),
        keyboard_of(d) is Some <==> (parsed(d) matches Some(reports) && exists|i: int|
            0 <= i < reports.len() && (#[trigger] reports[i]).keys is Some),
{
    if let Some(reports) = parsed(d) {
        lemma_first_where(reports, |c: Candidate| c.is_pointer());
        lemma_first_where(reports, |c: Candidate| c.keys is Some);
    }
}

/// A report that starts with another collection's ID is refused by both
/// layouts, and one that starts with the layout's own ID is decoded.
pub proof fn foreign_report_is_refused(id: u8, report: Seq<u8>)
    ensures
        report.len() == 0 || report[0] != id <==> report_body(Some(id), report) is None,
        report_body(None, report) == Some(report),
{
}

/// Where the item whose prefix is `d[at]` ends.
pub open spec fn item_end(d: Seq<u8>, at: int) -> int {
    if d[at] == LONG_ITEM {
        at + 3 + d[at + 1]
    } else {
        at + 1 + item_size(d[at])
    }
}

/// Whether items that start at `at` end at `pos`, one of them there.
pub open spec fn is_boundary(d: Seq<u8>, at: int, pos: int) -> bool
    decreases pos - at,
{
    at == pos || (at < pos && item_end(d, at) <= pos && is_boundary(d, item_end(d, at), pos))
}

/// Whether `pos` is such a boundary with no local item waiting for its main
/// item: every local item is followed by a main one before `pos`. `settled`
/// says whether that is so at `at`.
pub open spec fn is_settled(d: Seq<u8>, at: int, pos: int, settled: bool) -> bool
    decreases pos - at,
{
    if at == pos {
        settled
    } else {
        at < pos && item_end(d, at) <= pos && is_settled(
            d,
            item_end(d, at),
            pos,
            if d[at] == LONG_ITEM || item_at(d, at).kind == 1 || item_at(d, at).kind == 3 {
                settled
            } else {
                item_at(d, at).kind == 0
            },
        )
    }
}

/// A long item with this tag and data.
pub open spec fn long_item(tag: u8, data: Seq<u8>) -> Seq<u8> {
    seq![LONG_ITEM, data.len() as u8, tag] + data
}

/// Whether these bytes are one whole Output or Feature item.
pub open spec fn is_output_or_feature(item: Seq<u8>) -> bool {
    &&& item.len() > 0
    &&& item.len() == 1 + item_size(item[0])
    &&& (item[0] / 4) % 4 == 0
    &&& item[0] / 16 == 0x9 || item[0] / 16 == 0xB
}

/// A descriptor with some bytes put in at `pos`.
pub open spec fn with_inserted(d: Seq<u8>, pos: int, item: Seq<u8>) -> Seq<u8> {
    d.take(pos) + item + d.skip(pos)
}

proof fn lemma_same_item(d: Seq<u8>, at: int, e: Seq<u8>, to: int)
    requires
        0 <= at < d.len(),
        0 <= to < e.len(),
        d[at] == e[to],
        at + 1 + item_size(d[at]) <= d.len(),
        forall|k: int| 0 <= k <= item_size(d[at]) ==> #[trigger] d[at + k] == e[to + k],
    ensures
        item_at(d, at) == item_at(e, to),
{
    let size = item_size(d[at]);
    let (data, same) = (at + 1, to + 1);
    assert forall|k: int| 0 <= k < 4 implies #[trigger] item_byte(d, data, size, k) == item_byte(
        e,
        same,
        size,
        k,
    ) by {
        if k < size {
            assert(d[at + (k + 1)] == e[to + (k + 1)]);
        }
    }
}

/// What is walked to the end of a descriptor is what is walked at the end of
/// another that ends alike.
#[verifier::spinoff_prover]
#[verifier::rlimit(40)]
proof fn lemma_walk_tail(d: Seq<u8>, at: int, e: Seq<u8>, n: int, w: Walk)
    requires
        0 <= at,
        0 <= n,
        e.len() == d.len() + n,
        forall|j: int| at <= j < d.len() ==> #[trigger] d[j] == e[j + n],
    ensures
        walked(e, at + n, w) == walked(d, at, w),
    decreases d.len() - at,
{
    if at < d.len() {
        assert(e[at + n] == d[at]);
        if d[at] == LONG_ITEM {
            if at + 1 < d.len() {
                assert(d[at + 1] == e[at + 1 + n]);
                if at + 3 + d[at + 1] < d.len() {
                    lemma_walk_tail(d, at + 3 + d[at + 1], e, n, w);
                }
            }
        } else if at + 1 + item_size(d[at]) <= d.len() {
            assert forall|k: int| 0 <= k <= item_size(d[at]) implies #[trigger] d[at + k] == e[at
                + n + k] by {
                assert(d[at + k] == e[(at + k) + n]);
            }
            lemma_same_item(d, at, e, at + n);
            if let Some(next) = w.after(item_at(d, at)) {
                lemma_walk_tail(d, at + 1 + item_size(d[at]), e, n, next);
            }
        }
    }
}

#[verifier::spinoff_prover]
#[verifier::rlimit(40)]
proof fn lemma_walk_across(
    d: Seq<u8>,
    pos: int,
    item: Seq<u8>,
    at: int,
    w: Walk,
    settled: bool,
)
    requires
        0 <= at <= pos <= d.len(),
        settled ==> w.locals == LocalsView::cleared(),
        ({
            ||| is_boundary(d, at, pos) && exists|tag: u8, data: Seq<u8>|
                data.len() < 256 && item == #[trigger] long_item(tag, data)
            ||| is_settled(d, at, pos, settled) && is_output_or_feature(item)
        }),
    ensures
        walked(with_inserted(d, pos, item), at, w) == walked(d, at, w),
    decreases pos - at,
{
    let e = with_inserted(d, pos, item);
    let n = item.len() as int;
    assert(e.len() == d.len() + n);
    assert(forall|j: int| 0 <= j < pos ==> e[j] == #[trigger] d[j]);
    assert(forall|j: int| 0 <= j < n ==> e[pos + j] == #[trigger] item[j]);
    if at == pos {
        assert(e[pos + 0] == item[0]);
        if is_output_or_feature(item) && is_settled(d, at, pos, settled) {
            let prefix = item[0];
            assert(prefix != LONG_ITEM);
            assert(w.after(item_at(e, pos)) == Some(w)) by {
                assert(w.main_item(item_at(e, pos)) =~= w);
            }
        } else {
            let (tag, data) = choose|tag: u8, data: Seq<u8>|
                data.len() < 256 && item == #[trigger] long_item(tag, data);
            assert(e[pos + 1] == item[1]);
            assert(e[pos] == LONG_ITEM && e[pos + 1] == data.len());
        }
        assert forall|j: int| pos <= j < d.len() implies #[trigger] d[j] == e[j + n] by {
            assert(d.skip(pos)[j - pos] == d[j]);
        }
        lemma_walk_tail(d, pos, e, n, w);
    } else {
        let end = item_end(d, at);
        assert(e[at] == d[at]);
        if d[at] == LONG_ITEM {
            assert(e[at + 1] == d[at + 1]);
            lemma_walk_across(d, pos, item, end, w, settled);
        } else {
            assert forall|k: int| 0 <= k <= item_size(d[at]) implies #[trigger] d[at + k] == e[at
                + k] by {}
            lemma_same_item(d, at, e, at);
            if let Some(next) = w.after(item_at(d, at)) {
                let kind = item_at(d, at).kind;
                let later = if kind == 1 || kind == 3 {
                    settled
                } else {
                    kind == 0
                };
                lemma_walk_across(d, pos, item, end, next, later);
            }
        }
    }
}

/// Long items are stepped over: one put in between two items of any
/// descriptor, or at either end, changes neither the pointer nor the keyboard
/// that is found.
pub proof fn long_items_are_stepped_over(d: Seq<u8>, pos: int, tag: u8, data: Seq<u8>)
    requires
        0 <= pos <= d.len(),
        is_boundary(d, 0, pos),
        data.len() < 256,
    ensures
        parsed(with_inserted(d, pos, long_item(tag, data))) == parsed(d),
        pointer_of(with_inserted(d, pos, long_item(tag, data))) == pointer_of(d),
        keyboard_of(with_inserted(d, pos, long_item(tag, data))) == keyboard_of(d),
{
    lemma_walk_across(d, pos, long_item(tag, data), 0, Walk::initial(), true);
}

/// Output and Feature items contribute no input bits: one put in where no
/// local item waits, such as directly behind a main item, changes neither the
/// pointer nor the keyboard that is found.
pub proof fn outputs_and_features_carry_no_input(d: Seq<u8>, pos: int, item: Seq<u8>)
    requires
        0 <= pos <= d.len(),
        is_settled(d, 0, pos, true),
        is_output_or_feature(item),
    ensures
        parsed(with_inserted(d, pos, item)) == parsed(d),
        pointer_of(with_inserted(d, pos, item)) == pointer_of(d),
        keyboard_of(with_inserted(d, pos, item)) == keyboard_of(d),
{
    lemma_walk_across(d, pos, item, 0, Walk::initial(), true);
}

proof fn lemma_main_item_settles(d: Seq<u8>, at: int, main: int, settled: bool)
    requires
        0 <= at <= main < d.len(),
        is_boundary(d, at, main),
        d[main] != LONG_ITEM,
        item_at(d, main).kind == 0,
    ensures
        is_settled(d, at, item_end(d, main), settled),
    decreases main - at,
{
    let end = item_end(d, main);
    if at == main {
        assert(is_settled(d, end, end, true));
    } else {
        lemma_main_item_settles(
            d,
            item_end(d, at),
            main,
            if d[at] == LONG_ITEM || item_at(d, at).kind == 1 || item_at(d, at).kind == 3 {
                settled
            } else {
                item_at(d, at).kind == 0
            },
        );
    }
}

/// The same, said of an item put in directly behind the main item at `main`.
pub proof fn outputs_and_features_may_follow_main_items(d: Seq<u8>, main: int, item: Seq<u8>)
    requires
        0 <= main < d.len(),
        is_boundary(d, 0, main),
        d[main] != LONG_ITEM,
        item_at(d, main).kind == 0,
        item_end(d, main) <= d.len(),
        is_output_or_feature(item),
    ensures
        pointer_of(with_inserted(d, item_end(d, main), item)) == pointer_of(d),
        keyboard_of(with_inserted(d, item_end(d, main), item)) == keyboard_of(d),
{
    lemma_main_item_settles(d, 0, main, true);
    outputs_and_features_carry_no_input(d, item_end(d, main), item);
}

} // verus!
