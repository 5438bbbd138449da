//! What a HID report descriptor says, item by item.
use crate::hid_report::{
    first_where, item_at, keyboard_of, parsed, pointer_of, report_index, walked, with_report,
    Candidate, Field, Globals, Item, LocalsView, Walk,
};
use vstd::prelude::*;

verus! {

/// A short item is one prefix byte, whose low two bits say how many bytes of
/// data follow (three standing for four), whose next two bits say what kind of
/// item it is and whose high four bits are its tag; the data come low byte
/// first.
pub proof fn an_item_is_read_by_its_prefix(d: Seq<u8>, at: int, code: int, kind: int, tag: int)
    requires
        0 <= at < d.len(),
        0 <= code < 4,
        0 <= kind < 4,
        0 <= tag < 16,
        d[at] == code + 4 * kind + 16 * tag,
    ensures
        ({
            let item = item_at(d, at);
            &&& item.kind == kind
            &&& item.tag == tag
            &&& code == 0 ==> item.size == 0 && item.value == 0
            &&& code == 1 ==> item.size == 1 && item.value == d[at + 1]
            &&& code == 2 ==> item.size == 2 && item.value == d[at + 1] + 256 * d[at + 2]
            &&& code == 3 ==> item.size == 4 && item.value == d[at + 1] + 256 * d[at + 2] + 0x1_0000
                * d[at + 3] + 0x100_0000 * d[at + 4]
        }),
{
    assert(d[at] as int % 4 == code && d[at] as int / 4 == kind + 4 * tag);
}

/// Data are signed by their own width.
pub proof fn data_are_signed_by_their_width(item: Item)
    requires
        item.size == 1 && item.value < 0x100 || item.size == 2 && item.value < 0x1_0000 || item.size
            == 4,
    ensures
        item.size == 1 && item.value < 0x80 ==> item.signed_value() == item.value,
        item.size == 1 && item.value >= 0x80 ==> item.signed_value() == item.value - 0x100,
        item.size == 2 && item.value < 0x8000 ==> item.signed_value() == item.value,
        item.size == 2 && item.value >= 0x8000 ==> item.signed_value() == item.value - 0x1_0000,
        item.size == 4 && item.value < 0x8000_0000 ==> item.signed_value() == item.value,
        item.size == 4 && item.value >= 0x8000_0000 ==> item.signed_value() == item.value
            - 0x1_0000_0000,
{
    vstd::arithmetic::power2::lemma2_to64();
}

/// A descriptor is read to its end, item by item, each where the one before it
/// ends. One whose last item is cut off says nothing; a long item, told by its
/// prefix of 0xFE, is stepped over by the length behind it.
pub proof fn a_descriptor_is_read_item_by_item(d: Seq<u8>, at: int, w: Walk)
    requires
        0 <= at,
    ensures
        at >= d.len() ==> walked(d, at, w) == Some(w.reports),
        at + 1 == d.len() && (d[at] == 0xFE || d[at] % 4 != 0) ==> walked(d, at, w) is None,
        at + 1 < d.len() && d[at] == 0xFE ==> walked(d, at, w) == walked(
            d,
            at + 3 + d[at + 1],
            w,
        ),
        at < d.len() && d[at] != 0xFE ==> {
            let item = item_at(d, at);
            &&& at + 1 + item.size > d.len() ==> walked(d, at, w) is None
            &&& at + 1 + item.size <= d.len() && w.after(item) is None ==> walked(d, at, w) is None
            &&& at + 1 + item.size <= d.len() ==> (w.after(item) matches Some(next) ==> walked(
                d,
                at,
                w,
            ) == walked(d, at + 1 + item.size, next))
        },
{
}

/// Kind 1 sets what holds until it is set again: tag 0 the usage page, 1 the
/// logical minimum, 7 the size of a value in bits, 8 the report, 9 how many
/// values there are. Saving the state, tag 10, and restoring it, tag 11, are
/// refused; the others are passed over.
pub proof fn globals_are_set_by_their_tags(w: Walk, item: Item)
    requires
        item.kind == 1,
        item.size <= 4,
    ensures
        item.tag == 0 ==> w.after(item) == Some(
            (Walk {
                globals: Globals { usage_page: (item.value % 0x1_0000) as u16, ..w.globals },
                ..w
            }),
        ),
        item.tag == 1 ==> w.after(item) == Some(
            (Walk {
                globals: Globals { logical_minimum: item.signed_value() as i32, ..w.globals },
                ..w
            }),
        ),
        item.tag == 7 ==> w.after(item) == Some(
            (Walk { globals: Globals { report_size: item.value as usize, ..w.globals }, ..w }),
        ),
        item.tag == 8 ==> w.after(item) == Some(
            (Walk {
                globals: Globals { report_id: Some((item.value % 0x100) as u8), ..w.globals },
                ..w
            }),
        ),
        item.tag == 9 ==> w.after(item) == Some(
            (Walk { globals: Globals { report_count: item.value as usize, ..w.globals }, ..w }),
        ),
        item.tag == 10 || item.tag == 11 ==> w.after(item) is None,
        1 < item.tag < 7 || item.tag > 11 ==> w.after(item) == Some(w),
{
}

/// Kind 2 describes the next main item only: tag 0 adds a usage, up to
/// sixteen of them, whose page a four-byte one carries in its upper half; tags
/// 1 and 2 are the ends of a range.
pub proof fn locals_are_set_by_their_tags(w: Walk, item: Item)
    requires
        item.kind == 2,
    ensures
        item.tag == 0 && w.locals.usages.len() < 16 ==> (w.after(item) matches Some(next)
            && next.locals.usages == w.locals.usages.push(
            (if item.size == 4 {
                (item.value % 0x1_0000) as u32
            } else {
                item.value
            }),
        ) && next.locals.minimum == w.locals.minimum && next.locals.maximum == w.locals.maximum
            && next.globals.usage_page == (if item.size == 4 {
            (item.value / 0x1_0000) as u16
        } else {
            w.globals.usage_page
        }) && next.reports == w.reports),
        item.tag == 0 && w.locals.usages.len() >= 16 ==> (w.after(item) matches Some(next)
            && next.locals == w.locals),
        item.tag == 1 ==> w.after(item) == Some(
            (Walk { locals: LocalsView { minimum: Some(item.value), ..w.locals }, ..w }),
        ),
        item.tag == 2 ==> w.after(item) == Some(
            (Walk { locals: LocalsView { maximum: Some(item.value), ..w.locals }, ..w }),
        ),
        item.tag > 2 ==> w.after(item) == Some(w),
{
}

/// Kind 0 does the work: tag 8 declares input; tag 10 opens a collection, one
/// on page 13 being a digitizer and so is all inside it; tag 12 closes it. The
/// others declare nothing. What described the item is then forgotten.
pub proof fn main_items_end_their_description(w: Walk, item: Item)
    requires
        item.kind == 0,
    ensures
        w.after(item) matches Some(next) && next.globals == w.globals && next.locals.usages.len()
            == 0 && next.locals.minimum is None && next.locals.maximum is None,
        item.tag == 8 ==> w.after(item) == Some(w.input(item.value)),
        item.tag != 8 ==> (w.after(item) matches Some(next) && next.reports == w.reports),
        item.tag == 10 ==> (w.after(item) matches Some(next) && (next.digitizer_depth > 0 <==>
            w.globals.usage_page == 13 || w.digitizer_depth > 0) && (w.digitizer_depth > 0
            ==> next.digitizer_depth == w.digitizer_depth + 1) && (w.digitizer_depth == 0
            ==> next.digitizer_depth <= 1)),
        item.tag == 12 && w.digitizer_depth > 0 ==> (w.after(item) matches Some(next)
            && next.digitizer_depth == w.digitizer_depth - 1),
        item.tag == 12 && w.digitizer_depth == 0 || item.tag != 10 && item.tag != 12 ==> (w.after(
            item,
        ) matches Some(next) && next.digitizer_depth == w.digitizer_depth),
{
}

/// Input goes to the report that was named last, which is begun where it is
/// new and there are fewer than sixteen; no other report changes.
pub proof fn input_goes_to_its_report(w: Walk, flags: u32, i: int)
    requires
        0 <= i < w.reports.len(),
    ensures
        w.reports[i].report_id != w.globals.report_id ==> w.input(flags).reports[i] == w.reports[i],
        w.reports[i].report_id == w.globals.report_id && (forall|j: int|
            0 <= j < i ==> #[trigger] w.reports[j].report_id != w.globals.report_id) ==> w.input(
            flags,
        ).reports == w.reports.update(i, w.input_candidate(w.reports[i], flags)),
{
    lemma_report_index(w.reports, w.globals.report_id);
    lemma_report_index(with_report(w.reports, w.globals.report_id), w.globals.report_id);
}

/// A report that is declared for the first time begins empty, at the end.
pub proof fn a_new_report_begins_empty(w: Walk, flags: u32)
    requires
        forall|j: int|
            0 <= j < w.reports.len() ==> #[trigger] w.reports[j].report_id != w.globals.report_id,
    ensures
        w.reports.len() < 16 ==> w.input(flags).reports == w.reports.push(
            w.input_candidate(
                (Candidate {
                    report_id: w.globals.report_id,
                    bits: 0,
                    x: None,
                    y: None,
                    buttons: None,
                    wheel: None,
                    modifiers: None,
                    keys: None,
                    digitizer: false,
                }),
                flags,
            ),
        ),
        w.reports.len() >= 16 ==> w.input(flags).reports == w.reports,
{
    lemma_report_index(w.reports, w.globals.report_id);
    lemma_report_index(with_report(w.reports, w.globals.report_id), w.globals.report_id);
    if w.reports.len() < 16 {
        assert(w.input(flags).reports =~= w.reports.push(
            w.input_candidate(Candidate::empty(w.globals.report_id), flags),
        ));
    }
}

proof fn lemma_report_index(reports: Seq<Candidate>, id: Option<u8>)
    ensures
        0 <= report_index(reports, id) <= reports.len(),
        report_index(reports, id) < reports.len() ==> reports[report_index(reports, id)].report_id
            == id,
        forall|j: int|
            0 <= j < report_index(reports, id) ==> #[trigger] reports[j].report_id != id,
    decreases reports.len(),
{
    if reports.len() > 0 && reports[0].report_id != id {
        let rest = reports.drop_first();
        lemma_report_index(rest, id);
        assert forall|j: int| 0 <= j < report_index(reports, id) implies #[trigger] reports[j].report_id
            != id by {
            if j > 0 {
                assert(rest[j - 1].report_id != id);
            }
        }
    }
}

/// Input takes as many bits as it has values of its size, whatever it is for,
/// and input inside a digitizer marks its report for good.
pub proof fn input_takes_its_bits(w: Walk, c: Candidate, flags: u32)
    requires
        c.bits + w.globals.report_size * w.globals.report_count <= usize::MAX,
    ensures
        w.input_candidate(c, flags).bits == c.bits + w.globals.report_size * w.globals.report_count,
        w.input_candidate(c, flags).report_id == c.report_id,
        w.input_candidate(c, flags).digitizer <==> c.digitizer || w.digitizer_depth > 0,
        flags % 2 == 1 ==> {
            let after = w.input_candidate(c, flags);
            &&& after.x == c.x && after.y == c.y && after.wheel == c.wheel
            &&& after.buttons == c.buttons && after.modifiers == c.modifiers && after.keys == c.keys
        },
{
}

/// Input that is not padding (bit 0) names a control each (bit 1) or a list,
/// and is a change (bit 2) or a position. On page 7 a list is the keys and the
/// usages from 0xE0 to 0xE7 are the modifiers, eight flags in a row.
pub proof fn keys_are_a_list_on_page_seven(w: Walk, c: Candidate, flags: u32)
    requires
        flags % 2 == 0,
        w.globals.usage_page == 7,
    ensures
        ({
            let after = w.input_candidate(c, flags);
            let here = Field {
                bit_offset: c.bits,
                bit_size: w.globals.report_size,
                count: w.globals.report_count,
                signed: false,
                relative: flags / 4 % 2 == 1,
            };
            &&& after.keys == (if c.keys is None && flags / 2 % 2 == 0 {
                Some(here)
            } else {
                c.keys
            })
            &&& after.modifiers == (if c.modifiers is None && flags / 2 % 2 == 1
                && w.locals.minimum == Some(0xE0u32) && w.locals.maximum == Some(0xE7u32) {
                Some(here)
            } else {
                c.modifiers
            })
            &&& after.x == c.x && after.y == c.y && after.wheel == c.wheel && after.buttons
                == c.buttons
        }),
{
}

/// On page 9 controls of their own are the buttons: as many as their range or
/// their list names, but no more than there are values.
pub proof fn buttons_are_on_page_nine(w: Walk, c: Candidate, flags: u32, named: int)
    requires
        flags % 2 == 0,
        w.globals.usage_page == 9,
        w.locals.usages.len() <= 16,
        match (w.locals.minimum, w.locals.maximum) {
            (Some(low), Some(high)) => if low <= high {
                named == high - low + 1
            } else {
                named == w.locals.usages.len()
            },
            _ => named == w.locals.usages.len(),
        },
        named <= usize::MAX,
    ensures
        ({
            let after = w.input_candidate(c, flags);
            &&& after.buttons == (if c.buttons is None && flags / 2 % 2 == 1 && named > 0 {
                Some(
                    Field {
                        bit_offset: c.bits,
                        bit_size: w.globals.report_size,
                        count: if named < w.globals.report_count {
                            named as usize
                        } else {
                            w.globals.report_count
                        },
                        signed: false,
                        relative: flags / 4 % 2 == 1,
                    },
                )
            } else {
                c.buttons
            })
            &&& after.x == c.x && after.y == c.y && after.wheel == c.wheel && after.keys == c.keys
                && after.modifiers == c.modifiers
        }),
{
}

/// On page 1 the usages 0x30, 0x31 and 0x38 are X, Y and the wheel, each at
/// the place in the item that its usage has; X and Y count as changes only.
pub proof fn axes_stand_where_their_usages_do(w: Walk, c: Candidate, flags: u32, k: int)
    requires
        flags % 2 == 0,
        flags / 2 % 2 == 1,
        w.globals.usage_page == 1,
        0 <= k < w.locals.usages.len() <= 16,
        c.bits + w.globals.report_size * 16 <= usize::MAX,
        forall|j: int|
            0 <= j < k ==> #[trigger] w.locals.usages[j] != w.locals.usages[k],
    ensures
        ({
            let after = w.input_candidate(c, flags);
            let relative = flags / 4 % 2 == 1;
            let here = Field {
                bit_offset: (c.bits + k * w.globals.report_size) as usize,
                bit_size: w.globals.report_size,
                count: 1,
                signed: w.globals.logical_minimum < 0,
                relative,
            };
            &&& w.locals.usages[k] == 0x30 ==> after.x == (if c.x is None && relative {
                Some(here)
            } else {
                c.x
            })
            &&& w.locals.usages[k] == 0x31 ==> after.y == (if c.y is None && relative {
                Some(here)
            } else {
                c.y
            })
            &&& w.locals.usages[k] == 0x38 ==> after.wheel == (if c.wheel is None {
                Some(here)
            } else {
                c.wheel
            })
        }),
{
    let usages = w.locals.usages;
    usages.index_of_first_ensures(usages[k]);
    assert(usages.contains(usages[k]));
    assert(k * w.globals.report_size <= 16 * w.globals.report_size) by (nonlinear_arith)
        requires
            0 <= k <= 16,
    ;
}

/// An axis that no usage names is not found there, and on no other page are
/// there any.
pub proof fn an_unnamed_axis_is_not_there(w: Walk, c: Candidate, flags: u32)
    ensures
        !w.locals.usages.contains(0x30) || flags / 4 % 2 == 0 || flags / 2 % 2 == 0
            || w.globals.usage_page != 1 ==> w.input_candidate(c, flags).x == c.x,
        !w.locals.usages.contains(0x31) || flags / 4 % 2 == 0 || flags / 2 % 2 == 0
            || w.globals.usage_page != 1 ==> w.input_candidate(c, flags).y == c.y,
        !w.locals.usages.contains(0x38) || flags / 2 % 2 == 0 || w.globals.usage_page != 1
            ==> w.input_candidate(c, flags).wheel == c.wheel,
        w.globals.usage_page != 9 ==> w.input_candidate(c, flags).buttons == c.buttons,
        w.globals.usage_page != 7 ==> w.input_candidate(c, flags).keys == c.keys
            && w.input_candidate(c, flags).modifiers == c.modifiers,
{
    w.locals.usages.index_of_first_ensures(0x30);
    w.locals.usages.index_of_first_ensures(0x31);
    w.locals.usages.index_of_first_ensures(0x38);
}

proof fn lemma_first_where(reports: Seq<Candidate>, p: spec_fn(Candidate) -> bool, i: int)
    requires
        0 <= i < reports.len(),
        p(reports[i]),
        forall|j: int| 0 <= j < i ==> !#[trigger] p(reports[j]),
    ensures
        first_where(reports, p) == Some(reports[i]),
    decreases reports.len(),
{
    if i > 0 {
        assert(!p(reports[0]));
        let rest = reports.drop_first();
        assert forall|j: int| 0 <= j < i - 1 implies !#[trigger] p(rest[j]) by {
            assert(rest[j] == reports[j + 1]);
        }
        lemma_first_where(rest, p, i - 1);
    }
}

/// The pointer is the first report with an X and a Y outside every digitizer,
/// as it was declared, in as many bytes as hold its bits.
pub proof fn the_pointer_is_the_first_with_both_axes(d: Seq<u8>, reports: Seq<Candidate>, i: int)
    requires
        parsed(d) == Some(reports),
        0 <= i < reports.len(),
        reports[i].x is Some && reports[i].y is Some && !reports[i].digitizer,
        forall|j: int|
            0 <= j < i ==> (#[trigger] reports[j]).x is None || reports[j].y is None
                || reports[j].digitizer,
    ensures
        pointer_of(d) matches Some(layout) && {
            &&& layout.report_id == reports[i].report_id
            &&& Some(layout.x) == reports[i].x
            &&& Some(layout.y) == reports[i].y
            &&& layout.buttons == reports[i].buttons
            &&& layout.wheel == reports[i].wheel
            &&& 8 * layout.body_bytes >= reports[i].bits > 8 * layout.body_bytes - 8
        },
{
    let p = |c: Candidate| c.is_pointer();
    assert forall|j: int| 0 <= j < i implies !#[trigger] p(reports[j]) by {
        let before = reports[j];
        assert(before.x is None || before.y is None || before.digitizer);
    }
    lemma_first_where(reports, p, i);
}

/// The keyboard is the first report with a list of keys, as it was declared,
/// in as many bytes as hold its bits.
pub proof fn the_keyboard_is_the_first_with_keys(d: Seq<u8>, reports: Seq<Candidate>, i: int)
    requires
        parsed(d) == Some(reports),
        0 <= i < reports.len(),
        reports[i].keys is Some,
        forall|j: int| 0 <= j < i ==> (#[trigger] reports[j]).keys is None,
    ensures
        keyboard_of(d) matches Some(layout) && {
            &&& layout.report_id == reports[i].report_id
            &&& Some(layout.keys) == reports[i].keys
            &&& layout.modifiers == reports[i].modifiers
            &&& 8 * layout.body_bytes >= reports[i].bits > 8 * layout.body_bytes - 8
        },
{
    let p = |c: Candidate| c.keys is Some;
    assert forall|j: int| 0 <= j < i implies !#[trigger] p(reports[j]) by {
        assert(reports[j].keys is None);
    }
    lemma_first_where(reports, p, i);
}

/// A descriptor is read from its first byte, on no page, with no report.
pub proof fn a_descriptor_is_read_from_its_first_byte(d: Seq<u8>)
    ensures
        parsed(d) == walked(
            d,
            0,
            (Walk {
                globals: Globals {
                    usage_page: 0,
                    logical_minimum: 0,
                    report_size: 0,
                    report_count: 0,
                    report_id: None,
                },
                locals: LocalsView { usages: Seq::empty(), minimum: None, maximum: None },
                reports: Seq::empty(),
                digitizer_depth: 0,
            }),
        ),
{
}

} // verus!
