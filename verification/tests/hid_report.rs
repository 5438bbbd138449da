//! Report descriptors and the reports laid out by them.
use nanochrono::hid_report::{find_keyboard, find_pointer, parse, slot_for, Candidate, Field};

/// A touchpad that also speaks as a mouse: report 1 is relative movement,
/// report 84 the absolute contacts of the digitizer.
const ELAN: &[u8] = &[
    0x05, 0x01,       // Usage Page (Generic Desktop)
    0x09, 0x02,       // Usage (Mouse)
    0xA1, 0x01,       // Collection (Application)
    0x09, 0x01,       //   Usage (Pointer)
    0xA1, 0x00,       //   Collection (Physical)
    0x85, 0x01,       //     Report ID (1)
    0x05, 0x09,       //     Usage Page (Button)
    0x19, 0x01,       //     Usage Minimum (1)
    0x29, 0x02,       //     Usage Maximum (2)
    0x15, 0x00,       //     Logical Minimum (0)
    0x25, 0x01,       //     Logical Maximum (1)
    0x75, 0x01,       //     Report Size (1)
    0x95, 0x02,       //     Report Count (2)
    0x81, 0x02,       //     Input (Data, Variable, Absolute)
    0x95, 0x06,       //     Report Count (6)
    0x81, 0x03,       //     Input (Constant)
    0x05, 0x01,       //     Usage Page (Generic Desktop)
    0x09, 0x30,       //     Usage (X)
    0x09, 0x31,       //     Usage (Y)
    0x15, 0x81,       //     Logical Minimum (-127)
    0x25, 0x7F,       //     Logical Maximum (127)
    0x75, 0x08,       //     Report Size (8)
    0x95, 0x02,       //     Report Count (2)
    0x81, 0x06,       //     Input (Data, Variable, Relative)
    0x95, 0x05,       //     Report Count (5)
    0x81, 0x03,       //     Input (Constant)
    0xC0,             //   End Collection
    0xC0,             // End Collection
    0x05, 0x0D,       // Usage Page (Digitizer)
    0x09, 0x05,       // Usage (Touch Pad)
    0xA1, 0x01,       // Collection (Application)
    0x85, 0x54,       //   Report ID (84)
    0x09, 0x22,       //   Usage (Finger)
    0xA1, 0x02,       //   Collection (Logical)
    0x09, 0x42,       //     Usage (Tip Switch)
    0x15, 0x00,       //     Logical Minimum (0)
    0x25, 0x01,       //     Logical Maximum (1)
    0x75, 0x01,       //     Report Size (1)
    0x95, 0x01,       //     Report Count (1)
    0x81, 0x02,       //     Input (Data, Variable, Absolute)
    0x95, 0x07,       //     Report Count (7)
    0x81, 0x03,       //     Input (Constant)
    0x05, 0x01,       //     Usage Page (Generic Desktop)
    0x26, 0xFF, 0x0F, //     Logical Maximum (4095)
    0x75, 0x10,       //     Report Size (16)
    0x95, 0x01,       //     Report Count (1)
    0x09, 0x30,       //     Usage (X)
    0x81, 0x02,       //     Input (Data, Variable, Absolute)
    0x09, 0x31,       //     Usage (Y)
    0x81, 0x02,       //     Input (Data, Variable, Absolute)
    0xC0,             //   End Collection
    0xC0,             // End Collection
];

/// A notebook keyboard behind vendor collections, one with a long report.
const ITE_KEYBOARD: &[u8] = &[
    0x06, 0x89, 0xFF, // Usage Page (vendor)
    0x09, 0x10,       // Usage
    0xA1, 0x01,       // Collection (Application)
    0x85, 0x5A,       //   Report ID (90)
    0x09, 0x01,       //   Usage
    0x15, 0x00,       //   Logical Minimum (0)
    0x26, 0xFF, 0x00, //   Logical Maximum (255)
    0x75, 0x08,       //   Report Size (8)
    0x95, 0xBF,       //   Report Count (191)
    0x81, 0x02,       //   Input (Data, Variable)
    0xC0,             // End Collection
    0x06, 0x89, 0xFF, // Usage Page (vendor)
    0x09, 0x07,       // Usage
    0xA1, 0x01,       // Collection (Application)
    0x85, 0xCC,       //   Report ID (204)
    0x09, 0x02,       //   Usage
    0x95, 0x06,       //   Report Count (6)
    0x81, 0x02,       //   Input (Data, Variable)
    0xC0,             // End Collection
    0x06, 0x85, 0xFF, // Usage Page (vendor)
    0x09, 0x94,       // Usage
    0xA1, 0x01,       // Collection (Application)
    0x85, 0x5D,       //   Report ID (93)
    0x09, 0x03,       //   Usage
    0x95, 0x10,       //   Report Count (16)
    0x81, 0x02,       //   Input (Data, Variable)
    0xC0,             // End Collection
    0x05, 0x01,       // Usage Page (Generic Desktop)
    0x09, 0x06,       // Usage (Keyboard)
    0xA1, 0x01,       // Collection (Application)
    0x85, 0x01,       //   Report ID (1)
    0x05, 0x07,       //   Usage Page (Keyboard)
    0x19, 0xE0,       //   Usage Minimum (224)
    0x29, 0xE7,       //   Usage Maximum (231)
    0x15, 0x00,       //   Logical Minimum (0)
    0x25, 0x01,       //   Logical Maximum (1)
    0x75, 0x01,       //   Report Size (1)
    0x95, 0x08,       //   Report Count (8)
    0x81, 0x02,       //   Input (Data, Variable)
    0x75, 0x08,       //   Report Size (8)
    0x95, 0x01,       //   Report Count (1)
    0x81, 0x03,       //   Input (Constant)
    0x19, 0x00,       //   Usage Minimum (0)
    0x2A, 0xFF, 0x00, //   Usage Maximum (255)
    0x26, 0xFF, 0x00, //   Logical Maximum (255)
    0x75, 0x08,       //   Report Size (8)
    0x95, 0x0D,       //   Report Count (13)
    0x81, 0x00,       //   Input (Data, Array)
    0xC0,             // End Collection
];

/// A textbook three-byte relative mouse, with no report ID.
const PLAIN_MOUSE: &[u8] = &[
    0x05, 0x01,       // Usage Page (Generic Desktop)
    0x09, 0x02,       // Usage (Mouse)
    0xA1, 0x01,       // Collection (Application)
    0x09, 0x01,       //   Usage (Pointer)
    0xA1, 0x00,       //   Collection (Physical)
    0x05, 0x09,       //     Usage Page (Button)
    0x19, 0x01,       //     Usage Minimum (1)
    0x29, 0x03,       //     Usage Maximum (3)
    0x15, 0x00,       //     Logical Minimum (0)
    0x25, 0x01,       //     Logical Maximum (1)
    0x95, 0x03,       //     Report Count (3)
    0x75, 0x01,       //     Report Size (1)
    0x81, 0x02,       //     Input (Data, Variable, Absolute)
    0x95, 0x01,       //     Report Count (1)
    0x75, 0x05,       //     Report Size (5)
    0x81, 0x01,       //     Input (Constant)
    0x05, 0x01,       //     Usage Page (Generic Desktop)
    0x09, 0x30,       //     Usage (X)
    0x09, 0x31,       //     Usage (Y)
    0x15, 0x81,       //     Logical Minimum (-127)
    0x25, 0x7F,       //     Logical Maximum (127)
    0x75, 0x08,       //     Report Size (8)
    0x95, 0x02,       //     Report Count (2)
    0x81, 0x06,       //     Input (Data, Variable, Relative)
    0xC0,             //   End Collection
    0xC0,             // End Collection
];

#[test]
fn a_plain_mouse_is_laid_out_where_the_specification_says() {
    let layout = find_pointer(PLAIN_MOUSE).expect("a pointer");
    assert_eq!(layout.report_id, None);
    assert_eq!(layout.body_bytes, 3);

    let buttons = layout.buttons.expect("buttons");
    assert_eq!(buttons.bit_offset, 0);
    assert_eq!(buttons.count, 3);

    assert_eq!(layout.x.bit_offset, 8);
    assert_eq!(layout.x.bit_size, 8);
    assert!(layout.x.signed);
    assert!(layout.x.relative);
    assert_eq!(layout.y.bit_offset, 16);
}

#[test]
fn a_plain_mouse_report_decodes() {
    let layout = find_pointer(PLAIN_MOUSE).expect("a pointer");
    // Left button held, four right, three up.
    let movement = layout.decode(&[0x01, 0x04, 0xFD]).expect("movement");
    assert_eq!(movement.dx, 4);
    assert_eq!(movement.dy, -3);
    assert!(movement.left);
    assert!(!movement.right);
}

#[test]
fn negative_deltas_sign_extend() {
    let layout = find_pointer(PLAIN_MOUSE).expect("a pointer");
    let movement = layout.decode(&[0x00, 0xFF, 0xFF]).expect("movement");
    assert_eq!((movement.dx, movement.dy), (-1, -1));
}

#[test]
fn the_real_touchpad_descriptor_yields_its_mouse_report() {
    let layout = find_pointer(ELAN).expect("a pointer in the Elan descriptor");

    // Report 1 is the mouse collection. Report 84 is the digitizer, which
    // reports absolute contacts.
    assert_eq!(layout.report_id, Some(1));

    assert_eq!(layout.x.bit_size, 8);
    assert!(layout.x.relative, "the mouse report is relative");
    assert!(layout.x.signed, "logical minimum is -127");
    assert_eq!(layout.y.bit_offset, layout.x.bit_offset + 8);

    let buttons = layout.buttons.expect("buttons");
    assert_eq!(buttons.bit_offset, 0);
    assert_eq!(buttons.count, 2, "the touchpad declares two buttons");

    // Two button bits, six of padding, then X and Y.
    assert_eq!(layout.x.bit_offset, 8);
}

#[test]
fn the_real_touchpad_report_decodes() {
    let layout = find_pointer(ELAN).expect("a pointer");
    // Report ID 1, no buttons, +10 in X, -5 in Y, then the padding the
    // descriptor declares.
    let report = [1u8, 0x00, 10, 0xFB, 0, 0, 0, 0, 0];
    let movement = layout.decode(&report).expect("movement");
    assert_eq!(movement.dx, 10);
    assert_eq!(movement.dy, -5);
    assert!(!movement.left && !movement.right);

    let clicked = layout.decode(&[1u8, 0x01, 0, 0, 0, 0, 0, 0, 0]).expect("movement");
    assert!(clicked.left);
}

#[test]
fn a_report_from_another_collection_is_refused() {
    let layout = find_pointer(ELAN).expect("a pointer");
    assert!(layout.decode(&[84u8, 0x01, 0x02, 0x03, 0x04]).is_none());
}

#[test]
fn the_real_keyboard_descriptor_yields_its_key_report() {
    let layout = find_keyboard(ITE_KEYBOARD).expect("a keyboard in the ITE descriptor");

    // Report 1 is the keyboard collection; three vendor collections come
    // before it.
    assert_eq!(layout.report_id, Some(1));

    let modifiers = layout.modifiers.expect("the modifier bitmap");
    assert_eq!(modifiers.bit_offset, 0);
    assert_eq!(modifiers.bit_size, 1);
    assert_eq!(modifiers.count, 8);

    // Eight modifier bits, then a reserved byte, then the key slots.
    assert_eq!(layout.keys.bit_offset, 16);
    assert_eq!(layout.keys.bit_size, 8);
    assert!(layout.keys.count >= 6);
}

#[test]
fn the_real_keyboard_report_decodes() {
    let layout = find_keyboard(ITE_KEYBOARD).expect("a keyboard");
    // Report 1, left shift held, `a` (usage 0x04) and `b` (0x05) down.
    let mut report = [0u8; 16];
    report[0] = 1;
    report[1] = 0x02;
    report[3] = 0x04;
    report[4] = 0x05;

    let boot = layout.decode(&report).expect("a boot-shaped report");
    assert_eq!(boot[0], 0x02, "modifiers");
    assert_eq!(boot[2], 0x04);
    assert_eq!(boot[3], 0x05);
    assert_eq!(boot[4], 0x00);
}

#[test]
fn a_keyboard_is_not_mistaken_for_a_pointer_or_the_reverse() {
    assert!(find_pointer(ITE_KEYBOARD).is_none());
    assert!(find_keyboard(ELAN).is_none());
    assert!(find_keyboard(PLAIN_MOUSE).is_none());
}

#[test]
fn a_truncated_keyboard_descriptor_is_refused_rather_than_misread() {
    for cut in 0..ITE_KEYBOARD.len() {
        let _ = find_keyboard(&ITE_KEYBOARD[..cut]);
        let _ = find_pointer(&ITE_KEYBOARD[..cut]);
    }
}

#[test]
fn a_keyboard_descriptor_has_no_pointer() {
    let keyboard: &[u8] = &[
        0x05, 0x01,       // Usage Page (Generic Desktop)
        0x09, 0x06,       // Usage (Keyboard)
        0xA1, 0x01,       // Collection (Application)
        0x05, 0x07,       //   Usage Page (Keyboard)
        0x19, 0xE0,       //   Usage Minimum (224)
        0x29, 0xE7,       //   Usage Maximum (231)
        0x15, 0x00, 0x25, 0x01,
        0x75, 0x01, 0x95, 0x08,
        0x81, 0x02,       //   Input (Data, Variable)
        0xC0,             // End Collection
    ];
    assert!(find_pointer(keyboard).is_none());
}

#[test]
fn a_truncated_descriptor_is_refused_rather_than_misread() {
    for cut in 0..ELAN.len() {
        let _ = find_pointer(&ELAN[..cut]);
    }
}

/// Every size at its 32-bit maximum, a button range spanning all of `u32`,
/// repeated so the running offset would wrap.
#[test]
fn a_hostile_descriptor_cannot_overflow_the_parser() {
    let hostile: &[u8] = &[
        0x05, 0x09,                         // Usage Page (Button)
        0x1B, 0x00, 0x00, 0x00, 0x00,       // Usage Minimum (0)
        0x2B, 0xFF, 0xFF, 0xFF, 0xFF,       // Usage Maximum (u32::MAX)
        0x77, 0xFF, 0xFF, 0xFF, 0xFF,       // Report Size (u32::MAX)
        0x97, 0xFF, 0xFF, 0xFF, 0xFF,       // Report Count (u32::MAX)
        0x81, 0x02,                         // Input (Data, Variable)
        0x05, 0x01,                         // Usage Page (Generic Desktop)
        0x09, 0x30, 0x09, 0x31,             // Usage (X), Usage (Y)
        0x81, 0x06,                         // Input (Data, Variable, Relative)
        0x81, 0x06,
        0x81, 0x06,
    ];
    let _ = find_keyboard(hostile);
    if let Some(layout) = find_pointer(hostile) {
        let _ = layout.decode(&[0xFF; 64]);
        let _ = layout.decode(&[]);
    }
    // And every prefix of it.
    for cut in 0..hostile.len() {
        let _ = find_pointer(&hostile[..cut]);
    }
}

#[test]
fn a_field_whose_offset_wraps_reads_zero() {
    let field = Field {
        bit_offset: usize::MAX - 3,
        bit_size: 8,
        count: 4,
        signed: false,
        relative: true,
    };
    assert_eq!(field.value(&[0xFF; 8], 3), 0);
    assert_eq!(field.value(&[0xFF; 8], 0), 0);
}

#[test]
fn a_field_reading_past_a_short_report_is_zero() {
    let layout = find_pointer(PLAIN_MOUSE).expect("a pointer");
    let movement = layout.decode(&[0x00]).expect("movement");
    assert_eq!((movement.dx, movement.dy), (0, 0));
}

#[test]
fn fields_read_across_bytes() {
    let field = Field { bit_offset: 4, bit_size: 12, count: 2, signed: true, relative: true };
    assert_eq!(field.value(&[0xF0, 0x7F, 0x01, 0x80], 0), 0x7FF);
    assert_eq!(field.value(&[0xF0, 0xFF, 0x01, 0x80], 0), -1);
    assert_eq!(field.value(&[0xF0, 0xFF, 0x01, 0x80], 2), 0);
    let unsigned = Field { signed: false, ..field };
    assert_eq!(unsigned.value(&[0xF0, 0xFF, 0x01, 0x80], 0), 0xFFF);
    assert_eq!(Field::default().value(&[0xFF], 0), 0);
    let buttons = Field { bit_offset: 0, bit_size: 1, count: 3, signed: false, relative: false };
    assert!(buttons.bit(&[0b101], 0) && !buttons.bit(&[0b101], 1) && buttons.bit(&[0b101], 2));
}

#[test]
fn a_report_has_one_slot() {
    let mut reports = Vec::new();
    assert_eq!(slot_for(&mut reports, None), Some(0));
    assert_eq!(slot_for(&mut reports, Some(3)), Some(1));
    assert_eq!(slot_for(&mut reports, None), Some(0));
    for id in 10..24 {
        slot_for(&mut reports, Some(id));
    }
    assert_eq!(reports.len(), 16);
    assert_eq!(slot_for(&mut reports, Some(99)), None);
    assert_eq!(reports[1], Candidate::new(Some(3)));
}

#[test]
fn parsing_gives_every_report() {
    let reports = parse(ELAN).expect("reports");
    assert_eq!(reports.len(), 2);
    assert_eq!(reports[0].report_id, Some(1));
    assert_eq!(reports[0].bits, 64);
    assert_eq!(reports[1].report_id, Some(84));
    assert!(reports[1].digitizer && !reports[1].is_keyboard());
    assert!(parse(&[0x06, 0x01]).is_none());
}

/// Where the items of a descriptor of short items end, each with its prefix.
fn item_ends(descriptor: &[u8]) -> Vec<(u8, usize)> {
    let mut ends = Vec::new();
    let mut at = 0;
    while at < descriptor.len() {
        let prefix = descriptor[at];
        at += 1 + [0, 1, 2, 4][(prefix % 4) as usize];
        ends.push((prefix, at));
    }
    ends
}

fn inserted(descriptor: &[u8], at: usize, item: &[u8]) -> Vec<u8> {
    [&descriptor[..at], item, &descriptor[at..]].concat()
}

#[test]
fn items_without_input_change_nothing() {
    for descriptor in [ELAN, ITE_KEYBOARD, PLAIN_MOUSE] {
        let (pointer, keyboard) = (find_pointer(descriptor), find_keyboard(descriptor));
        for (prefix, at) in item_ends(descriptor) {
            let long = inserted(descriptor, at, &[0xFE, 3, 0x42, 0x81, 0x02, 0xC0]);
            assert_eq!(find_pointer(&long), pointer);
            assert_eq!(find_keyboard(&long), keyboard);
            if prefix / 4 % 4 == 0 {
                for item in [&[0x91, 0x02][..], &[0xB1, 0x02], &[0x90], &[0xB2, 0x02, 0x01]] {
                    let with = inserted(descriptor, at, item);
                    assert_eq!(find_pointer(&with), pointer);
                    assert_eq!(find_keyboard(&with), keyboard);
                }
            }
        }
        assert_eq!(find_pointer(&inserted(descriptor, 0, &[0xFE, 0, 0])), pointer);
    }
}
