//! The USB host controller: its layout, its rings and its enumeration.
use nanochrono::xhci::{
    build_address_context, build_endpoint_context, claim, default_max_packet, layout_fits,
    parse_configuration, port_enabled, port_speed, scratchpad_count, survey, take_event,
    xecp_in_bar, Access, CapabilityStep, CapabilityWalk, ContextWrite, Enumeration, Event,
    Handoff, HandoffAction, HidDevice, HidKind, Memory, Parsed, Producer, Progress, Request,
    Ring, RingName, Setup, Stage, Trb, Xhci, CC_SHORT_PACKET, CC_SUCCESS, CONTROL_ENABLE_SLOT,
    PORTSC_CCS, PORTSC_PED, PORTSC_PP, PORTSC_PR, TRB_COMMAND_COMPLETION, TRB_TRANSFER_EVENT,
    XHCI_CMD_HCRST, XHCI_PORTSC,
};

fn controller() -> Xhci {
    // Four ports, 32-byte contexts, doorbells and runtime well inside.
    Xhci::new(true, 0x1_0000, 0x20, 0x0400_0008, 0, 0, 0x3000, 0x2000).expect("a controller")
}

fn memory() -> Memory {
    Memory {
        dcbaa: 0x10_0000,
        scratchpad_pages: 0x20_0000,
        command_ring: 0x30_0000,
        event_ring: 0x31_0000,
        erst: 0x32_0000,
        transfer_rings: 0x33_0000,
        device_contexts: 0x34_0000,
        input_context: 0x35_0000,
        buffers: 0x36_0000,
    }
}

/// A boot keyboard: configuration 1, interface 0, endpoint 1 IN, 8 bytes.
const KEYBOARD: [u8; 34] = [
    9, 2, 34, 0, 1, 1, 0, 0xA0, 50, // configuration
    9, 4, 0, 0, 1, 3, 1, 1, 0, // interface: HID, boot, keyboard
    9, 0x21, 0x11, 1, 0, 1, 0x22, 63, 0, // HID
    7, 5, 0x81, 3, 8, 0, 10, // endpoint
];

#[test]
fn a_controller_outside_its_bar_is_not_driven() {
    assert!(Xhci::new(false, 0x1_0000, 0x20, 0x0400_0008, 0, 0, 0x3000, 0x2000).is_none());
    assert!(Xhci::new(true, 0x800, 0x20, 0x0400_0008, 0, 0, 0x100, 0x200).is_none());
    assert!(Xhci::new(true, 0x1_0000, 0x20, 0x0400_0008, 0, 0, 0xFFFC, 0x2000).is_none());
    let wide =
        Xhci::new(true, 0x1_0000, 0x20, 0x0400_0008, 0, 4, 0x3002, 0x2011).expect("fits");
    assert_eq!((wide.context_size, wide.doorbell, wide.runtime), (64, 0x3000, 0x2000));
    assert_eq!(wide.max_ports(), 4);
    assert!(layout_fits(0x1_0000, 0x20, 0x3000, 0x2000, 4));
    assert!(!layout_fits(0x430, 0x20, 0x300, 0x200, 4));
    assert!(xecp_in_bar(0x500, 0x1_0000) && !xecp_in_bar(0xFFFE, 0x1_0000));
}

#[test]
fn scratchpad_counts_join_their_halves() {
    // High five bits at 21, low five at 27.
    assert_eq!(scratchpad_count(2 << 27), 2);
    assert_eq!(scratchpad_count((1 << 21) | (3 << 27)), 35);
    let asking = |hcs2: u32| {
        Xhci::new(true, 0x1_0000, 0x20, 0x0400_0008, hcs2, 0, 0x3000, 0x2000).expect("a controller")
    };
    let mut x = asking(2 << 27);
    let entries = x.configure_scratchpad(&memory());
    assert_eq!(entries, vec![0x20_0000, 0x20_1000]);
    assert_eq!((x.scratchpad_pages(), x.provided), (2, 2));
    // What is reported is what was asked for, though less is provided.
    let mut greedy = asking((3 << 21) | (4 << 27));
    assert_eq!(greedy.scratchpad_pages(), 100);
    assert_eq!(greedy.configure_scratchpad(&memory()).len(), 64);
    assert_eq!((greedy.scratchpad_pages(), greedy.provided), (100, 64));
}

#[test]
fn a_survey_reads_only_what_is_there() {
    assert_eq!(survey(true, 0x1_0000, 2 << 27, Some(1)), (2, true));
    assert_eq!(survey(true, 0x1000, 2 << 27, Some(0)), (2, false));
    assert_eq!(survey(true, 0x1_0000, 2 << 27, None), (2, false));
    assert_eq!(survey(false, 0x1_0000, 2 << 27, Some(1)), (0, false));
    assert_eq!(survey(true, 0xFFF, 2 << 27, Some(1)), (0, false));
}

#[test]
fn the_capability_list_is_walked_to_the_legacy_entry() {
    // The list starts at dword 0x140, that is 0x500.
    let mut walk = CapabilityWalk::new(0x0140_0000);
    assert_eq!(walk.wants(0x1_0000), Some(0x500));
    // Another capability, next one four dwords on.
    assert_eq!(walk.step(0x1_0000, 0x0402), CapabilityStep::Next);
    assert_eq!(walk.wants(0x1_0000), Some(0x510));
    assert_eq!(walk.step(0x1_0000, 0x0001), CapabilityStep::Legacy { offset: 0x510 });
    let mut last = CapabilityWalk::new(0x0140_0000);
    assert_eq!(last.step(0x1_0000, 0x0002), CapabilityStep::End);
    assert_eq!(CapabilityWalk::new(0).wants(0x1_0000), None);
}

#[test]
fn a_list_that_turns_in_a_circle_is_left() {
    let mut walk = CapabilityWalk::new(0x0140_0000);
    let mut steps = 0;
    while walk.wants(usize::MAX / 2).is_some() {
        if walk.step(usize::MAX / 2, 0x0102) != CapabilityStep::Next {
            break;
        }
        steps += 1;
    }
    assert!(steps <= 64);
}

#[test]
fn firmware_is_asked_and_waited_for_and_then_overruled() {
    let mut free = Handoff::Asking;
    assert!(matches!(free.step(0), HandoffAction::Claim | HandoffAction::Proceed { .. }));
    let mut held = Handoff::Asking;
    let mut waits = 0;
    let mut claims = 0;
    loop {
        match held.step(1) {
            HandoffAction::Claim => claims += 1,
            HandoffAction::Wait { .. } => waits += 1,
            HandoffAction::Proceed { .. } => break,
        }
        assert!(waits <= 50 && claims <= 1);
    }
    assert_eq!(claims, 1);
    assert_eq!(claim(0x500, 0x1_0000), Access::Write8 { offset: 0x503, byte: 1 });
}

#[test]
fn a_ring_wraps_through_its_link() {
    let mut at = Producer::new();
    let block = Trb { parameter: 7, status: 8, control: 0x2400 };
    for i in 0..15 {
        let writes = at.place(0x30_0000, block);
        assert_eq!(writes.len(), 1);
        assert_eq!(writes[0].index, i);
        assert_eq!(writes[0].trb.control, 0x2401);
    }
    // The last entry is the link; what follows carries the other cycle.
    let writes = at.place(0x30_0000, block);
    assert_eq!(writes.len(), 2);
    assert_eq!(writes[0].index, 15);
    assert_eq!(writes[0].trb.parameter, 0x30_0000);
    assert_eq!(writes[0].trb.control, 0x1803);
    assert_eq!((writes[1].index, writes[1].trb.control), (0, 0x2400));
    assert_eq!((at.index, at.cycle), (1, 0));
}

#[test]
fn an_event_is_taken_once() {
    let mut at = Producer::new();
    let mut ring = Ring::new();
    assert_eq!(take_event(&mut at, &ring), None);
    ring.trbs[0] = Trb {
        parameter: 0x30_0000,
        status: CC_SUCCESS << 24,
        control: (TRB_COMMAND_COMPLETION << 10) | (3 << 24) | 1,
    };
    assert_eq!(
        take_event(&mut at, &ring),
        Some(Event {
            kind: TRB_COMMAND_COMPLETION,
            completion: CC_SUCCESS,
            parameter: 0x30_0000,
            slot: 3
        })
    );
    assert_eq!(take_event(&mut at, &ring), None);
}

#[test]
fn setup_packets_pack_in_wire_order() {
    let setup =
        Setup { request_type: 0x80, request: 6, value: 0x0100, index: 0, length: 18 };
    assert_eq!(setup.as_u64(), 0x0012_0000_0100_0680);
}

#[test]
fn the_first_hid_endpoint_is_found() {
    assert_eq!(
        parse_configuration(&KEYBOARD),
        Some(Parsed {
            configuration: 1,
            interface: 0,
            endpoint: 0x81,
            max_packet: 8,
            kind: HidKind::Keyboard
        })
    );
    for cut in 0..KEYBOARD.len() {
        assert_eq!(parse_configuration(&KEYBOARD[..cut]), None, "cut at {cut}");
    }
    let mut vendor = KEYBOARD;
    vendor[14] = 0xFF;
    assert_eq!(parse_configuration(&vendor), None);
    let mut out = KEYBOARD;
    out[29] = 0x01;
    assert_eq!(parse_configuration(&out), None);
    assert_eq!(HidKind::Pointer.name(), "pointer");
}

#[test]
fn resetting_waits_for_the_controller() {
    let x = controller();
    let plan = x.reset(1);
    assert!(plan.contains(&Access::WaitClear { offset: 0x20, mask: XHCI_CMD_HCRST }));
    assert!(!x.run(0).is_empty());
    assert!(!x.configure_rings(0x0400_0008, &memory()).is_empty());
}

#[test]
fn ports_are_read_and_written_with_care() {
    let x = controller();
    assert_eq!(x.port_status(1), 0x20 + XHCI_PORTSC);
    assert_eq!(x.port_status(3), 0x20 + XHCI_PORTSC + 0x20);
    assert_eq!(x.connected_ports(&[0, PORTSC_CCS, 0, PORTSC_CCS | PORTSC_PED]), vec![2, 4]);
    assert_eq!(x.power_port(1, PORTSC_PP), None);
    // Changes stay unacknowledged, and the enabled bit is not cleared by
    // writing it back.
    let Some(Access::Write32 { value, .. }) = x.power_port(1, PORTSC_PED | 0x2_0000) else {
        panic!("an unpowered port is powered");
    };
    assert_eq!(value & (PORTSC_PED | 0x2_0000), 0);
    assert_eq!(value & PORTSC_PP, PORTSC_PP);
    let plan = x.reset_port(2, PORTSC_PP | PORTSC_CCS);
    assert!(plan.iter().any(
        |a| matches!(a, Access::Write32 { value, .. } if value & PORTSC_PR != 0)
    ));
    assert!(port_enabled(PORTSC_PED) && !port_enabled(PORTSC_CCS));
    assert_eq!(port_speed(3 << 10), 3);
    assert_eq!(default_max_packet(3), 64);
    assert_eq!(default_max_packet(4), 512);
    assert_eq!(default_max_packet(2), 8);
}

#[test]
fn contexts_name_the_port_and_the_ring() {
    let writes = build_address_context(32, 3, 2, 64, 0x33_0000);
    assert!(writes.contains(&ContextWrite { offset: 4, value: 3 }));
    assert!(writes.iter().any(|w| w.value == 0x33_0001));
    let writes = build_endpoint_context(32, 0x81, 8, 0x33_0000).expect("an endpoint");
    assert!(writes.contains(&ContextWrite { offset: 4, value: (1 << 3) | 1 }));
    assert!(build_endpoint_context(32, 0x80, 8, 0x33_0000).is_none());
}

fn reply(kind: u32, slot: u8) -> Option<Event> {
    Some(Event { kind, completion: CC_SUCCESS, parameter: 0, slot })
}

fn ask(progress: Progress) -> Request {
    match progress {
        Progress::Ask(_, request) => request,
        other => panic!("{other:?}"),
    }
}

/// Enumerates a keyboard on port 2, with every answer a success.
fn enumerated() -> (Xhci, HidDevice) {
    let mut x = controller();
    let m = memory();
    let status = PORTSC_CCS | PORTSC_PED | (1 << 10);
    let (mut e, request) = x.enumerate(&m, 2).expect("room");
    assert_eq!(e, Enumeration { port: 2, index: 0, stage: Stage::EnableSlot });
    assert_eq!(request.ring, RingName::Command);
    assert_eq!(request.writes[0].trb.control, CONTROL_ENABLE_SLOT | 1);

    let mut buffer = [0u8; 256];
    let request =
        ask(x.enumerate_step(&m, &mut e, reply(TRB_COMMAND_COMPLETION, 1), status, &buffer));
    assert_eq!(request.writes[0].trb.parameter, m.input_context);

    let request =
        ask(x.enumerate_step(&m, &mut e, reply(TRB_COMMAND_COMPLETION, 1), status, &buffer));
    assert_eq!(request.ring, RingName::Transfer { device: 0 });
    assert_eq!(request.writes.len(), 3);

    buffer[8..12].copy_from_slice(&[0x6D, 0x04, 0x1C, 0xC3]);
    ask(x.enumerate_step(&m, &mut e, reply(TRB_TRANSFER_EVENT, 1), status, &buffer));
    buffer[..KEYBOARD.len()].copy_from_slice(&KEYBOARD);
    let request =
        ask(x.enumerate_step(&m, &mut e, reply(TRB_TRANSFER_EVENT, 1), status, &buffer));
    assert_eq!(request.writes.len(), 2);
    ask(x.enumerate_step(&m, &mut e, reply(TRB_TRANSFER_EVENT, 1), status, &buffer));
    // A device need not know the boot protocol request.
    ask(x.enumerate_step(&m, &mut e, None, status, &buffer));
    match x.enumerate_step(&m, &mut e, reply(TRB_COMMAND_COMPLETION, 1), status, &buffer) {
        Progress::Done(0, device) => (x, device),
        other => panic!("{other:?}"),
    }
}

#[test]
fn a_keyboard_is_enumerated() {
    let (x, device) = enumerated();
    assert_eq!(
        device,
        HidDevice { kind: HidKind::Keyboard, vendor: 0x046D, product: 0xC31C, report_len: 8 }
    );
    assert_eq!(x.device_count, 1);
    assert_eq!(x.devices[0].endpoint, 0x81);
    assert_eq!(x.device_of_slot(1), Some(0));
    assert_eq!(x.device_of_slot(2), None);
}

#[test]
fn a_slot_past_the_array_is_refused() {
    let mut x = controller();
    let m = memory();
    let (mut e, _) = x.enumerate(&m, 1).expect("room");
    let progress =
        x.enumerate_step(&m, &mut e, reply(TRB_COMMAND_COMPLETION, 9), 0, &[0; 64]);
    assert!(matches!(progress, Progress::Failed));
    assert_eq!(x.device_count, 0);
}

#[test]
fn a_failed_request_ends_the_enumeration() {
    let mut x = controller();
    let m = memory();
    let (mut e, _) = x.enumerate(&m, 1).expect("room");
    assert!(matches!(x.enumerate_step(&m, &mut e, None, 0, &[0; 64]), Progress::Failed));
    let refused = Some(Event {
        kind: TRB_COMMAND_COMPLETION,
        completion: 5,
        parameter: 0,
        slot: 1,
    });
    assert!(matches!(x.enumerate_step(&m, &mut e, refused, 0, &[0; 64]), Progress::Failed));
}

#[test]
fn a_report_is_armed_polled_and_armed_again() {
    let (mut x, _) = enumerated();
    let m = memory();
    let mut ring = Ring::new();
    let (got, request) = x.poll_report(&m, &ring, 0, 8);
    assert_eq!(got, None);
    assert!(request.is_some());
    assert!(x.devices[0].queued);
    // Nothing is queued twice.
    assert!(x.arm(&m, 0, 8).is_none());
    ring.trbs[0] = Trb {
        parameter: 0x33_0000,
        status: CC_SHORT_PACKET << 24,
        control: (TRB_TRANSFER_EVENT << 10) | (1 << 24) | 1,
    };
    let (got, request) = x.poll_report(&m, &ring, 0, 8);
    assert_eq!(got, Some(8));
    assert!(request.is_some());
    let (got, _) = x.poll_report(&m, &ring, 5, 8);
    assert_eq!(got, None);
}

#[test]
fn commands_and_doorbells_go_where_the_layout_says() {
    let mut x = controller();
    let m = memory();
    assert_eq!(x.ring_doorbell(1, 3), Access::Write32 { offset: 0x3004, value: 3 });
    let request = x.command(&m, 5, 6, CONTROL_ENABLE_SLOT);
    assert_eq!(request.doorbell, Access::Write32 { offset: 0x3000, value: 0 });
    assert_eq!((request.writes[0].trb.parameter, request.writes[0].trb.status), (5, 6));
    let mut ring = Ring::new();
    assert_eq!(x.wait_command_event(&ring), None);
    ring.trbs[0] = Trb {
        parameter: 0,
        status: CC_SUCCESS << 24,
        control: (TRB_COMMAND_COMPLETION << 10) | 1,
    };
    assert!(x.wait_command_event(&ring).is_some());
    assert!(!x.acknowledge_events(&m).is_empty());
}
