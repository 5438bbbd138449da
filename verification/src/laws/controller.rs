//! How a USB controller is driven, said of its registers, rings and packets.
use crate::xhci::{
    address_context, connected, control_in_writes, control_out_writes, drained, endpoint_context,
    event_of, first_packet, fits, get_descriptor, hid_endpoint, past_event, routed,
    scratchpad_wanted, set_boot_protocol, set_configuration, speed_of, succeeded, surveyed, write64,
    Access, CapabilityStep, CapabilityWalk, ContextWrite, DeviceSlot, Enumeration, Event, Handoff,
    HandoffAction, HidDevice, HidKind, Memory, Parsed, Producer, ProgressView, RingName, RingWrite,
    Setup, Stage, Trb, Xhci,
};
use vstd::prelude::*;

verus! {

// ---------------------------------------------------------------------------
// Registers
// ---------------------------------------------------------------------------
/// A layout fits exactly where every register that is ever touched lies inside
/// the BAR: the sixteen bytes of each port behind 0x400, a doorbell of four
/// bytes for each of 256 slots, and the first interrupter's 32 bytes behind
/// the runtime block's own; with no block over the capability registers, which
/// take 32 bytes at least.
pub proof fn a_layout_fits_where_its_registers_do(
    bar_len: int,
    caplength: int,
    dboff: int,
    rtsoff: int,
    max_ports: int,
)
    requires
        0 <= max_ports <= 255,
    ensures
        fits(bar_len, caplength, dboff, rtsoff, max_ports) <==> {
            &&& caplength >= 32 && dboff >= caplength && rtsoff >= caplength
            &&& caplength + 0x400 <= bar_len
            &&& forall|port: int|
                1 <= port <= max_ports ==> caplength + 0x400 + #[trigger] (16 * port) <= bar_len
            &&& forall|slot: int|
                0 <= slot <= 255 ==> dboff + #[trigger] (4 * slot) + 4 <= bar_len
            &&& rtsoff + 64 <= bar_len
        },
{
    assert(4 * 255 == 1020int);
    assert(16 * max_ports == max_ports * 16);
    if caplength >= 32 && forall|port: int|
        1 <= port <= max_ports ==> caplength + 0x400 + #[trigger] (16 * port) <= bar_len {
        if max_ports > 0 {
            assert(caplength + 0x400 + 16 * max_ports <= bar_len);
        }
    }
    if forall|slot: int| 0 <= slot <= 255 ==> dboff + #[trigger] (4 * slot) + 4 <= bar_len {
        let last: int = 255;
        assert(dboff + 4 * last + 4 <= bar_len);
    }
}

/// A controller is surveyed where its BAR is placed and decodes a page.
pub proof fn a_page_of_registers_is_surveyed(bar_present: bool, bar_len: usize)
    ensures
        surveyed(bar_present, bar_len) <==> bar_present && bar_len >= 4096,
{
}

/// The scratchpad count is one ten-bit number kept in two places: its high
/// half at bit 21, its low half at bit 27. What stands around them does not
/// matter.
pub proof fn the_scratchpad_count_is_kept_in_two_halves(
    hcs2: u32,
    low: int,
    between: int,
    high: int,
    below: int,
)
    requires
        0 <= low < 32,
        0 <= between < 2,
        0 <= high < 32,
        0 <= below < 0x20_0000,
        hcs2 == low * 0x800_0000 + between * 0x400_0000 + high * 0x20_0000 + below,
    ensures
        scratchpad_wanted(hcs2) == 32 * high + low,
{
    assert(hcs2 / 0x800_0000 == low);
    assert(hcs2 / 0x20_0000 == low * 64 + between * 32 + high);
}

/// A wide register is written as two halves, the low one first, which together
/// are the value.
pub proof fn the_low_half_is_written_first(offset: usize, value: u64)
    requires
        offset + 4 <= usize::MAX,
    ensures
        ({
            let plan = write64(offset, value);
            &&& plan.len() == 2
            &&& plan[0] matches Access::Write32 { offset: a, value: low }
            &&& plan[1] matches Access::Write32 { offset: b, value: high }
            &&& a == offset && b == offset + 4
            &&& low + 0x1_0000_0000 * high == value
        }),
{
}

/// The list of capabilities begins at the doubleword that the upper half of
/// the register names, and at most 64 of them are looked at.
pub proof fn the_capability_list_begins_in_doublewords(hcc1: u32)
    ensures
        CapabilityWalk::start(hcc1).offset == hcc1 / 0x1_0000 * 4,
        CapabilityWalk::start(hcc1).left == 64,
{
}

/// A header is read where the list has one, it lies inside the BAR with its
/// eight bytes, and the walk has not gone on for too long.
pub proof fn a_header_is_read_inside_the_bar(walk: CapabilityWalk, bar_len: usize)
    ensures
        walk.header(bar_len) matches Some(offset) ==> offset == walk.offset,
        walk.header(bar_len) is Some <==> walk.offset != 0 && walk.offset + 8 <= bar_len && walk.left
            >= 1,
{
}

/// A capability whose first byte is one is the legacy support; one whose
/// second byte is zero is the last; a header of zeros or ones is none.
pub proof fn a_header_names_its_capability(
    walk: CapabilityWalk,
    header: u32,
    id: int,
    next: int,
    above: int,
)
    requires
        0 <= id < 256,
        0 <= next < 256,
        0 <= above,
        header == id + 256 * next + 0x1_0000 * above,
    ensures
        header == 0 || header == 0xFFFF_FFFF ==> walk.led_to(header) is End,
        header != 0 && header != 0xFFFF_FFFF && id == 1 ==> walk.led_to(header) == (
        CapabilityStep::Legacy { offset: walk.offset }),
        header != 0 && header != 0xFFFF_FFFF && id != 1 && next == 0 ==> walk.led_to(header) is End,
        header != 0 && header != 0xFFFF_FFFF && id != 1 && next != 0 ==> walk.led_to(
            header,
        ) is Next,
{
    assert(header / 0x100 == next + 256 * above);
}

/// A firmware that has let go is never asked; one that has not is claimed once
/// and then waited for, ten thousand spins at a time, and after fifty readings
/// gone ahead of.
pub proof fn the_firmware_is_asked_fifty_times(polls: u32, semaphore: u8)
    requires
        semaphore != 0,
    ensures
        Handoff::Asking.after(semaphore) == ((Handoff::Claimed { polls: 50 }), HandoffAction::Claim),
        polls > 1 ==> (Handoff::Claimed { polls }).after(semaphore) == (
            (Handoff::Claimed { polls: (polls - 1) as u32 }),
            (HandoffAction::Wait { spins: 10_000 }),
        ),
        polls <= 1 ==> (Handoff::Claimed { polls }).after(semaphore) == (
            Handoff::Over,
            (HandoffAction::Proceed { spins: 10_000 }),
        ),
        forall|h: Handoff|
            #![trigger h.after(0)]
            h.after(0) == (Handoff::Over, (HandoffAction::Proceed { spins: 0 })),
{
}

/// A controller is stopped, seen to have stopped, and only then reset; the
/// reset is over when its own bit and the not-ready bit are both clear.
pub proof fn a_reset_waits_for_the_halt(x: Xhci, usbcmd: u32)
    requires
        x.operational + 4 <= usize::MAX,
    ensures
        x.reset_accesses(usbcmd) == seq![
            Access::Write32 { offset: x.operational, value: (usbcmd / 2 * 2) as u32 },
            Access::WaitSet { offset: (x.operational + 4) as usize, mask: 1 },
            Access::Write32 { offset: x.operational, value: 2 },
            Access::WaitClear { offset: x.operational, mask: 2 },
            Access::WaitClear { offset: (x.operational + 4) as usize, mask: 0x800 },
        ],
{
    assert(usbcmd & !1u32 == usbcmd / 2 * 2) by (bit_vector);
}

/// A controller is started by its first command bit, every other kept, and is
/// running when it is no longer halted.
pub proof fn a_start_sets_the_first_bit(x: Xhci, usbcmd: u32)
    requires
        x.operational + 4 <= usize::MAX,
    ensures
        x.run_accesses(usbcmd) == seq![
            Access::Write32 { offset: x.operational, value: (usbcmd / 2 * 2 + 1) as u32 },
            Access::WaitClear { offset: (x.operational + 4) as usize, mask: 1 },
        ],
{
    assert(usbcmd | 1u32 == usbcmd / 2 * 2 + 1) by (bit_vector);
}

/// The controller is pointed at its memory: as many slots as it has, up to
/// eight; the context array; the command ring, with its cycle; one segment;
/// where events are read; and, last, the segment table, which starts them.
pub proof fn the_rings_are_set_up_in_order(x: Xhci, hcs1: u32, m: Memory)
    requires
        x.operational + 0x400 <= usize::MAX,
        x.runtime + 0x40 <= usize::MAX,
        m.command_ring % 64 == 0,
    ensures
        ({
            let slots: u32 = if hcs1 % 256 < 8 {
                hcs1 % 256
            } else {
                8
            };
            x.ring_accesses(hcs1, m) == seq![
                Access::Write32 { offset: (x.operational + 0x38) as usize, value: slots },
            ] + write64((x.operational + 0x30) as usize, m.dcbaa) + write64(
                (x.operational + 0x18) as usize,
                (m.command_ring + 1) as u64,
            ) + seq![Access::Write32 { offset: (x.runtime + 0x28) as usize, value: 1 }] + write64(
                (x.runtime + 0x38) as usize,
                m.event_ring,
            ) + write64((x.runtime + 0x30) as usize, m.erst)
        }),
{
    let ring = m.command_ring;
    assert(ring % 64 == 0 ==> ring | 1u64 == ring + 1) by (bit_vector);
}

/// Ports are sixteen bytes apart, the first at 0x400 behind the operational
/// registers; the doorbells are four bytes apart, the command ring's first.
pub proof fn ports_and_doorbells_are_arrays(x: Xhci, port: int, slot: u8, target: u32)
    requires
        port >= 1,
        x.doorbell + 1024 <= usize::MAX,
    ensures
        x.port_register(port) == x.operational + 0x400 + 16 * (port - 1),
        x.bell(slot, target) matches Access::Write32 { offset, value } && offset == x.doorbell + 4
            * slot && value == target,
{
}

/// A port that is reset has only its reset bit added: every bit but the change
/// bits and the enable bit is written as it was, and those as zero.
pub proof fn a_port_reset_adds_one_bit(x: Xhci, port: int, status: u32)
    ensures
        ({
            let plan = x.port_reset_accesses(port, status);
            let at = x.port_register(port) as usize;
            &&& plan.len() == 2
            &&& plan[0] matches Access::Write32 { offset, value }
            &&& offset == at
            &&& value == (status & !0x76_0002u32) | 0x10u32
            &&& plan[1] == Access::WaitClear { offset: at, mask: 0x10 }
        }),
{
    assert((status & 0xFF89_FFFDu32) | 0x10u32 == (status & !0x76_0002u32) | 0x10u32)
        by (bit_vector);
}

/// The connected ports are exactly those whose lowest status bit is set,
/// numbered from one, in ascending order.
pub proof fn connected_ports_have_their_first_bit_set(statuses: Seq<u32>)
    requires
        statuses.len() <= 255,
    ensures
        forall|port: int|
            1 <= port <= statuses.len() ==> (connected(statuses).contains(#[trigger] (port as u8))
                <==> statuses[port - 1] % 2 == 1),
        forall|i: int|
            0 <= i < connected(statuses).len() ==> 1 <= #[trigger] connected(statuses)[i]
                <= statuses.len(),
        forall|i: int, j: int|
            0 <= i < j < connected(statuses).len() ==> #[trigger] connected(statuses)[i]
                < #[trigger] connected(statuses)[j],
    decreases statuses.len(),
{
    if statuses.len() > 0 {
        let fewer = statuses.drop_last();
        connected_ports_have_their_first_bit_set(fewer);
        let last = statuses.last();
        assert(last & 1u32 == last % 2) by (bit_vector);
        let before = connected(fewer);
        let after = connected(statuses);
        let n = statuses.len() as u8;
        if last % 2 == 1 {
            assert(after[before.len() as int] == n);
        }
        assert forall|port: int| 1 <= port <= statuses.len() implies (after.contains(
            #[trigger] (port as u8),
        ) <==> statuses[port - 1] % 2 == 1) by {
            if port < statuses.len() {
                assert(before.contains(port as u8) <==> fewer[port - 1] % 2 == 1);
                if before.contains(port as u8) {
                    let i = before.index_of(port as u8);
                    assert(after[i] == port as u8);
                }
                if after.contains(port as u8) {
                    let i = after.index_of(port as u8);
                    assert(i < before.len() ==> before[i] == port as u8);
                }
            } else if after.contains(port as u8) {
                let i = after.index_of(port as u8);
                assert(i < before.len() ==> before[i] == port as u8);
            }
        }
    }
}

/// The speed of a link is the four bits at 10, and it fixes the first packet:
/// eight bytes at full and low speed, 64 at high speed, 512 above.
pub proof fn the_speed_fixes_the_first_packet(status: u32, below: int, speed: int, above: int)
    requires
        0 <= below < 0x400,
        0 <= speed < 16,
        0 <= above,
        status == below + 0x400 * speed + 0x4000 * above,
    ensures
        speed_of(status) == speed,
        speed == 1 || speed == 2 ==> first_packet(speed_of(status)) == 8,
        speed == 3 ==> first_packet(speed_of(status)) == 64,
        speed == 0 || speed > 3 ==> first_packet(speed_of(status)) == 512,
{
    assert(status / 0x400 == speed + 16 * above);
}

// ---------------------------------------------------------------------------
// Rings
// ---------------------------------------------------------------------------
/// A ring holds fifteen blocks and a link: while there is room a block goes to
/// the next entry with the ring's cycle; when fifteen are placed the link is
/// written to the last entry, toggling the cycle, and the block goes to the
/// first one on the other cycle.
pub proof fn fifteen_blocks_and_a_link(at: Producer, base: u64, block: Trb)
    requires
        at.index <= 15,
        at.cycle <= 1,
        block.control % 2 == 0,
    ensures
        at.index < 15 ==> {
            &&& at.writes(base, block) == seq![
                RingWrite {
                    index: at.index,
                    trb: Trb { control: (block.control + at.cycle) as u32, ..block },
                },
            ]
            &&& at.advanced() == (Producer { index: (at.index + 1) as usize, cycle: at.cycle })
        },
        at.index == 15 ==> {
            &&& at.writes(base, block) == seq![
                RingWrite {
                    index: 15,
                    trb: Trb {
                        parameter: base,
                        status: 0,
                        control: (6 * 0x400 + 2 + at.cycle) as u32,
                    },
                },
                RingWrite {
                    index: 0,
                    trb: Trb { control: (block.control + 1 - at.cycle) as u32, ..block },
                },
            ]
            &&& at.advanced() == (Producer { index: 1, cycle: (1 - at.cycle) as u32 })
        },
{
    let word = block.control;
    assert(word % 2 == 0 ==> word | 0 == word && word | 1 == word + 1) by (bit_vector);
    assert(0x1802u32 | 0 == 0x1802u32 && 0x1802u32 | 1 == 0x1803u32) by (bit_vector);
}

/// An event says what it is in the six bits at 10 of its last word and whose
/// it is in that word's top byte; how it went is the top byte of the word
/// before.
pub proof fn an_event_is_read_by_its_fields(
    block: Trb,
    low: int,
    kind: int,
    endpoint: int,
    slot: int,
    length: int,
    code: int,
)
    requires
        0 <= low < 0x400,
        0 <= kind < 64,
        0 <= endpoint < 256,
        0 <= slot < 256,
        0 <= length < 0x100_0000,
        0 <= code < 256,
        block.control == low + 0x400 * kind + 0x1_0000 * endpoint + 0x100_0000 * slot,
        block.status == length + 0x100_0000 * code,
    ensures
        event_of(block) == (Event {
            kind: kind as u32,
            completion: code as u32,
            parameter: block.parameter,
            slot: slot as u8,
        }),
{
    let c = block.control as int;
    assert(c / 0x400 == kind + 64 * endpoint + 0x4000 * slot);
    assert(c / 0x100_0000 == slot);
    assert(block.status as int / 0x100_0000 == code);
}

/// The event ring has no link: after its sixteenth entry comes its first, on
/// the other cycle.
pub proof fn the_event_ring_wraps_by_itself(at: Producer)
    requires
        at.index < 16,
        at.cycle <= 1,
    ensures
        at.index < 15 ==> past_event(at) == (Producer {
            index: (at.index + 1) as usize,
            cycle: at.cycle,
        }),
        at.index == 15 ==> past_event(at) == (Producer { index: 0, cycle: (1 - at.cycle) as u32 }),
{
}

/// A transfer's end reaches the device whose slot it names and frees its read;
/// a report is there only if the transfer succeeded or was short. Anything
/// else that happens on the bus changes no device.
pub proof fn a_report_is_there_on_success(
    devices: Seq<DeviceSlot>,
    n: int,
    event: Event,
    i: int,
)
    requires
        devices.len() == 2,
        0 <= i < n <= 2,
        devices[0].slot != devices[1].slot,
    ensures
        event.kind == 32 && event.slot == devices[i].slot ==> routed(devices, n, event)[i] == (
        DeviceSlot {
            queued: false,
            ready: devices[i].ready || event.completion == 1 || event.completion == 13,
            ..devices[i]
        }),
        event.kind != 32 || event.slot != devices[i].slot ==> routed(devices, n, event)[i]
            == devices[i],
{
}

/// Of events that were not posted on this pass nothing is taken.
pub proof fn old_events_are_left(
    ring: Seq<Trb>,
    at: Producer,
    devices: Seq<DeviceSlot>,
    n: int,
    left: nat,
)
    requires
        ring.len() == 16,
        at.index < 16,
        at.cycle <= 1,
        ring[at.index as int].control % 2 != at.cycle,
    ensures
        drained(ring, at, devices, n, left) == (at, devices),
{
    let word = ring[at.index as int].control;
    assert(word & 1u32 == word % 2) by (bit_vector);
}

/// How far the event ring was read is told by the address of the next entry,
/// sixteen bytes each, with the busy flag at bit 3 to be cleared.
pub proof fn the_next_entry_is_told(x: Xhci, m: Memory)
    requires
        m.event_ring % 64 == 0,
        m.event_ring + 256 <= u64::MAX,
        x.events.index < 16,
    ensures
        x.dequeue_pointer(m) == m.event_ring + 16 * x.events.index + 8,
{
    let p: u64 = (m.event_ring + x.events.index * 16) as u64;
    assert(p % 16 == 0);
    assert(p % 16 == 0 && p <= 0xFFFF_FFFF_FFFF_FFF0u64 ==> p | 8u64 == p + 8) by (bit_vector);
}

/// Each of the two devices has a ring of sixteen blocks, a context of 2048
/// bytes and a buffer of 256 of its own, the second behind the first.
pub proof fn each_device_has_its_own_memory(m: Memory, i: int)
    requires
        0 <= i < 2,
    ensures
        m.transfer_ring(i) == m.transfer_rings + 16 * 16 * i,
        m.context(i) == m.device_contexts + 2048 * i,
        m.buffer(i) == m.buffers + 256 * i,
{
}

// ---------------------------------------------------------------------------
// Packets and contexts
// ---------------------------------------------------------------------------
/// A setup packet is eight bytes, the lowest first: what kind, which request,
/// then its value, its index and its length, each low byte first.
pub proof fn a_setup_packet_is_eight_bytes(setup: Setup, bytes: Seq<u8>)
    requires
        bytes.len() == 8,
        setup.request_type == bytes[0],
        setup.request == bytes[1],
        setup.value == bytes[2] + 0x100 * bytes[3],
        setup.index == bytes[4] + 0x100 * bytes[5],
        setup.length == bytes[6] + 0x100 * bytes[7],
    ensures
        setup.packed() == bytes[0] + 0x100 * bytes[1] + 0x1_0000 * bytes[2] + 0x100_0000 * bytes[3]
            + 0x1_0000_0000 * bytes[4] + 0x100_0000_0000 * bytes[5] + 0x1_0000_0000_0000 * bytes[6]
            + 0x100_0000_0000_0000 * bytes[7],
{
}

/// What a device is asked: a descriptor is read from the device itself by
/// request 6, its type in the high byte of the value; a configuration is
/// chosen by request 9; and the boot protocol is protocol zero of the
/// interface, by the class's request 11.
pub proof fn the_four_requests(value: u16, length: u16, configuration: u8, interface: u8)
    ensures
        get_descriptor(value, length) == (Setup {
            request_type: 0x80,
            request: 6,
            value,
            index: 0,
            length,
        }),
        set_configuration(configuration) == (Setup {
            request_type: 0,
            request: 9,
            value: configuration as u16,
            index: 0,
            length: 0,
        }),
        set_boot_protocol(interface) == (Setup {
            request_type: 0x21,
            request: 11,
            value: 0,
            index: interface as u16,
            length: 0,
        }),
{
}

/// A transfer that reads has three stages: a setup packet of eight bytes sent
/// along (type 2, with its data inside and an IN stage to come), the data
/// towards the host (type 3) and a status away from it (type 4), which reports
/// its end. One that only tells has two, the status then towards the host.
pub proof fn a_control_transfer_has_its_stages(
    at: Producer,
    ring: u64,
    setup: Setup,
    buffer: u64,
    length: u16,
)
    ensures
        control_in_writes(at, ring, setup, buffer, length) == at.writes(
            ring,
            (Trb {
                parameter: setup.packed() as u64,
                status: 8,
                control: (2 * 0x400 + 0x40 + 3 * 0x1_0000) as u32,
            }),
        ) + at.advanced().writes(
            ring,
            (Trb { parameter: buffer, status: length as u32, control: (3 * 0x400 + 0x1_0000) as u32 }),
        ) + at.advanced().advanced().writes(
            ring,
            (Trb { parameter: 0, status: 0, control: (4 * 0x400 + 0x20) as u32 }),
        ),
        control_out_writes(at, ring, setup) == at.writes(
            ring,
            (Trb { parameter: setup.packed() as u64, status: 8, control: (2 * 0x400 + 0x40) as u32 }),
        ) + at.advanced().writes(
            ring,
            (Trb { parameter: 0, status: 0, control: (4 * 0x400 + 0x20 + 0x1_0000) as u32 }),
        ),
{
}

/// A device is addressed by adding its slot and its control endpoint: the slot
/// with one entry, the link's speed and the root port; the endpoint of the
/// control kind (4), retried three times, with its packet size, its ring on
/// the first cycle and an average of eight bytes.
pub proof fn a_device_is_addressed(size: usize, speed: u32, port: u8, packet: u16, ring: u64)
    requires
        size == 32 || size == 64,
        speed < 16,
        ring % 16 == 0,
    ensures
        address_context(size, speed, port, packet, ring) == seq![
            ContextWrite { offset: 4, value: 3 },
            ContextWrite { offset: size, value: (1 * 0x800_0000 + speed * 0x10_0000) as u32 },
            ContextWrite { offset: (size + 4) as usize, value: (port * 0x1_0000) as u32 },
            ContextWrite {
                offset: (2 * size + 4) as usize,
                value: (3 * 2 + 4 * 8 + packet * 0x1_0000) as u32,
            },
            ContextWrite {
                offset: (2 * size + 8) as usize,
                value: ((ring + 1) % 0x1_0000_0000) as u32,
            },
            ContextWrite {
                offset: (2 * size + 12) as usize,
                value: (ring / 0x1_0000_0000) as u32,
            },
            ContextWrite { offset: (2 * size + 16) as usize, value: 8 },
        ],
{
    assert(ring % 16 == 0 ==> ring | 1u64 == ring + 1) by (bit_vector);
}

/// An interrupt endpoint is added at twice its number plus one: the slot
/// reaching that far, and the endpoint of the interrupt IN kind (7), retried
/// three times, with its packet size, its ring on the first cycle and its
/// interval.
pub proof fn an_endpoint_is_added(size: usize, address: u8, packet: u16, ring: u64, number: int)
    requires
        size == 32 || size == 64,
        number == address % 16,
        number > 0,
        ring % 16 == 0,
    ensures
        ({
            let writes = endpoint_context(size, address, packet, ring);
            let ep = size * (2 * number + 2);
            &&& writes.len() == 7
            &&& writes[0].offset == 4
            &&& writes[1] == (ContextWrite {
                offset: size,
                value: ((2 * number + 1) * 0x800_0000) as u32,
            })
            &&& writes[2] == (ContextWrite {
                offset: (ep + 4) as usize,
                value: (3 * 2 + 7 * 8 + packet * 0x1_0000) as u32,
            })
            &&& writes[3] == (ContextWrite {
                offset: (ep + 8) as usize,
                value: ((ring + 1) % 0x1_0000_0000) as u32,
            })
            &&& writes[4] == (ContextWrite {
                offset: (ep + 12) as usize,
                value: (ring / 0x1_0000_0000) as u32,
            })
            &&& writes[5] == (ContextWrite { offset: (ep + 16) as usize, value: packet as u32 })
            &&& writes[6] == (ContextWrite { offset: ep as usize, value: 0x8_0000 })
            &&& forall|bit: u32|
                bit < 32 ==> (#[trigger] crate::bytes::bit32(writes[0].value, bit) <==> bit == 0
                    || bit == 2 * number + 1)
        }),
{
    assert(ring % 16 == 0 ==> ring | 1u64 == ring + 1) by (bit_vector);
    let index: u32 = (2 * number + 1) as u32;
    assert forall|bit: u32| bit < 32 implies (#[trigger] crate::bytes::bit32(
        1u32 | (1u32 << index),
        bit,
    ) <==> bit == 0 || bit == 2 * number + 1) by {
        assert(((1u32 | (1u32 << index)) >> bit) & 1 == 1 <==> bit == 0 || bit == index)
            by (bit_vector)
            requires
                bit < 32,
                index < 32,
        ;
    }
}

// ---------------------------------------------------------------------------
// Enumeration
// ---------------------------------------------------------------------------
/// A step succeeded where its reply came with completion code one.
pub proof fn success_is_code_one(reply: Option<Event>)
    ensures
        succeeded(reply) <==> (reply matches Some(event) && event.completion == 1),
{
}

/// An enabled slot becomes the device's, if it is one of the eight that there
/// are contexts for: its context is entered under that slot, and it is
/// addressed (command 11) at the speed of its own port.
pub proof fn an_enabled_slot_is_addressed(
    x: Xhci,
    m: Memory,
    e: Enumeration,
    event: Event,
    status: u32,
    buffer: Seq<u8>,
)
    requires
        e.stage is EnableSlot,
        e.index < 2,
        x.devices@.len() == 2,
        event.completion == 1,
        event.slot != 0,
    ensures
        ({
            let next = x.stepped(m, e, Some(event), status, buffer);
            let i = e.index as int;
            &&& next.devices[i] == (DeviceSlot {
                slot: event.slot,
                endpoint: 0,
                ring: Producer { index: 0, cycle: 1 },
                queued: false,
                ready: false,
            })
            &&& event.slot > 8 ==> next.progress is Failed && next.command == x.command
            &&& event.slot <= 8 ==> {
                &&& next.stage is AddressDevice
                &&& next.progress matches ProgressView::Ask(preparation, request)
                &&& preparation.context == address_context(
                    x.context_size,
                    speed_of(status),
                    e.port,
                    first_packet(speed_of(status)),
                    m.transfer_ring(i) as u64,
                )
                &&& preparation.slot_entry == Some((event.slot, m.context(i) as u64))
                &&& request.ring is Command
                &&& request.doorbell == x.bell(0, 0)
                &&& request.writes == x.command.writes(
                    m.command_ring,
                    (Trb {
                        parameter: m.input_context,
                        status: 0,
                        control: (11 * 0x400 + event.slot * 0x100_0000) as u32,
                    }),
                )
            }
        }),
{
}

/// An addressed device is asked for its eighteen-byte descriptor, and then for
/// its first configuration: 64 bytes of it, into a cleared buffer each time.
/// Its vendor is at byte 8 of the first and its product at byte 10, each low
/// byte first.
pub proof fn the_descriptors_are_read(
    x: Xhci,
    m: Memory,
    e: Enumeration,
    reply: Option<Event>,
    status: u32,
    buffer: Seq<u8>,
)
    requires
        e.index < 2,
        x.devices@.len() == 2,
        buffer.len() >= 18,
        e.stage is AddressDevice || e.stage is DeviceDescriptor,
    ensures
        ({
            let next = x.stepped(m, e, reply, status, buffer);
            let i = e.index as int;
            let length: u16 = if e.stage is AddressDevice {
                18
            } else {
                64
            };
            let value: u16 = if e.stage is AddressDevice {
                0x100
            } else {
                0x200
            };
            &&& !succeeded(reply) ==> next.progress is Failed
            &&& succeeded(reply) ==> {
                &&& next.progress matches ProgressView::Ask(preparation, request)
                &&& preparation.clear_buffer
                &&& preparation.context.len() == 0
                &&& request.doorbell == x.bell(x.devices@[i].slot, 1)
                &&& request.writes == control_in_writes(
                    x.devices@[i].ring,
                    m.transfer_ring(i) as u64,
                    (Setup { request_type: 0x80, request: 6, value, index: 0, length }),
                    m.buffer(i) as u64,
                    length,
                )
                &&& e.stage is AddressDevice ==> next.stage is DeviceDescriptor
                &&& e.stage is DeviceDescriptor ==> next.stage == (
                Stage::ConfigurationDescriptor {
                    vendor: (buffer[8] + 256 * buffer[9]) as u16,
                    product: (buffer[10] + 256 * buffer[11]) as u16,
                })
            }
        }),
{
}

/// A configuration that holds a keyboard or a pointer is chosen and its
/// interface set to the boot protocol; one that holds neither ends it.
pub proof fn the_configuration_is_chosen(
    x: Xhci,
    m: Memory,
    e: Enumeration,
    reply: Option<Event>,
    status: u32,
    buffer: Seq<u8>,
    vendor: u16,
    product: u16,
    parsed: Parsed,
)
    requires
        e.index < 2,
        x.devices@.len() == 2,
        e.stage == (Stage::ConfigurationDescriptor { vendor, product }) && hid_endpoint(
            buffer.take(64),
        ) == Some(parsed) || e.stage == (Stage::SetConfiguration { vendor, product, parsed }),
    ensures
        ({
            let next = x.stepped(m, e, reply, status, buffer);
            let i = e.index as int;
            let chosen = e.stage is SetConfiguration;
            &&& !succeeded(reply) ==> next.progress is Failed
            &&& succeeded(reply) ==> {
                &&& next.progress matches ProgressView::Ask(preparation, request)
                &&& !preparation.clear_buffer
                &&& request.doorbell == x.bell(x.devices@[i].slot, 1)
                &&& !chosen ==> next.stage == (Stage::SetConfiguration { vendor, product, parsed })
                    && request.writes == control_out_writes(
                    x.devices@[i].ring,
                    m.transfer_ring(i) as u64,
                    (Setup {
                        request_type: 0,
                        request: 9,
                        value: parsed.configuration as u16,
                        index: 0,
                        length: 0,
                    }),
                )
                &&& chosen ==> next.stage == (Stage::SetProtocol { vendor, product, parsed })
                    && request.writes == control_out_writes(
                    x.devices@[i].ring,
                    m.transfer_ring(i) as u64,
                    (Setup {
                        request_type: 0x21,
                        request: 11,
                        value: 0,
                        index: parsed.interface as u16,
                        length: 0,
                    }),
                )
            }
        }),
{
}

/// A device without a keyboard's or a pointer's endpoint is given up on.
pub proof fn no_endpoint_ends_it(
    x: Xhci,
    m: Memory,
    e: Enumeration,
    reply: Option<Event>,
    status: u32,
    buffer: Seq<u8>,
)
    requires
        e.stage is ConfigurationDescriptor,
        hid_endpoint(buffer.take(64)) is None,
    ensures
        x.stepped(m, e, reply, status, buffer).progress is Failed,
{
}

/// Whether or not the device took the boot protocol, its endpoint is
/// configured (command 12) unless that is the control endpoint; and once that
/// succeeded the device is there, as its descriptors said.
pub proof fn a_configured_device_is_what_it_said(
    x: Xhci,
    m: Memory,
    e: Enumeration,
    reply: Option<Event>,
    status: u32,
    buffer: Seq<u8>,
    vendor: u16,
    product: u16,
    parsed: Parsed,
)
    requires
        e.index < 2,
        x.devices@.len() == 2,
    ensures
        e.stage == (Stage::SetProtocol { vendor, product, parsed }) ==> {
            let next = x.stepped(m, e, reply, status, buffer);
            let i = e.index as int;
            &&& next.devices[i] == (DeviceSlot { endpoint: parsed.endpoint, ..x.devices@[i] })
            &&& parsed.endpoint % 16 == 0 ==> next.progress is Failed
            &&& parsed.endpoint % 16 != 0 ==> {
                &&& next.stage == (Stage::ConfigureEndpoint { vendor, product, parsed })
                &&& next.progress matches ProgressView::Ask(preparation, request)
                &&& preparation.context == endpoint_context(
                    x.context_size,
                    parsed.endpoint,
                    parsed.max_packet,
                    m.transfer_ring(i) as u64,
                )
                &&& request.doorbell == x.bell(0, 0)
                &&& request.writes == x.command.writes(
                    m.command_ring,
                    (Trb {
                        parameter: m.input_context,
                        status: 0,
                        control: (12 * 0x400 + x.devices@[i].slot * 0x100_0000) as u32,
                    }),
                )
            }
        },
        e.stage == (Stage::ConfigureEndpoint { vendor, product, parsed }) ==> {
            let next = x.stepped(m, e, reply, status, buffer);
            &&& !succeeded(reply) ==> next.progress is Failed && next.device_count == x.device_count
            &&& succeeded(reply) ==> next.device_count == e.index + 1 && next.progress == (
            ProgressView::Done(
                e.index,
                HidDevice { kind: parsed.kind, vendor, product, report_len: parsed.max_packet },
            ))
        },
{
}

/// A report is read into the device's own buffer, 64 bytes at most, by a
/// normal transfer that reports its end; its doorbell names the endpoint by
/// twice its number plus one.
pub proof fn a_report_is_read_into_its_buffer(x: Xhci, m: Memory, device: int, len: int)
    requires
        0 <= device < 2,
        0 <= len,
        x.devices@.len() == 2,
    ensures
        ({
            let request = x.read_request(m, device, len);
            let d = x.devices@[device];
            &&& request.ring == (RingName::Transfer { device: device as usize })
            &&& request.doorbell == x.bell(d.slot, (2 * (d.endpoint % 16) + 1) as u32)
            &&& len <= 64 ==> request.writes == d.ring.writes(
                m.transfer_ring(device) as u64,
                (Trb {
                    parameter: m.buffer(device) as u64,
                    status: len as u32,
                    control: 0x420,
                }),
            )
            &&& len > 64 ==> request.writes == d.ring.writes(
                m.transfer_ring(device) as u64,
                (Trb {
                    parameter: m.buffer(device) as u64,
                    status: 64,
                    control: 0x420,
                }),
            )
        }),
{
}

/// The kinds are shown by their names.
pub proof fn kinds_are_shown_by_name()
    ensures
        HidKind::Keyboard.shown() == "keyboard"@,
        HidKind::Pointer.shown() == "pointer"@,
        HidKind::Other.shown() == "hid (unread)"@,
{
}

} // verus!
