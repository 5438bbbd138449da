//! What calls hand back and leave behind, said of their arguments.
use crate::arch::aarch64::{CounterChoice, PermissionProbe};
use crate::arch::powerpc::TimebaseRate;
use crate::arch::riscv::HartFacts;
use crate::arch::{CounterSource, CounterSourceError};
use crate::clock::{ClockRoute, RouteHost};
use crate::crosscheck::{CrossCheck, Verdict};
use crate::hid_report::{KeyboardLayout, Movement, PointerLayout};
use crate::hypervisor::{Detections, Hypervisor, HypervisorReport};
use crate::laws::crosscheck::{apart, lasted};
use crate::laws::hid::bit_set;
use crate::laws::spells;
use crate::laws::usb::{belongs, is_hid_endpoint, is_interrupt_in, record, whole};
use crate::machine::Machine;
use crate::reprobe::Gate;
use crate::serial::{OpalStatus, OpalStep, OpalWrite, SbiMode, Serial};
use crate::xhci::{
    Access, CapabilityStep, CapabilityWalk, Enumeration, Event, Memory, Parsed, Producer, Request,
    Ring, Xhci,
};
use vstd::prelude::*;

verus! {

/// The hypervisor that a signature is matched to is the one whose twelve
/// bytes it is, and each is matched by its own bytes alone.
pub proof fn a_signature_is_matched_to_its_own(
    signature: &[u8; 12],
    matched: Option<Hypervisor>,
)
    requires
        call_ensures(crate::hypervisor::match_signature, (signature,), matched),
    ensures
        (matched matches Some(h) && h is Kvm) <==> spells(signature@, "KVMKVMKVM\0\0\0"@),
        (matched matches Some(h) && h is QemuTcg) <==> spells(signature@, "TCGTCGTCGTCG"@),
        (matched matches Some(h) && h is VMware) <==> spells(signature@, "VMwareVMware"@),
        (matched matches Some(h) && h is Xen) <==> spells(signature@, "XenVMMXenVMM"@),
        (matched matches Some(h) && h is VirtualBox) <==> spells(signature@, "VBoxVBoxVBox"@),
        (matched matches Some(h) && h is Bhyve) <==> spells(signature@, "bhyve bhyve "@),
        (matched matches Some(h) && h is Acrn) <==> spells(signature@, "ACRNACRNACRN"@),
        (matched matches Some(h) && h is Jailhouse) <==> spells(signature@, "Jailhouse\0\0\0"@),
        (matched matches Some(h) && h is AppleVz) <==> spells(signature@, "Apple VZ\0\0\0\0"@),
        (matched matches Some(h) && h is Qnx) <==> spells(signature@, "QNXQVMBSQG\0\0"@),
        spells(signature@, "Microsoft Hv"@) ==> (matched matches Some(h) && h is HyperV),
        (matched matches Some(h) && h is Parallels) <==> spells(signature@, "prl hyperv  "@)
            || spells(signature@, " lrpepyh vr "@),
{
    crate::laws::detection::each_signature_names_its_own(signature@);
    if let Some(h) = matched {
        crate::laws::detection::a_hypervisor_is_viewed_as_itself(h);
    }
}

/// A configuration is parsed to the device of its first interrupt IN endpoint
/// inside a HID interface: a keyboard exactly where that interface's protocol
/// byte is 1, a pointer exactly where it is 2.
pub proof fn a_configuration_is_parsed_by_its_protocol_byte(
    buf: &[u8],
    i: nat,
    e: nat,
    parsed: Option<Parsed>,
)
    requires
        call_ensures(crate::xhci::parse_configuration, (buf,), parsed),
        buf@.len() >= 9,
        buf@[1] == 2,
        whole(buf@, e),
        belongs(buf@, i, e),
        is_interrupt_in(buf@, e),
        forall|j: nat| j < e ==> !#[trigger] is_hid_endpoint(buf@, j),
    ensures
        parsed matches Some(found) && {
            &&& found.kind is Keyboard <==> buf@[record(buf@, i) + 7] == 1
            &&& found.kind is Pointer <==> buf@[record(buf@, i) + 7] == 2
            &&& found.interface == buf@[record(buf@, i) + 2]
            &&& found.endpoint == buf@[record(buf@, e) + 2]
            &&& found.max_packet == (buf@[record(buf@, e) + 4] + 256 * buf@[record(buf@, e) + 5])
                % 2048
            &&& found.configuration == buf@[5]
        },
{
    crate::laws::usb::the_protocol_byte_decides(buf@, i, e);
}

/// The bytes of a report behind its identifier, where it has one.
pub open spec fn fields_of(report_id: Option<u8>, report: Seq<u8>) -> Seq<u8> {
    match report_id {
        Some(id) => report.subrange(1, report.len() as int),
        None => report,
    }
}

/// A report is decoded where it carries the layout's identifier, or the
/// layout has none, and its buttons are then the button field's bits in order:
/// left, right, middle, none of them past the field's count.
pub proof fn a_report_is_decoded_button_by_button(
    layout: PointerLayout,
    report: &[u8],
    decoded: Option<Movement>,
)
    requires
        call_ensures(PointerLayout::decode, (&layout, report), decoded),
        layout.buttons matches Some(field) ==> field.bit_size == 1 && field.bit_offset + 2
            < usize::MAX,
    ensures
        decoded is Some <==> (layout.report_id matches Some(id) ==> report@.len() > 0 && report@[0]
            == id),
        decoded matches Some(m) ==> match layout.buttons {
            Some(field) => {
                let body = fields_of(layout.report_id, report@);
                let b = field.bit_offset as int;
                &&& m.left <==> field.count > 0 && bit_set(body, b)
                &&& m.right <==> field.count > 1 && bit_set(body, b + 1)
                &&& m.middle <==> field.count > 2 && bit_set(body, b + 2)
            },
            None => !m.left && !m.right && !m.middle,
        },
{
    crate::laws::hid::buttons_are_left_right_middle(layout, fields_of(layout.report_id, report@));
}

/// A keyboard's report is decoded under the same condition, and a key that is
/// a byte of it comes out in its own slot.
pub proof fn a_report_is_decoded_key_by_key(
    layout: KeyboardLayout,
    report: &[u8],
    decoded: Option<[u8; 8]>,
    k: int,
)
    requires
        call_ensures(KeyboardLayout::decode, (&layout, report), decoded),
        layout.modifiers matches Some(field) ==> field.bit_size == 1 && field.bit_offset + 8
            < usize::MAX,
        layout.keys.bit_size == 8 && !layout.keys.signed,
        layout.keys.bit_offset == 8 * k,
        0 <= k,
        k + layout.keys.count <= fields_of(layout.report_id, report@).len(),
        8 * (k + 6) < usize::MAX,
    ensures
        decoded is Some <==> (layout.report_id matches Some(id) ==> report@.len() > 0 && report@[0]
            == id),
        decoded matches Some(out) ==> {
            &&& out@[1] == 0
            &&& forall|slot: int|
                0 <= slot < 6 ==> (#[trigger] out@[2 + slot]) == (if slot < layout.keys.count {
                    fields_of(layout.report_id, report@)[k + slot]
                } else {
                    0
                })
        },
{
    let body = fields_of(layout.report_id, report@);
    if let Some(out) = decoded {
        crate::laws::hid::keys_are_the_bytes_of_their_slots(layout, k, body, out@);
    }
}

/// A sample that is judged by its rate tells of drift exactly where the two
/// clocks moved apart by a part per million past the tolerance, whichever of
/// them is ahead.
pub proof fn a_sample_tells_of_drift_in_either_direction(
    check: &mut CrossCheck,
    origin: (u64, u64),
    now: (u64, u64),
    bp: int,
    br: int,
    verdict: Verdict,
)
    requires
        call_ensures(CrossCheck::sample, (check, now.0, now.1), verdict),
        old(check).origin == Some(origin),
        lasted(bp, origin.0, now.0, old(check).primary_hz),
        lasted(br, origin.1, now.1, old(check).reference_hz),
        apart(bp, br) * 1_000_000 < 0x7FFF_FFFF_FFFF_FFFF * br,
        !(verdict is Step),
        !(verdict is Warming),
    ensures
        verdict is Drift <==> apart(bp, br) * 1_000_000 >= (old(check).tolerance_ppm + 1) * br,
        verdict is Agree <==> apart(bp, br) * 1_000_000 < (old(check).tolerance_ppm + 1) * br,
        final(check).verdict == verdict,
        final(check).last == Some(now),
        final(check).origin == Some(origin),
        final(check).steps == old(check).steps,
        final(check).primary_hz == old(check).primary_hz,
        final(check).reference_hz == old(check).reference_hz,
        final(check).tolerance_ppm == old(check).tolerance_ppm,
        final(check).sample_uncertainty_ns == old(check).sample_uncertainty_ns,
{
    crate::laws::crosscheck::drift_is_told_in_either_direction(*old(check), origin, now, bp, br);
}

/// The best route of a host reads its counter as the automatic one does, and
/// is a system's clock only where there is no counter to read.
pub proof fn the_best_route_is_the_automatic_one(host: RouteHost, route: ClockRoute)
    requires
        call_ensures(ClockRoute::best, (&host,), route),
    ensures
        !(route is WallRealtimeNs),
        !(route.planned(host) is Wall),
        !(route.planned(host) is DeclaredRate),
        route.planned(host) == ClockRoute::Auto.planned(host),
        route.planned(host) is Monotonic <==> host.counter.target.machine is Other && !host.simd,
{
    crate::laws::routes::the_best_route_reads_the_counter(host);
}

/// The physical counter is taken up where the processor has one and lets it
/// be read; the virtual one always. A refused request changes nothing.
pub proof fn a_counter_is_selected_where_it_may_be_read(
    machine: Machine,
    probe: PermissionProbe,
    choice: &mut CounterChoice,
    source: CounterSource,
    selected: Result<(), CounterSourceError>,
)
    requires
        call_ensures(
            crate::arch::set_counter_source,
            (machine, probe, choice, source),
            selected,
        ),
    ensures
        source is Virtual ==> selected is Ok,
        source is Physical && !(machine is Aarch64) ==> selected
            == Err::<(), CounterSourceError>(CounterSourceError::NoPhysicalCounter),
        source is Physical && machine is Aarch64 ==> (selected is Ok <==> probe.permits()),
        source is Physical && machine is Aarch64 && !probe.permits() ==> selected
            == Err::<(), CounterSourceError>(CounterSourceError::NotPermitted),
        selected is Ok && machine is Aarch64 ==> (final(choice).physical <==> source is Physical),
        selected is Err || !(machine is Aarch64) ==> *final(choice) == *old(choice),
{
}

/// A timebase that is told its rate keeps it where 32 bits hold it.
pub proof fn a_timebase_keeps_a_rate_that_fits(rate: &mut TimebaseRate, hz: u64)
    requires
        call_ensures(TimebaseRate::set_timebase_hz, (rate, hz), ()),
    ensures
        hz < 0x1_0000_0000 ==> final(rate).hz == hz,
        hz >= 0x1_0000_0000 ==> final(rate).hz == old(rate).hz,
{
}

/// A hart that is told its timebase's rate keeps it where 32 bits hold it, and
/// nothing else about it changes.
pub proof fn a_hart_keeps_a_rate_that_fits(hart: &mut HartFacts, hz: u64)
    requires
        call_ensures(HartFacts::set_timebase_hz, (hart, hz), ()),
    ensures
        hz < 0x1_0000_0000 ==> final(hart).timebase == hz,
        hz >= 0x1_0000_0000 ==> final(hart).timebase == old(hart).timebase,
        final(hart).vector == old(hart).vector,
{
}

/// A hart that is told of its vector unit says so, and nothing else about it
/// changes.
pub proof fn a_hart_keeps_what_it_was_told_of_vectors(hart: &mut HartFacts, present: bool)
    requires
        call_ensures(HartFacts::set_vector_available, (hart, present), ()),
    ensures
        final(hart).vector <==> present,
        final(hart).timebase == old(hart).timebase,
{
}

/// A console begins in use, at no address, its firmware not yet asked.
pub proof fn a_console_begins_in_use(serial: Serial)
    requires
        call_ensures(Serial::init, (), serial),
    ensures
        serial.live,
        serial.base == 0,
        serial.sbi is NotAsked,
{
}

/// A console is moved to the address that was found, and nothing else of it
/// changes.
pub proof fn a_console_is_moved_to_its_address(serial: &mut Serial, base: usize)
    requires
        call_ensures(Serial::set_uart_base, (serial, base), ()),
    ensures
        final(serial).base == base,
        final(serial).live == old(serial).live,
        final(serial).sbi == old(serial).sbi,
{
}

/// One byte that cannot be sent takes the console out of use for good.
pub proof fn a_console_that_failed_stays_out_of_use(serial: &mut Serial, sent: bool)
    requires
        call_ensures(Serial::put, (serial, sent), ()),
    ensures
        !sent ==> !final(serial).live,
        !old(serial).live ==> !final(serial).live,
        sent && old(serial).live ==> final(serial).live,
        final(serial).base == old(serial).base,
        final(serial).sbi == old(serial).sbi,
{
}

/// The firmware is asked once for its debug console, and its answer is kept.
pub proof fn firmware_is_asked_once(serial: &mut Serial, debug: bool, mode: SbiMode)
    requires
        call_ensures(Serial::sbi_mode, (serial, debug), mode),
    ensures
        old(serial).sbi is NotAsked && debug ==> mode is DebugConsole,
        old(serial).sbi is NotAsked && !debug ==> mode is Legacy,
        old(serial).sbi is DebugConsole ==> mode is DebugConsole,
        old(serial).sbi is Legacy ==> mode is Legacy,
        final(serial).sbi == mode,
        final(serial).live == old(serial).live,
        final(serial).base == old(serial).base,
{
}

/// A write through firmware ends on an error, ends when every byte is out,
/// and gives up after ten thousand polls in a row that took none.
pub proof fn a_firmware_write_goes_on_until_it_is_out(
    write: &mut OpalWrite,
    status: OpalStatus,
    written: u64,
    step: OpalStep,
)
    requires
        call_ensures(OpalWrite::step, (write, status, written), step),
        old(write).from < old(write).total && old(write).busy <= 10_000,
    ensures
        status is Failed ==> step is Fail,
        status is Success && written >= old(write).total - old(write).from ==> step is Done
            && final(write).from == old(write).total,
        status is Success && 0 < written < old(write).total - old(write).from ==> step is Again
            && final(write).from == old(write).from + written && final(write).busy == 0,
        !(status is Failed) && (!(status is Success) || written == 0) ==> final(write).busy == old(
            write,
        ).busy + 1 && final(write).from == old(write).from && (step is Fail <==> old(write).busy
            == 10_000) && (step is Poll <==> old(write).busy < 10_000),
        !(status is Failed) ==> final(write).total == old(write).total,
{
}

/// A walk over the extended capabilities moves on by four times the header's
/// second byte, as long as that is not zero, and stops at the first
/// capability whose low byte is 1.
pub proof fn a_capability_leads_to_the_next(
    walk: &mut CapabilityWalk,
    bar_len: usize,
    kind: u32,
    next: u32,
    rest: u32,
    step: CapabilityStep,
)
    requires
        kind < 0x100 && next < 0x100 && rest < 0x1_0000,
        call_ensures(
            CapabilityWalk::step,
            (walk, bar_len, (kind + 0x100 * next + 0x1_0000 * rest) as u32),
            step,
        ),
    ensures
        kind == 1 ==> step == (CapabilityStep::Legacy { offset: old(walk).offset }) && *final(walk)
            == *old(walk),
        kind != 1 && next == 0 ==> step is End && *final(walk) == *old(walk),
        kind != 1 && next != 0 && kind + 0x100 * next + 0x1_0000 * rest != 0xFFFF_FFFF ==> {
            &&& step is Next
            &&& final(walk).offset == old(walk).offset + 4 * next
            &&& final(walk).left == old(walk).left - 1
        },
{
    let header = (kind + 0x100 * next + 0x1_0000 * rest) as u32;
    assert(header % 0x100 == kind);
    assert(header / 0x100 == next + 0x100 * rest);
    assert((header / 0x100) % 0x100 == next);
}

/// A controller is claimed by a 1 in the fourth byte of its legacy support
/// capability.
pub proof fn a_claim_writes_the_fourth_byte(offset: usize, bar_len: usize, write: Access)
    requires
        call_ensures(crate::xhci::claim, (offset, bar_len), write),
        crate::xhci::capability_inside(offset as int, bar_len as int),
        offset + 3 <= usize::MAX,
    ensures
        write == (Access::Write8 { offset: (offset + 3) as usize, byte: 1 }),
{
}

/// A survey of a controller without registers to read finds nothing to
/// provide and nobody to take it over from.
pub proof fn a_survey_reads_only_what_is_there(
    present: bool,
    bar_len: usize,
    hcs2: u32,
    firmware: Option<u8>,
    found: (usize, bool),
)
    requires
        call_ensures(crate::xhci::survey, (present, bar_len, hcs2, firmware), found),
    ensures
        !present || bar_len < 4096 ==> found.0 == 0 && !found.1,
        present && bar_len >= 4096 ==> found.0 == crate::xhci::scratchpad_wanted(hcs2) && (found.1
            <==> (firmware matches Some(semaphore) && semaphore != 0)),
{
}

/// A port is enabled where its status holds the second bit.
pub proof fn an_enabled_port_says_so(status: u32, enabled: bool)
    requires
        call_ensures(crate::xhci::port_enabled, (status,), enabled),
    ensures
        enabled <==> crate::laws::holds(status as int, 2),
{
    assert(status & 2u32 != 0 <==> (status / 2) % 2 == 1) by (bit_vector);
}

/// A detection is begun where ten seconds have passed since the last, where
/// the cool-down is off, or where there was none; else it is refused with the
/// nanoseconds that are left.
pub proof fn a_detection_is_begun_after_ten_seconds(
    gate: &mut Gate,
    now: u64,
    begun: Result<(), u64>,
)
    requires
        call_ensures(Gate::try_begin, (gate, now), begun),
    ensures
        begun is Ok <==> (!old(gate).cooldown || (old(gate).last_ns matches Some(last) ==> now
            - last >= 10_000_000_000)),
        begun is Ok ==> final(gate).last_ns == Some(now),
        begun matches Err(left) ==> (old(gate).last_ns matches Some(last) && (if now >= last {
            left == 10_000_000_000 - (now - last)
        } else {
            left == 10_000_000_000
        }) && *final(gate) == *old(gate)),
        final(gate).cooldown == old(gate).cooldown,
{
}

/// The first detection is kept, with the time it was made at, and is the
/// latest one until it is repeated.
pub proof fn the_first_detection_is_kept(
    report: HypervisorReport,
    now: u64,
    detections: Detections,
    latest: &HypervisorReport,
)
    requires
        call_ensures(crate::hypervisor::cached, (report, now), detections),
        call_ensures(crate::hypervisor::latest, (&detections,), latest),
    ensures
        detections.first == report,
        *latest == report,
        detections.gate.last_ns == Some(now),
        detections.gate.cooldown,
{
}

/// A repeated detection is the latest from then on; the first is still the
/// first.
pub proof fn a_repeated_detection_is_the_latest(
    detections: &mut Detections,
    report: HypervisorReport,
    latest: &HypervisorReport,
)
    requires
        call_ensures(crate::hypervisor::keep_reprobe, (detections, report), ()),
        call_ensures(crate::hypervisor::latest, (&*final(detections),), latest),
    ensures
        *latest == report,
        final(detections).first == old(detections).first,
        final(detections).gate == old(detections).gate,
{
}

/// The cool-down is switched as asked, and nothing else changes.
pub proof fn the_cooldown_is_switched_as_asked(detections: &mut Detections, on: bool)
    requires
        call_ensures(crate::hypervisor::set_reprobe_cooldown_enabled, (detections, on), ()),
    ensures
        final(detections).gate.cooldown <==> on,
        final(detections).gate.last_ns == old(detections).gate.last_ns,
        final(detections).first == old(detections).first,
        final(detections).repeated == old(detections).repeated,
{
}

/// A new check has no baseline, has seen no step and says it is warming.
pub proof fn a_new_check_is_warming(
    primary_hz: u64,
    reference_hz: u64,
    tolerance: u32,
    uncertainty: u64,
    check: CrossCheck,
)
    requires
        call_ensures(
            CrossCheck::new,
            (primary_hz, reference_hz, tolerance, uncertainty),
            check,
        ),
    ensures
        check.primary_hz == primary_hz,
        check.reference_hz == reference_hz,
        check.tolerance_ppm == tolerance,
        check.sample_uncertainty_ns == uncertainty,
        check.origin is None && check.last is None,
        check.steps == 0,
        check.verdict is Warming,
{
}

/// A port without power is given it, in its own register, with every other
/// bit but the change and enable bits as it was; one with power is left alone.
pub proof fn a_port_is_powered_where_it_is_not(
    x: Xhci,
    port: u8,
    status: u32,
    write: Option<Access>,
)
    requires
        call_ensures(Xhci::power_port, (&x, port, status), write),
        x.well_formed(),
        1 <= port <= x.max_ports,
    ensures
        write is None <==> crate::laws::holds(status as int, 0x200),
        write matches Some(access) ==> access == (Access::Write32 {
            offset: (x.operational + 0x400 + 16 * (port - 1)) as usize,
            value: (status & !0x76_0002u32) | 0x200u32,
        }),
{
    assert(status & 0x200u32 != 0 <==> (status / 0x200) % 2 == 1) by (bit_vector);
    assert((status & 0xFF89_FFFDu32) | 0x200u32 == (status & !0x76_0002u32) | 0x200u32)
        by (bit_vector);
}

/// A controller is provided with the pages it asked for, 64 at most, one
/// behind the other.
pub proof fn pages_are_provided_in_a_row(x: &mut Xhci, m: Memory, pages: Vec<u64>, i: int)
    requires
        call_ensures(Xhci::configure_scratchpad, (x, &m), pages),
    ensures
        old(x).scratchpad <= 64 ==> pages@.len() == old(x).scratchpad,
        old(x).scratchpad > 64 ==> pages@.len() == 64,
        final(x).provided == pages@.len(),
        0 <= i < pages@.len() ==> pages@[i] == m.scratchpad_pages + 4096 * i,
        final(x).scratchpad == old(x).scratchpad,
        final(x).device_count == old(x).device_count,
{
}

/// A device is enumerated from the first stage on, with an Enable Slot
/// command, while fewer than two are in use.
pub proof fn an_enumeration_begins_with_a_slot(
    x: &mut Xhci,
    m: Memory,
    port: u8,
    begun: Option<(Enumeration, Request)>,
)
    requires
        call_ensures(Xhci::enumerate, (x, &m, port), begun),
    ensures
        begun is Some <==> old(x).device_count < 2,
        begun is None ==> *final(x) == *old(x),
        begun matches Some((e, request)) ==> {
            &&& e.port == port
            &&& e.index == old(x).device_count
            &&& e.stage is EnableSlot
            &&& request@.ring is Command
            &&& request@.doorbell == (Access::Write32 { offset: old(x).doorbell, value: 0 })
            &&& request@.writes == old(x).command.writes(
                m.command_ring,
                (crate::xhci::Trb { parameter: 0, status: 0, control: 0x2400 }),
            )
        },
{
}

/// A command is answered by an event of kind 33: another kind of event is
/// passed over, and where there is none yet nothing is.
pub proof fn a_command_is_answered_by_its_own_kind(
    x: &mut Xhci,
    ring: Ring,
    event: Option<Event>,
)
    requires
        call_ensures(Xhci::wait_command_event, (x, &ring), event),
    ensures
        event matches Some(e) ==> e.kind == 33,
        ring.trbs@[old(x).events.index as int].control % 2 != old(x).events.cycle && old(
            x,
        ).events.cycle <= 1 ==> event is None && final(x).events == old(x).events,
        final(x).command == old(x).command,
        final(x).device_count == old(x).device_count,
{
    lemma_awaited(ring.trbs@, old(x).events, 33, 16);
    let control = ring.trbs@[old(x).events.index as int].control;
    assert(control & 1 == control % 2) by (bit_vector);
}

proof fn lemma_awaited(ring: Seq<crate::xhci::Trb>, at: Producer, kind: u32, n: nat)
    ensures
        crate::xhci::awaited(ring, at, kind, n).0 matches Some(e) ==> e.kind == kind,
    decreases n,
{
    if n > 0 {
        lemma_awaited(ring, crate::xhci::past_event(at), kind, (n - 1) as nat);
    }
}

/// A controller is taken up where its registers lie inside the window, at the
/// offsets it states itself, with nothing in use.
pub proof fn a_controller_is_laid_out_as_it_says(
    present: bool,
    bar_len: usize,
    caplength: u8,
    hcs1: u32,
    hcs2: u32,
    hcc1: u32,
    dboff: u32,
    rtsoff: u32,
    ports: u32,
    below: u32,
    taken: Option<Xhci>,
)
    requires
        call_ensures(
            Xhci::new,
            (present, bar_len, caplength, hcs1, hcs2, hcc1, dboff, rtsoff),
            taken,
        ),
        hcs1 == 0x100_0000 * ports + below,
        below < 0x100_0000,
    ensures
        !present || bar_len < 4096 ==> taken is None,
        taken matches Some(x) ==> {
            &&& x.operational == caplength
            &&& x.doorbell + dboff % 4 == dboff
            &&& x.runtime + rtsoff % 32 == rtsoff
            &&& x.bar_len == bar_len
            &&& x.context_size == 64 <==> crate::laws::holds(hcc1 as int, 4)
            &&& x.context_size == 32 <==> !crate::laws::holds(hcc1 as int, 4)
            &&& x.max_ports == ports
            &&& x.command.index == 0 && x.command.cycle == 1
            &&& x.events.index == 0 && x.events.cycle == 1
            &&& x.device_count == 0
            &&& x.provided == 0
            &&& x.scratchpad == crate::xhci::scratchpad_wanted(hcs2)
        },
{
    crate::laws::lemma_bit32(hcc1, 2);
    vstd::arithmetic::power2::lemma2_to64();
    assert(hcs1 / 0x100_0000 == ports);
}

/// A refused detection says how many seconds to wait.
pub proof fn a_refused_detection_says_how_long(
    error: crate::hypervisor::ReprobeError,
    text: String,
)
    requires
        call_ensures(crate::hypervisor::ReprobeError::message, (&error,), text),
    ensures
        text@ == "re-probe cooling down: wait "@ + (crate::text::decimal(error->wait_s as int)
            + " s (anti-abuse limit for cloud hosts)"@),
{
}

/// The highest leaf is what leaf 0 answers first.
pub proof fn the_highest_leaf_is_the_first_answer(
    cpu: crate::arch::x86::CpuidTable,
    leaf: u32,
)
    requires
        call_ensures(crate::arch::x86::cpuid_max_leaf, (&cpu,), leaf),
    ensures
        leaf == cpu.at(0, 0).eax,
{
}

/// A slot is a device's where one in use has it, the first before the second.
pub proof fn a_slot_is_the_device_that_has_it(x: Xhci, slot: u8, device: Option<usize>)
    requires
        call_ensures(Xhci::device_of_slot, (&x, slot), device),
        x.well_formed(),
    ensures
        device == Some(0usize) <==> x.device_count > 0 && x.devices@[0].slot == slot,
        device == Some(1usize) <==> x.device_count > 1 && x.devices@[1].slot == slot
            && x.devices@[0].slot != slot,
        device is None <==> !(x.device_count > 0 && x.devices@[0].slot == slot) && !(x.device_count
            > 1 && x.devices@[1].slot == slot),
{
}

/// A counter that is refused says so behind the option that asked for it.
pub proof fn a_refused_counter_names_its_option(error: CounterSourceError, text: String)
    requires
        call_ensures(crate::cli_report::physical_counter_error, (error,), text),
    ensures
        text@ == "error: --physical-counter: "@ + (error.text() + "\n"@),
{
}

/// What the registry shows of a guest is told with the key that showed it.
pub proof fn a_registry_guest_is_told_with_its_key(
    registry: crate::hypervisor::RegistryEvidence,
    evidence: Option<(Hypervisor, &'static str)>,
)
    requires
        call_ensures(crate::hypervisor::read_registry_evidence, (&registry,), evidence),
    ensures
        registry.guest_parameters ==> (evidence matches Some((h, key)) && h is HyperV && key@
            == "hyper-v guest parameters"@),
        !registry.guest_parameters ==> (evidence matches Some((h, key)) ==> key@
            == "bios description key"@),
{
    if let Some((h, key)) = evidence {
        crate::laws::detection::a_hypervisor_is_viewed_as_itself(h);
    }
}

/// A snapshot without a vector family says so.
pub proof fn no_family_is_called_none(snapshot: crate::clock::NanoclockSnapshot, name: &str)
    requires
        call_ensures(crate::clock::NanoclockSnapshot::simd_name, (&snapshot,), name),
    ensures
        snapshot.best_simd is None ==> name@ == "none"@,
        snapshot.best_simd matches Some(family) ==> name@ == family@,
{
}

/// Ring 0's counts are read where the module wrote which event it counted.
pub proof fn counts_are_read_where_an_event_is_named(
    text: Option<String>,
    read: Option<crate::cli_report::Ring0Counts>,
)
    requires
        call_ensures(crate::ring0_perf::read_counts, (&text,), read),
    ensures
        text is None ==> read is None,
        text matches Some(t) ==> (read is Some <==> crate::ring0_perf::value_of(
            crate::text::text_lines(t@),
            "perf_event"@,
        ) is Some),
{
}

/// A port's status is read from its own register.
pub proof fn a_status_is_read_from_its_port(x: Xhci, port: u8, offset: usize)
    requires
        call_ensures(Xhci::port_status, (&x, port), offset),
    ensures
        offset == x.operational + 0x400 + 16 * (port - 1),
{
}

} // verus!
