//! An xHCI host controller, far enough to read a keyboard.
//!
//! The driver brings up the controller, enumerates devices on its ports, and
//! polls their interrupt endpoints for HID boot-protocol reports. There is no
//! hub support and no bulk or isochronous transfer: a keyboard needs none.
//!
//! Everything here is a decision over plain values. A register is an offset
//! into the BAR, an access is an entry of a plan, and the rings are sequences
//! of TRBs; whoever owns the mapping performs the plan. That every access of
//! every plan lies inside the BAR is a law, and so is that the controller
//! finds on a ring what was put there.
use vstd::prelude::*;

verus! {

// --- operational registers, relative to CAPLENGTH -------------------------

pub const XHCI_USBCMD: usize = 0x00;

pub const XHCI_USBSTS: usize = 0x04;

pub const XHCI_CRCR: usize = 0x18;

pub const XHCI_DCBAAP: usize = 0x30;

pub const XHCI_CONFIG: usize = 0x38;

/// Port registers start here, sixteen bytes each.
pub const XHCI_PORTSC: usize = 0x400;

/// Capability ID 1: USB Legacy Support, where the firmware says it owns the
/// controller.
pub const XECP_ID_LEGACY: u32 = 1;

/// Byte offset of the firmware's semaphore inside that capability.
pub const XECP_BIOS_SEM: usize = 0x02;

/// Byte offset of the operating system's semaphore inside that capability.
pub const XECP_OS_SEM: usize = 0x03;

/// How many scratchpad pages are provided at most.
pub const MAX_SCRATCHPAD: usize = 64;

/// The page size the specification fixes for scratchpad buffers.
pub const SCRATCHPAD_PAGE: usize = 4096;

/// How many times the firmware is asked to let go.
pub const HANDOFF_POLLS: u32 = 50;

/// How long to wait between two of those, in spins.
pub const HANDOFF_DELAY: u32 = 10_000;

/// How many capabilities of the list are looked at.
pub const XECP_LIMIT: u32 = 64;

/// The smallest BAR an xHCI can have.
pub const MIN_BAR: usize = 0x1000;

/// Ring capacity, the link entry included.
pub const RING_LEN: usize = 16;

/// How many devices are kept addressed at the same time: the keyboard and the
/// pointer of a notebook are separate devices.
pub const MAX_DEVICES: usize = 2;

/// How many device slots the controller is asked for.
pub const MAX_SLOTS: usize = 8;

/// The input control context, the slot context and all 31 endpoint contexts,
/// at the 64-byte context size.
pub const INPUT_CONTEXT_BYTES: usize = 2112;

/// Bytes of one device context.
pub const CONTEXT_BYTES: u64 = 2048;

/// Bytes of one ring.
pub const RING_BYTES: u64 = 256;

/// Bytes of one report buffer.
pub const BUFFER_BYTES: u64 = 256;

/// Run/stop.
pub const XHCI_CMD_RS: u32 = 1;

/// Host controller reset.
pub const XHCI_CMD_HCRST: u32 = 2;

/// Controller halted.
pub const XHCI_STS_HCH: u32 = 1;

/// Controller not ready.
pub const XHCI_STS_CNR: u32 = 0x800;

/// Current connect status.
pub const PORTSC_CCS: u32 = 1;

/// Port enabled.
pub const PORTSC_PED: u32 = 2;

/// Port reset.
pub const PORTSC_PR: u32 = 0x10;

/// Port power.
pub const PORTSC_PP: u32 = 0x200;

/// The change bits, which are cleared by writing a one.
pub const PORTSC_CHANGE_MASK: u32 = 0x76_0000;

/// Bits kept on a read-modify-write: all but the change bits and the enable
/// bit, which a write would clear.
pub const PORTSC_RW_MASK: u32 = 0xFF89_FFFD;

// --- TRB types ------------------------------------------------------------

pub const TRB_NORMAL: u32 = 1;

pub const TRB_SETUP: u32 = 2;

pub const TRB_DATA: u32 = 3;

pub const TRB_STATUS: u32 = 4;

pub const TRB_LINK: u32 = 6;

pub const TRB_ENABLE_SLOT: u32 = 9;

pub const TRB_ADDRESS_DEVICE: u32 = 11;

pub const TRB_CONFIGURE_ENDPOINT: u32 = 12;

pub const TRB_TRANSFER_EVENT: u32 = 32;

pub const TRB_COMMAND_COMPLETION: u32 = 33;

/// Toggle-cycle, set on the link TRB that wraps a ring.
pub const TRB_TOGGLE: u32 = 2;

/// Interrupt on completion.
pub const TRB_IOC: u32 = 0x20;

/// The weight of the type field in a TRB's control word.
pub const TRB_TYPE: u32 = 0x400;

/// The weight of the slot field in a TRB's control word.
pub const TRB_SLOT: u32 = 0x100_0000;

/// The control word of a link: its type, with toggle-cycle.
pub const LINK_CONTROL: u32 = 0x1802;

/// Completion code: success.
pub const CC_SUCCESS: u32 = 1;

/// Completion code: the device sent less than the endpoint's maximum, which is
/// the normal case for a HID device.
pub const CC_SHORT_PACKET: u32 = 13;

// ---------------------------------------------------------------------------
// Where the registers are
// ---------------------------------------------------------------------------

/// Whether an extended capability, its header and the legacy semaphores, lies
/// inside the BAR.
pub open spec fn capability_inside(offset: int, bar_len: int) -> bool {
    offset + 8 <= bar_len
}

/// Whether an extended capability at `offset` lies inside the BAR.
pub fn xecp_in_bar(offset: usize, bar_len: usize) -> (inside: bool)
    ensures
        inside == capability_inside(offset as int, bar_len as int),
{
    bar_len >= 8 && offset <= bar_len - 8
}

/// Whether the register blocks all lie inside the BAR: the operational block
/// and its port array, a doorbell for every slot a controller could number,
/// and the runtime block through interrupter 0.
pub open spec fn fits(bar_len: int, caplength: int, dboff: int, rtsoff: int, max_ports: int)
    -> bool {
    &&& caplength >= 0x20
    &&& caplength + XHCI_PORTSC + max_ports * 0x10 <= bar_len
    &&& dboff >= caplength
    &&& dboff + 256 * 4 <= bar_len
    &&& rtsoff >= caplength
    &&& rtsoff + 0x20 + 0x20 <= bar_len
}

/// Whether the register blocks that the capability registers place all lie
/// inside a BAR of `bar_len` bytes.
pub fn layout_fits(bar_len: usize, caplength: u8, dboff: usize, rtsoff: usize, max_ports: u8)
    -> (fit: bool)
    ensures
        fit == fits(
            bar_len as int,
            caplength as int,
            dboff as int,
            rtsoff as int,
            max_ports as int,
        ),
{
    let operational_end: usize = caplength as usize + XHCI_PORTSC + max_ports as usize * 0x10;
    caplength >= 0x20 && operational_end <= bar_len && dboff >= caplength as usize && bar_len
        >= 1024 && dboff <= bar_len - 1024 && rtsoff >= caplength as usize && rtsoff <= bar_len
        - 0x40
}

/// The scratchpad count of `HCSPARAMS2`: the high five bits at 25:21, the low
/// five at 31:27. Reading either half alone gives a plausible wrong number.
pub open spec fn scratchpad_wanted(hcs2: u32) -> int {
    (hcs2 / 0x20_0000) % 32 * 32 + hcs2 / 0x800_0000
}

/// How many scratchpad pages a controller asks for.
pub fn scratchpad_count(hcs2: u32) -> (count: usize)
    ensures
        count == scratchpad_wanted(hcs2),
        count < 1024,
{
    ((hcs2 / 0x20_0000) % 32 * 32 + hcs2 / 0x800_0000) as usize
}

/// What one register access is.
#[derive(Debug, Clone, Copy, PartialEq, Eq, Structural)]
pub enum Access {
    /// Write a byte.
    Write8 { offset: usize, byte: u8 },
    /// Write a doubleword.
    Write32 { offset: usize, value: u32 },
    /// Wait until a bit of a register is set.
    WaitSet { offset: usize, mask: u32 },
    /// Wait until a bit of a register is clear.
    WaitClear { offset: usize, mask: u32 },
}

impl Access {
    /// Whether the access lies inside a BAR of this size.
    pub open spec fn inside(self, bar_len: int) -> bool {
        match self {
            Access::Write8 { offset, .. } => offset + 1 <= bar_len,
            Access::Write32 { offset, .. } => offset + 4 <= bar_len,
            Access::WaitSet { offset, .. } => offset + 4 <= bar_len,
            Access::WaitClear { offset, .. } => offset + 4 <= bar_len,
        }
    }
}

/// Whether every access of a plan lies inside the BAR.
pub open spec fn all_inside(plan: Seq<Access>, bar_len: int) -> bool {
    forall|i: int| 0 <= i < plan.len() ==> (#[trigger] plan[i]).inside(bar_len)
}

/// A 64-bit register written as two halves, the low one first: writing the
/// high half first can latch a pointer made of the new high and the old low.
pub open spec fn write64(offset: usize, value: u64) -> Seq<Access> {
    seq![
        Access::Write32 { offset, value: (value % 0x1_0000_0000) as u32 },
        Access::Write32 { offset: (offset + 4) as usize, value: (value / 0x1_0000_0000) as u32 },
    ]
}

fn push_write64(plan: &mut Vec<Access>, offset: usize, value: u64)
    requires
        offset + 4 <= usize::MAX,
    ensures
        final(plan)@ == old(plan)@ + write64(offset, value),
{
    plan.push(Access::Write32 { offset, value: (value % 0x1_0000_0000) as u32 });
    plan.push(Access::Write32 { offset: offset + 4, value: (value / 0x1_0000_0000) as u32 });
    assert(plan@ =~= old(plan)@ + write64(offset, value));
}

// ---------------------------------------------------------------------------
// Taking the controller from the firmware
// ---------------------------------------------------------------------------

/// A walk over the list of extended capabilities, which starts at
/// `HCCPARAMS1[31:16]`, counted in doublewords.
///
/// Bounded: the list is a chain out of hardware, and a circular one must not
/// be followed forever.
#[derive(Debug, Clone, Copy, PartialEq, Eq, Structural)]
pub struct CapabilityWalk {
    /// Where the next header is; zero ends the list.
    pub offset: usize,
    /// How many more headers are looked at.
    pub left: u32,
}

/// What a capability's header leads to.
#[derive(Debug, Clone, Copy, PartialEq, Eq, Structural)]
pub enum CapabilityStep {
    /// The legacy support capability is here.
    Legacy { offset: usize },
    /// Look at the next header.
    Next,
    /// There is no legacy support capability.
    End,
}

impl CapabilityWalk {
    /// The walk before its first header.
    pub open spec fn start(hcc1: u32) -> CapabilityWalk {
        CapabilityWalk { offset: (hcc1 / 0x1_0000 * 4) as usize, left: XECP_LIMIT }
    }

    /// The header to read next, where there is one inside the BAR.
    pub open spec fn header(self, bar_len: usize) -> Option<usize> {
        if self.left > 0 && self.offset != 0 && capability_inside(
            self.offset as int,
            bar_len as int,
        ) {
            Some(self.offset)
        } else {
            None
        }
    }

    /// What a header leads to: nothing where it reads as absent, the legacy
    /// capability by its ID, else the next one where there is a next one.
    pub open spec fn led_to(self, header: u32) -> CapabilityStep {
        if header == 0 || header == u32::MAX {
            CapabilityStep::End
        } else if header % 0x100 == XECP_ID_LEGACY {
            CapabilityStep::Legacy { offset: self.offset }
        } else if (header / 0x100) % 0x100 == 0 {
            CapabilityStep::End
        } else {
            CapabilityStep::Next
        }
    }

    pub fn new(hcc1: u32) -> (walk: CapabilityWalk)
        ensures
            walk == CapabilityWalk::start(hcc1),
    {
        CapabilityWalk { offset: (hcc1 / 0x1_0000 * 4) as usize, left: XECP_LIMIT }
    }

    /// The offset of the header to read next.
    pub fn wants(&self, bar_len: usize) -> (offset: Option<usize>)
        ensures
            offset == self.header(bar_len),
    {
        if self.left > 0 && self.offset != 0 && xecp_in_bar(self.offset, bar_len) {
            Some(self.offset)
        } else {
            None
        }
    }

    /// Takes the header that was wanted.
    pub fn step(&mut self, bar_len: usize, header: u32) -> (step: CapabilityStep)
        requires
            old(self).header(bar_len) is Some,
            bar_len + 1020 <= usize::MAX,
        ensures
            step == old(self).led_to(header),
            step is Next ==> final(self).left == old(self).left - 1 && final(self).offset == old(
                self,
            ).offset + (header / 0x100) % 0x100 * 4,
            !(step is Next) ==> *final(self) == *old(self),
    {
        if header == 0 || header == 0xFFFF_FFFF {
            return CapabilityStep::End;
        }
        if header % 0x100 == XECP_ID_LEGACY {
            return CapabilityStep::Legacy { offset: self.offset };
        }
        let next: usize = ((header / 0x100) % 0x100 * 4) as usize;
        if next == 0 {
            return CapabilityStep::End;
        }
        self.left = self.left - 1;
        self.offset = self.offset + next;
        CapabilityStep::Next
    }
}

/// Whether there is a BAR to survey: one that is placed, and that decodes at
/// least what every controller needs.
pub open spec fn surveyed(bar_present: bool, bar_len: usize) -> bool {
    bar_present && bar_len >= MIN_BAR
}

/// What a survey of a controller found: how many scratchpad pages it wants,
/// and whether the firmware owns it. Of a controller without a BAR that could
/// hold its registers nothing is read: it wants none, and nobody owns it.
///
/// `hcs2` and `firmware_semaphore` are what was read of the others, the
/// semaphore `None` where no legacy capability was found.
pub fn survey(
    bar_present: bool,
    bar_len: usize,
    hcs2: u32,
    firmware_semaphore: Option<u8>,
) -> (found: (usize, bool))
    ensures
        found.0 == (if surveyed(bar_present, bar_len) {
            scratchpad_wanted(hcs2)
        } else {
            0
        }),
        found.1 == (surveyed(bar_present, bar_len) && (match firmware_semaphore {
            Some(semaphore) => semaphore != 0,
            None => false,
        })),
{
    if !bar_present || bar_len < MIN_BAR {
        return (0, false);
    }
    let owned = match firmware_semaphore {
        Some(semaphore) => semaphore != 0,
        None => false,
    };
    (scratchpad_count(hcs2), owned)
}

/// Where the handshake for the controller stands.
#[derive(Debug, Clone, Copy, PartialEq, Eq, Structural)]
pub enum Handoff {
    /// The firmware's semaphore has not been read yet.
    Asking,
    /// The controller is claimed; this many reads of the semaphore are left.
    Claimed { polls: u32 },
    /// Nothing more to do.
    Over,
}

/// What the handshake does next.
#[derive(Debug, Clone, Copy, PartialEq, Eq, Structural)]
pub enum HandoffAction {
    /// Claim the controller, then read the firmware's semaphore.
    Claim,
    /// Wait, then read the firmware's semaphore again.
    Wait { spins: u32 },
    /// Go on with the reset, after waiting this long.
    Proceed { spins: u32 },
}

impl Handoff {
    /// The handshake after the firmware's semaphore was read. A firmware that
    /// never lets go is gone ahead of: giving up would mean no input at all.
    pub open spec fn after(self, semaphore: u8) -> (Handoff, HandoffAction) {
        if semaphore == 0 {
            (Handoff::Over, HandoffAction::Proceed { spins: 0 })
        } else {
            match self {
                Handoff::Asking => (
                    Handoff::Claimed { polls: HANDOFF_POLLS },
                    HandoffAction::Claim,
                ),
                Handoff::Claimed { polls } => if polls <= 1 {
                    (Handoff::Over, HandoffAction::Proceed { spins: HANDOFF_DELAY })
                } else {
                    (
                        Handoff::Claimed { polls: (polls - 1) as u32 },
                        HandoffAction::Wait { spins: HANDOFF_DELAY },
                    )
                },
                Handoff::Over => (Handoff::Over, HandoffAction::Proceed { spins: 0 }),
            }
        }
    }

    /// How many more reads of the semaphore there can be.
    pub open spec fn budget(self) -> nat {
        match self {
            Handoff::Asking => (HANDOFF_POLLS + 1) as nat,
            Handoff::Claimed { polls } => polls as nat,
            Handoff::Over => 0,
        }
    }

    /// Takes a reading of the firmware's semaphore.
    pub fn step(&mut self, semaphore: u8) -> (action: HandoffAction)
        ensures
            (*final(self), action) == old(self).after(semaphore),
    {
        if semaphore == 0 {
            *self = Handoff::Over;
            return HandoffAction::Proceed { spins: 0 };
        }
        match *self {
            Handoff::Asking => {
                *self = Handoff::Claimed { polls: HANDOFF_POLLS };
                HandoffAction::Claim
            },
            Handoff::Claimed { polls } => {
                if polls <= 1 {
                    *self = Handoff::Over;
                    HandoffAction::Proceed { spins: HANDOFF_DELAY }
                } else {
                    *self = Handoff::Claimed { polls: polls - 1 };
                    HandoffAction::Wait { spins: HANDOFF_DELAY }
                }
            },
            Handoff::Over => HandoffAction::Proceed { spins: 0 },
        }
    }
}

/// Claims a controller whose legacy support capability is at `offset`.
pub fn claim(offset: usize, bar_len: usize) -> (write: Access)
    requires
        capability_inside(offset as int, bar_len as int),
    ensures
        write == (Access::Write8 { offset: (offset + XECP_OS_SEM) as usize, byte: 1 }),
        write.inside(bar_len as int),
{
    Access::Write8 { offset: offset + XECP_OS_SEM, byte: 1 }
}

/// The handshake always ends: each reading leaves fewer to come, and none is
/// left once it goes ahead.
pub proof fn handoff_ends(h: Handoff, semaphore: u8)
    ensures
        h.after(semaphore).1 is Proceed ==> h.after(semaphore).0.budget() == 0,
        !(h.after(semaphore).1 is Proceed) ==> h.after(semaphore).0.budget() < h.budget(),
{
}

// ---------------------------------------------------------------------------
// Rings
// ---------------------------------------------------------------------------

/// One Transfer Request Block.
#[derive(Debug, Clone, Copy, PartialEq, Eq, Structural)]
pub struct Trb {
    pub parameter: u64,
    pub status: u32,
    pub control: u32,
}

impl Trb {
    /// A block nothing was written to.
    pub open spec fn zero() -> Trb {
        Trb { parameter: 0, status: 0, control: 0 }
    }

    /// The block with a cycle bit.
    pub open spec fn on_pass(self, cycle: u32) -> Trb {
        Trb { control: self.control | cycle, ..self }
    }
}

/// A ring of TRBs with a link back to the start.
#[derive(Debug)]
pub struct Ring {
    pub trbs: [Trb; 16],
}

impl Ring {
    pub fn new() -> (ring: Ring)
        ensures
            forall|i: int| 0 <= i < RING_LEN ==> #[trigger] ring.trbs@[i] == Trb::zero(),
    {
        let zero = Trb { parameter: 0, status: 0, control: 0 };
        Ring { trbs: [zero; 16] }
    }
}

/// Where the next block of a ring goes, and the cycle bit that marks it as
/// belonging to this pass.
#[derive(Debug, Clone, Copy, PartialEq, Eq, Structural)]
pub struct Producer {
    pub index: usize,
    pub cycle: u32,
}

/// One entry of a ring to be written.
#[derive(Debug, Clone, Copy, PartialEq, Eq, Structural)]
pub struct RingWrite {
    pub index: usize,
    pub trb: Trb,
}

/// The link that wraps a ring at `base`. Toggle-cycle tells the controller
/// that the cycle bit flips there.
pub open spec fn link_trb(base: u64, cycle: u32) -> Trb {
    Trb { parameter: base, status: 0, control: LINK_CONTROL }.on_pass(cycle)
}

impl Producer {
    /// Whether the position is one a ring can have.
    pub open spec fn valid(self) -> bool {
        self.index < RING_LEN && self.cycle <= 1
    }

    /// The position with room for a block: past the link if only the link's
    /// entry is left.
    pub open spec fn opened(self) -> Producer {
        if self.index >= RING_LEN - 1 {
            Producer { index: 0, cycle: (1 - self.cycle) as u32 }
        } else {
            self
        }
    }

    /// The position after one more block.
    pub open spec fn advanced(self) -> Producer {
        Producer { index: (self.opened().index + 1) as usize, ..self.opened() }
    }

    /// The entries to write, in order, for one more block.
    pub open spec fn writes(self, base: u64, trb: Trb) -> Seq<RingWrite> {
        let entry = RingWrite {
            index: self.opened().index,
            trb: trb.on_pass(self.opened().cycle),
        };
        if self.index >= RING_LEN - 1 {
            seq![
                RingWrite { index: (RING_LEN - 1) as usize, trb: link_trb(base, self.cycle) },
                entry,
            ]
        } else {
            seq![entry]
        }
    }

    /// A ring starts with its producer cycle set.
    pub fn new() -> (producer: Producer)
        ensures
            producer == (Producer { index: 0, cycle: 1 }),
            producer.valid(),
    {
        Producer { index: 0, cycle: 1 }
    }

    /// Places one block on the ring at `base`.
    pub fn place(&mut self, base: u64, trb: Trb) -> (writes: Vec<RingWrite>)
        requires
            old(self).valid(),
        ensures
            writes@ == old(self).writes(base, trb),
            *final(self) == old(self).advanced(),
            final(self).valid(),
    {
        let mut writes: Vec<RingWrite> = Vec::new();
        // The last entry is reserved for the link that wraps the ring.
        if self.index >= RING_LEN - 1 {
            let link = Trb {
                parameter: base,
                status: 0,
                control: LINK_CONTROL | self.cycle,
            };
            writes.push(RingWrite { index: RING_LEN - 1, trb: link });
            self.index = 0;
            self.cycle = 1 - self.cycle;
        }
        let entry = Trb {
            parameter: trb.parameter,
            status: trb.status,
            control: trb.control | self.cycle,
        };
        writes.push(RingWrite { index: self.index, trb: entry });
        self.index = self.index + 1;
        assert(writes@ =~= old(self).writes(base, trb));
        writes
    }
}

/// A ring's memory after these entries were written, in order.
pub open spec fn written(memory: Seq<Trb>, writes: Seq<RingWrite>) -> Seq<Trb>
    decreases writes.len(),
{
    if writes.len() == 0 {
        memory
    } else {
        written(memory.update(writes[0].index as int, writes[0].trb), writes.skip(1))
    }
}

/// What a consumer at a position finds: the block there, past the link if it
/// stands at one, and nothing where the cycle bit is that of an older pass.
pub open spec fn found(memory: Seq<Trb>, at: Producer) -> Option<(Trb, Producer)> {
    let here = memory[at.index as int];
    if here.control & 1 != at.cycle {
        None
    } else if (here.control / TRB_TYPE) % 64 == TRB_LINK {
        let past = Producer { index: 0, cycle: (1 - at.cycle) as u32 };
        let first = memory[0];
        if first.control & 1 != past.cycle {
            None
        } else {
            Some((first, Producer { index: 1, ..past }))
        }
    } else {
        Some((here, Producer { index: (at.index + 1) as usize, ..at }))
    }
}

/// The controller finds on a ring what was placed there: standing where the
/// producer stood, it takes exactly the block that was placed, and then stands
/// where the producer stands. So the two never part, however often the ring
/// wraps.
pub proof fn controller_finds_what_was_placed(
    memory: Seq<Trb>,
    at: Producer,
    base: u64,
    trb: Trb,
)
    requires
        memory.len() == RING_LEN,
        at.valid(),
        trb.control & 1 == 0,
        (trb.control / TRB_TYPE) % 64 != TRB_LINK,
    ensures
        found(written(memory, at.writes(base, trb)), at) == Some(
            (trb.on_pass(at.opened().cycle), at.advanced()),
        ),
{
    reveal_with_fuel(written, 3);
    let c = at.opened().cycle;
    let w = trb.control;
    assert((w | c) & 1 == c && ((w | c) / 0x400) % 64 == (w / 0x400) % 64) by (bit_vector)
        requires
            w & 1 == 0,
            c <= 1,
    ;
    let d = at.cycle;
    assert((0x1802u32 | d) & 1 == d && ((0x1802u32 | d) / 0x400) % 64 == 6) by (bit_vector)
        requires
            d <= 1,
    ;
    let writes = at.writes(base, trb);
    if at.index >= RING_LEN - 1 {
        assert(writes.skip(1)[0] == writes[1]);
        assert(writes.skip(1).skip(1).len() == 0);
    } else {
        assert(writes.skip(1).len() == 0);
    }
}

/// Every entry written lies on the ring, and only the link is written to the
/// last one.
pub proof fn placed_entries_lie_on_the_ring(at: Producer, base: u64, trb: Trb, i: int)
    requires
        at.valid(),
        0 <= i < at.writes(base, trb).len(),
    ensures
        at.writes(base, trb)[i].index < RING_LEN,
        at.writes(base, trb)[i].index == RING_LEN - 1 ==> at.writes(base, trb)[i].trb == link_trb(
            base,
            at.cycle,
        ),
        at.advanced().valid(),
{
}

/// One entry taken off the event ring.
#[derive(Debug, Clone, Copy, PartialEq, Eq, Structural)]
pub struct Event {
    pub kind: u32,
    pub completion: u32,
    pub parameter: u64,
    /// Which device the event is about: the transfers of all of them complete
    /// into the same ring.
    pub slot: u8,
}

/// The event that a TRB spells.
pub open spec fn event_of(trb: Trb) -> Event {
    Event {
        kind: (trb.control / TRB_TYPE) % 64,
        completion: trb.status / 0x100_0000,
        parameter: trb.parameter,
        slot: (trb.control / TRB_SLOT) as u8,
    }
}

/// The position after one event was taken. The event ring has no link: it
/// wraps by itself.
pub open spec fn past_event(at: Producer) -> Producer {
    if at.index + 1 >= RING_LEN {
        Producer { index: 0, cycle: (1 - at.cycle) as u32 }
    } else {
        Producer { index: (at.index + 1) as usize, ..at }
    }
}

/// Takes the next event off the ring, or `None` if there is none now.
///
/// An entry belongs to this pass only if its cycle bit matches; otherwise it
/// is left over from the previous one.
pub fn take_event(at: &mut Producer, ring: &Ring) -> (event: Option<Event>)
    requires
        old(at).valid(),
    ensures
        final(at).valid(),
        ({
            let trb = ring.trbs@[old(at).index as int];
            if trb.control & 1 == old(at).cycle {
                event == Some(event_of(trb)) && *final(at) == past_event(*old(at))
            } else {
                event is None && *final(at) == *old(at)
            }
        }),
{
    let trb: Trb = ring.trbs[at.index];
    if trb.control & 1 != at.cycle {
        return None;
    }
    let event = Event {
        kind: (trb.control / TRB_TYPE) % 64,
        completion: trb.status / 0x100_0000,
        parameter: trb.parameter,
        slot: (trb.control / TRB_SLOT) as u8,
    };
    if at.index + 1 >= RING_LEN {
        at.index = 0;
        at.cycle = 1 - at.cycle;
    } else {
        at.index = at.index + 1;
    }
    Some(event)
}

// ---------------------------------------------------------------------------
// Setup packets and descriptors
// ---------------------------------------------------------------------------

/// A USB setup packet.
#[derive(Debug, Clone, Copy, PartialEq, Eq, Structural)]
pub struct Setup {
    pub request_type: u8,
    pub request: u8,
    pub value: u16,
    pub index: u16,
    pub length: u16,
}

impl Setup {
    /// The packet as one number, its first byte lowest.
    pub open spec fn packed(self) -> int {
        self.request_type + 0x100 * self.request + 0x1_0000 * self.value + 0x1_0000_0000
            * self.index + 0x1_0000_0000_0000 * self.length
    }

    /// Packs the packet into a TRB's parameter.
    pub fn as_u64(self) -> (packed: u64)
        ensures
            packed == self.packed(),
    {
        self.request_type as u64 + 0x100 * self.request as u64 + 0x1_0000 * self.value as u64
            + 0x1_0000_0000 * self.index as u64 + 0x1_0000_0000_0000 * self.length as u64
    }
}

/// Packing loses nothing: two packets that pack alike are alike.
pub proof fn packing_keeps_the_packet(a: Setup, b: Setup)
    requires
        a.packed() == b.packed(),
    ensures
        a == b,
{
}

/// `GET_DESCRIPTOR`.
pub const REQ_GET_DESCRIPTOR: u8 = 6;

/// `SET_CONFIGURATION`.
pub const REQ_SET_CONFIGURATION: u8 = 9;

/// HID class request: select the boot protocol.
pub const REQ_SET_PROTOCOL: u8 = 0x0B;

/// The device descriptor.
pub const DESC_DEVICE: u16 = 0x0100;

/// The configuration descriptor.
pub const DESC_CONFIGURATION: u16 = 0x0200;

/// What a HID device turned out to be.
#[derive(Debug, Clone, Copy, PartialEq, Eq, Structural)]
pub enum HidKind {
    /// Boot protocol keyboard: eight-byte reports.
    Keyboard,
    /// Boot protocol mouse or touchpad: three or more bytes.
    Pointer,
    /// A HID device that is not read.
    Other,
}

impl HidKind {
    /// The name it is shown under.
    pub open spec fn shown(self) -> Seq<char> {
        match self {
            HidKind::Keyboard => "keyboard"@,
            HidKind::Pointer => "pointer"@,
            HidKind::Other => "hid (unread)"@,
        }
    }

    /// The kind that an interface's protocol number names.
    pub open spec fn of_protocol(protocol: u8) -> HidKind {
        if protocol == 1 {
            HidKind::Keyboard
        } else if protocol == 2 {
            HidKind::Pointer
        } else {
            HidKind::Other
        }
    }

    pub fn name(self) -> (name: &'static str)
        ensures
            name@ == self.shown(),
    {
        match self {
            HidKind::Keyboard => "keyboard",
            HidKind::Pointer => "pointer",
            HidKind::Other => "hid (unread)",
        }
    }
}

/// An enumerated device.
#[derive(Debug, Clone, Copy, PartialEq, Eq, Structural)]
pub struct HidDevice {
    pub kind: HidKind,
    pub vendor: u16,
    pub product: u16,
    /// Report size the interrupt endpoint delivers.
    pub report_len: u16,
}

/// What a configuration descriptor said.
#[derive(Debug, Clone, Copy, PartialEq, Eq, Structural)]
pub struct Parsed {
    pub configuration: u8,
    pub interface: u8,
    pub endpoint: u8,
    pub max_packet: u16,
    pub kind: HidKind,
}

/// The HID interface that the walk over a configuration is inside of: its
/// number and kind.
#[derive(Debug, Clone, Copy, PartialEq, Eq, Structural)]
pub struct Interface {
    pub number: u8,
    pub kind: HidKind,
}

/// The interface the walk is inside of after the record at `at`: class 3 is
/// HID, and any other class leaves none.
pub open spec fn inside_interface(b: Seq<u8>, at: int, current: Option<Interface>) -> Option<
    Interface,
> {
    if b[at + 1] == 4 && b[at] >= 9 {
        if b[at + 5] == 3 {
            Some(Interface { number: b[at + 2], kind: HidKind::of_protocol(b[at + 7]) })
        } else {
            None
        }
    } else {
        current
    }
}

/// Whether the record at `at` is an interrupt IN endpoint.
pub open spec fn is_interrupt_in(b: Seq<u8>, at: int) -> bool {
    b[at + 1] == 5 && b[at] >= 7 && b[at + 3] % 4 == 3 && b[at + 2] >= 0x80
}

/// What the records from `at` on say: the first interrupt IN endpoint inside
/// a HID interface. The walk steps by each record's length and ends at one
/// that is too short or runs past the end.
pub open spec fn endpoint_from(
    b: Seq<u8>,
    at: int,
    current: Option<Interface>,
    configuration: u8,
) -> Option<Parsed>
    decreases b.len() - at,
{
    if at + 2 > b.len() || b[at] < 2 || at + b[at] > b.len() {
        None
    } else if current is Some && is_interrupt_in(b, at) {
        Some(
            Parsed {
                configuration,
                interface: (current->0).number,
                endpoint: b[at + 2],
                max_packet: ((b[at + 4] + 0x100 * b[at + 5]) % 0x800) as u16,
                kind: (current->0).kind,
            },
        )
    } else {
        endpoint_from(b, at + b[at], inside_interface(b, at, current), configuration)
    }
}

/// The HID endpoint that a configuration descriptor declares.
pub open spec fn hid_endpoint(b: Seq<u8>) -> Option<Parsed> {
    if b.len() < 9 || b[1] != 2 {
        None
    } else {
        endpoint_from(b, 0, None, b[5])
    }
}

/// Walks a configuration descriptor for the HID interface and its interrupt
/// endpoint.
///
/// A device is free to put its endpoint descriptors anywhere after the
/// interface they belong to, so this steps by the length field rather than
/// assuming an order.
pub fn parse_configuration(buf: &[u8]) -> (parsed: Option<Parsed>)
    ensures
        parsed == hid_endpoint(buf@),
{
    if buf.len() < 9 || buf[1] != 2 {
        return None;
    }
    let configuration: u8 = buf[5];
    let mut current: Option<Interface> = None;
    let mut offset: usize = 0;
    while buf.len() - offset >= 2
        invariant
            offset <= buf.len(),
            buf.len() >= 9,
            buf@[1] == 2,
            configuration == buf@[5],
            endpoint_from(buf@, offset as int, current, configuration) == hid_endpoint(buf@),
        decreases buf.len() - offset,
    {
        let length: usize = buf[offset] as usize;
        let descriptor_type: u8 = buf[offset + 1];
        if length < 2 || length > buf.len() - offset {
            return None;
        }
        if descriptor_type == 4 && length >= 9 {
            if buf[offset + 5] == 3 {
                let protocol: u8 = buf[offset + 7];
                let kind = if protocol == 1 {
                    HidKind::Keyboard
                } else if protocol == 2 {
                    HidKind::Pointer
                } else {
                    HidKind::Other
                };
                current = Some(Interface { number: buf[offset + 2], kind });
            } else {
                current = None;
            }
        } else if descriptor_type == 5 && length >= 7 {
            if let Some(interface) = current {
                let address: u8 = buf[offset + 2];
                if buf[offset + 3] % 4 == 3 && address >= 0x80 {
                    let max_packet: u16 = (buf[offset + 4] as u16 + 0x100 * buf[offset + 5] as u16)
                        % 0x800;
                    return Some(
                        Parsed {
                            configuration,
                            interface: interface.number,
                            endpoint: address,
                            max_packet,
                            kind: interface.kind,
                        },
                    );
                }
            }
        }
        offset = offset + length;
    }
    None
}

/// Whatever a device's configuration says, an endpoint taken from it is an IN
/// endpoint with a packet size the field can hold.
pub proof fn found_endpoint_is_in(b: Seq<u8>)
    ensures
        hid_endpoint(b) matches Some(parsed) ==> parsed.endpoint >= 0x80 && parsed.max_packet
            < 0x800 && parsed.configuration == b[5],
{
    if b.len() >= 9 && b[1] == 2 {
        lemma_endpoint_from(b, 0, None, b[5]);
    }
}

proof fn lemma_endpoint_from(b: Seq<u8>, at: int, current: Option<Interface>, configuration: u8)
    ensures
        endpoint_from(b, at, current, configuration) matches Some(parsed) ==> parsed.endpoint
            >= 0x80 && parsed.max_packet < 0x800 && parsed.configuration == configuration,
    decreases b.len() - at,
{
    if at + 2 > b.len() || b[at] < 2 || at + b[at] > b.len() {
    } else if current is Some && is_interrupt_in(b, at) {
    } else {
        lemma_endpoint_from(b, at + b[at], inside_interface(b, at, current), configuration);
    }
}

// ---------------------------------------------------------------------------
// The controller
// ---------------------------------------------------------------------------

/// Where the structures the controller reads by physical address live.
#[derive(Debug, Clone, Copy, PartialEq, Eq, Structural)]
pub struct Memory {
    pub dcbaa: u64,
    pub scratchpad_pages: u64,
    pub command_ring: u64,
    pub event_ring: u64,
    pub erst: u64,
    pub transfer_rings: u64,
    pub device_contexts: u64,
    pub input_context: u64,
    pub buffers: u64,
}

impl Memory {
    /// Whether every area ends below the top of the address space.
    pub open spec fn valid(self) -> bool {
        &&& self.scratchpad_pages + MAX_SCRATCHPAD * SCRATCHPAD_PAGE <= u64::MAX
        &&& self.event_ring + RING_BYTES <= u64::MAX
        &&& self.transfer_rings + MAX_DEVICES * RING_BYTES <= u64::MAX
        &&& self.device_contexts + MAX_DEVICES * CONTEXT_BYTES <= u64::MAX
        &&& self.buffers + MAX_DEVICES * BUFFER_BYTES <= u64::MAX
    }

    /// The address of one device's transfer ring.
    pub open spec fn transfer_ring(self, index: int) -> int {
        self.transfer_rings + index * RING_BYTES
    }

    /// The address of one device's context.
    pub open spec fn context(self, index: int) -> int {
        self.device_contexts + index * CONTEXT_BYTES
    }

    /// The address of one device's report buffer.
    pub open spec fn buffer(self, index: int) -> int {
        self.buffers + index * BUFFER_BYTES
    }
}

/// The address of one device's transfer ring.
pub fn transfer_ring_address(m: &Memory, index: usize) -> (address: u64)
    requires
        m.valid(),
        index < MAX_DEVICES,
    ensures
        address == m.transfer_ring(index as int),
{
    if index == 0 {
        m.transfer_rings
    } else {
        m.transfer_rings + RING_BYTES
    }
}

/// The address of one device's context.
pub fn context_address(m: &Memory, index: usize) -> (address: u64)
    requires
        m.valid(),
        index < MAX_DEVICES,
    ensures
        address == m.context(index as int),
{
    if index == 0 {
        m.device_contexts
    } else {
        m.device_contexts + CONTEXT_BYTES
    }
}

/// The address of one device's report buffer.
pub fn buffer_address(m: &Memory, index: usize) -> (address: u64)
    requires
        m.valid(),
        index < MAX_DEVICES,
    ensures
        address == m.buffer(index as int),
{
    if index == 0 {
        m.buffers
    } else {
        m.buffers + BUFFER_BYTES
    }
}

/// No two devices share a ring, a context or a buffer.
pub proof fn devices_do_not_share_memory(m: Memory, a: int, b: int)
    requires
        0 <= a < b < MAX_DEVICES,
    ensures
        m.transfer_ring(a) + RING_BYTES <= m.transfer_ring(b),
        m.context(a) + CONTEXT_BYTES <= m.context(b),
        m.buffer(a) + BUFFER_BYTES <= m.buffer(b),
{
}

/// One addressed device: its slot, its endpoint, and the state of its ring.
#[derive(Debug, Clone, Copy, PartialEq, Eq, Structural)]
pub struct DeviceSlot {
    /// The slot the controller gave it. Zero means the entry is unused.
    pub slot: u8,
    /// Its interrupt IN endpoint, once configured.
    pub endpoint: u8,
    pub ring: Producer,
    /// An interrupt IN transfer is queued and has not completed.
    pub queued: bool,
    /// A completed transfer's report is in the buffer, unread.
    pub ready: bool,
}

impl DeviceSlot {
    /// An unused entry.
    pub open spec fn unused() -> DeviceSlot {
        DeviceSlot {
            slot: 0,
            endpoint: 0,
            ring: Producer { index: 0, cycle: 1 },
            queued: false,
            ready: false,
        }
    }

    pub fn new() -> (slot: DeviceSlot)
        ensures
            slot == DeviceSlot::unused(),
    {
        DeviceSlot {
            slot: 0,
            endpoint: 0,
            ring: Producer { index: 0, cycle: 1 },
            queued: false,
            ready: false,
        }
    }
}

/// A controller and the devices addressed on it.
#[derive(Debug)]
pub struct Xhci {
    /// Offset of the operational registers in the BAR.
    pub operational: usize,
    /// Offset of the doorbell array in the BAR.
    pub doorbell: usize,
    /// Offset of the runtime registers in the BAR.
    pub runtime: usize,
    /// How many bytes the BAR decodes.
    pub bar_len: usize,
    /// 64-byte contexts rather than 32, where the controller says so.
    pub context_size: usize,
    pub max_ports: u8,
    pub command: Producer,
    pub events: Producer,
    pub devices: [DeviceSlot; 2],
    /// How many entries of `devices` are in use.
    pub device_count: usize,
    /// Scratchpad pages the controller asked for.
    pub scratchpad: usize,
    /// Scratchpad pages it was provided with.
    pub provided: usize,
}

impl Xhci {
    /// What holds of every controller that was taken on.
    pub open spec fn well_formed(self) -> bool {
        &&& fits(
            self.bar_len as int,
            self.operational as int,
            self.doorbell as int,
            self.runtime as int,
            self.max_ports as int,
        )
        &&& self.context_size == 32 || self.context_size == 64
        &&& self.command.valid()
        &&& self.events.valid()
        &&& self.device_count <= MAX_DEVICES
        &&& self.provided <= MAX_SCRATCHPAD
        &&& self.devices@[0].ring.valid()
        &&& self.devices@[1].ring.valid()
    }

    /// Takes on a controller from its capability registers.
    ///
    /// Every register block is placed by the controller's own words. One that
    /// places a block outside its BAR is not driven: following it would touch
    /// another device's registers.
    pub fn new(
        bar_present: bool,
        bar_len: usize,
        caplength: u8,
        hcs1: u32,
        hcs2: u32,
        hcc1: u32,
        dboff: u32,
        rtsoff: u32,
    ) -> (xhci: Option<Xhci>)
        ensures
            xhci is Some <==> bar_present && bar_len >= MIN_BAR && fits(
                bar_len as int,
                caplength as int,
                dboff - dboff % 4,
                rtsoff - rtsoff % 32,
                hcs1 as int / 0x100_0000,
            ),
            xhci matches Some(x) ==> {
                &&& x.well_formed()
                &&& x.operational == caplength
                &&& x.doorbell == dboff - dboff % 4
                &&& x.runtime == rtsoff - rtsoff % 32
                &&& x.bar_len == bar_len
                &&& x.context_size == (if crate::bytes::bit32(hcc1, 2) {
                    64usize
                } else {
                    32usize
                })
                &&& x.max_ports == hcs1 / 0x100_0000
                &&& x.command == (Producer { index: 0, cycle: 1 })
                &&& x.events == (Producer { index: 0, cycle: 1 })
                &&& x.device_count == 0
                &&& x.scratchpad == scratchpad_wanted(hcs2)
                &&& x.provided == 0
                &&& x.devices@[0] == DeviceSlot::unused()
                &&& x.devices@[1] == DeviceSlot::unused()
            },
    {
        if !bar_present || bar_len < MIN_BAR {
            return None;
        }
        let doorbell: usize = (dboff - dboff % 4) as usize;
        let runtime: usize = (rtsoff - rtsoff % 32) as usize;
        let max_ports: u8 = (hcs1 / 0x100_0000) as u8;
        if !layout_fits(bar_len, caplength, doorbell, runtime, max_ports) {
            return None;
        }
        let unused: DeviceSlot = DeviceSlot::new();
        Some(
            Xhci {
                operational: caplength as usize,
                doorbell,
                runtime,
                bar_len,
                context_size: if crate::bytes::test32(hcc1, 2) {
                    64
                } else {
                    32
                },
                max_ports,
                command: Producer::new(),
                events: Producer::new(),
                devices: [unused, unused],
                device_count: 0,
                scratchpad: scratchpad_count(hcs2),
                provided: 0,
            },
        )
    }

    pub fn max_ports(&self) -> (ports: u8)
        ensures
            ports == self.max_ports,
    {
        self.max_ports
    }

    /// How many scratchpad pages the controller asked for, for reporting.
    pub fn scratchpad_pages(&self) -> (pages: usize)
        ensures
            pages == self.scratchpad,
    {
        self.scratchpad
    }

    /// Gives the controller the scratchpad pages it asked for, up to the
    /// limit: their addresses, in order, for the array that entry zero of the
    /// device context array points at.
    pub fn configure_scratchpad(&mut self, m: &Memory) -> (pages: Vec<u64>)
        requires
            old(self).well_formed(),
            m.valid(),
        ensures
            *final(self) == (Xhci { provided: final(self).provided, ..*old(self) }),
            final(self).provided == crate::num::min_int(
                old(self).scratchpad as int,
                MAX_SCRATCHPAD as int,
            ),
            final(self).well_formed(),
            pages.len() == final(self).provided,
            forall|i: int|
                0 <= i < pages.len() ==> #[trigger] pages@[i] == m.scratchpad_pages + i * 4096,
    {
        self.provided = crate::num::min_usize(self.scratchpad, MAX_SCRATCHPAD);
        let mut pages: Vec<u64> = Vec::new();
        let mut index: usize = 0;
        while index < self.provided
            invariant
                m.valid(),
                self.provided <= MAX_SCRATCHPAD,
                index <= self.provided,
                pages.len() == index,
                forall|i: int|
                    0 <= i < pages.len() ==> #[trigger] pages@[i] == m.scratchpad_pages + i * 4096,
            decreases self.provided - index,
        {
            pages.push(m.scratchpad_pages + index as u64 * 4096);
            index = index + 1;
        }
        pages
    }

    // -----------------------------------------------------------------------
    // Plans over the operational registers
    // -----------------------------------------------------------------------

    /// Halting and resetting, given what the command register holds. The
    /// reset bit clears when the reset is done, and the not-ready bit when
    /// writes are accepted; writing between them is dropped.
    pub open spec fn reset_accesses(self, usbcmd: u32) -> Seq<Access> {
        let cmd = (self.operational + XHCI_USBCMD) as usize;
        let sts = (self.operational + XHCI_USBSTS) as usize;
        seq![
            Access::Write32 { offset: cmd, value: usbcmd & !XHCI_CMD_RS },
            Access::WaitSet { offset: sts, mask: XHCI_STS_HCH },
            Access::Write32 { offset: cmd, value: XHCI_CMD_HCRST },
            Access::WaitClear { offset: cmd, mask: XHCI_CMD_HCRST },
            Access::WaitClear { offset: sts, mask: XHCI_STS_CNR },
        ]
    }

    /// Plans a halt and a reset.
    pub fn reset(&self, usbcmd: u32) -> (plan: Vec<Access>)
        requires
            self.well_formed(),
        ensures
            plan@ == self.reset_accesses(usbcmd),
            all_inside(plan@, self.bar_len as int),
    {
        let cmd: usize = self.operational + XHCI_USBCMD;
        let sts: usize = self.operational + XHCI_USBSTS;
        let plan: Vec<Access> = vec![
            Access::Write32 { offset: cmd, value: usbcmd & !XHCI_CMD_RS },
            Access::WaitSet { offset: sts, mask: XHCI_STS_HCH },
            Access::Write32 { offset: cmd, value: XHCI_CMD_HCRST },
            Access::WaitClear { offset: cmd, mask: XHCI_CMD_HCRST },
            Access::WaitClear { offset: sts, mask: XHCI_STS_CNR },
        ];
        assert(plan@ =~= self.reset_accesses(usbcmd));
        plan
    }

    /// How many slots are asked for: what the controller has, up to the limit.
    pub open spec fn slots(hcs1: u32) -> u32 {
        crate::num::min_int(hcs1 as int % 0x100, MAX_SLOTS as int) as u32
    }

    /// Pointing the controller at its rings and contexts: the slot count, the
    /// device context array, the command ring with its initial cycle, and
    /// interrupter 0's segment table, dequeue pointer and table address.
    pub open spec fn ring_accesses(self, hcs1: u32, m: Memory) -> Seq<Access> {
        seq![
            Access::Write32 {
                offset: (self.operational + XHCI_CONFIG) as usize,
                value: Xhci::slots(hcs1),
            },
        ] + write64((self.operational + XHCI_DCBAAP) as usize, m.dcbaa) + write64(
            (self.operational + XHCI_CRCR) as usize,
            m.command_ring | 1,
        ) + seq![Access::Write32 { offset: (self.runtime + 0x28) as usize, value: 1 }] + write64(
            (self.runtime + 0x38) as usize,
            m.event_ring,
        ) + write64((self.runtime + 0x30) as usize, m.erst)
    }

    /// Plans the configuration of the rings.
    pub fn configure_rings(&self, hcs1: u32, m: &Memory) -> (plan: Vec<Access>)
        requires
            self.well_formed(),
        ensures
            plan@ == self.ring_accesses(hcs1, *m),
            all_inside(plan@, self.bar_len as int),
    {
        let available: u32 = hcs1 % 0x100;
        let slots: u32 = if available <= 8 {
            available
        } else {
            8
        };
        let mut plan: Vec<Access> = Vec::new();
        plan.push(Access::Write32 { offset: self.operational + XHCI_CONFIG, value: slots });
        push_write64(&mut plan, self.operational + XHCI_DCBAAP, m.dcbaa);
        push_write64(&mut plan, self.operational + XHCI_CRCR, m.command_ring | 1);
        plan.push(Access::Write32 { offset: self.runtime + 0x28, value: 1 });
        push_write64(&mut plan, self.runtime + 0x38, m.event_ring);
        push_write64(&mut plan, self.runtime + 0x30, m.erst);
        assert(plan@ =~= self.ring_accesses(hcs1, *m));
        plan
    }

    /// Starting, given what the command register holds.
    pub open spec fn run_accesses(self, usbcmd: u32) -> Seq<Access> {
        seq![
            Access::Write32 {
                offset: (self.operational + XHCI_USBCMD) as usize,
                value: usbcmd | XHCI_CMD_RS,
            },
            Access::WaitClear {
                offset: (self.operational + XHCI_USBSTS) as usize,
                mask: XHCI_STS_HCH,
            },
        ]
    }

    /// Plans the start of the controller.
    pub fn run(&self, usbcmd: u32) -> (plan: Vec<Access>)
        requires
            self.well_formed(),
        ensures
            plan@ == self.run_accesses(usbcmd),
            all_inside(plan@, self.bar_len as int),
    {
        let plan: Vec<Access> = vec![
            Access::Write32 {
                offset: self.operational + XHCI_USBCMD,
                value: usbcmd | XHCI_CMD_RS,
            },
            Access::WaitClear { offset: self.operational + XHCI_USBSTS, mask: XHCI_STS_HCH },
        ];
        assert(plan@ =~= self.run_accesses(usbcmd));
        plan
    }

    // -----------------------------------------------------------------------
    // Ports
    // -----------------------------------------------------------------------

    /// Where a port's status register is. Ports are numbered from one.
    pub open spec fn port_register(self, port: int) -> int {
        self.operational + XHCI_PORTSC + (port - 1) * 0x10
    }

    /// The offset of a port's status register.
    pub fn port_status(&self, port: u8) -> (offset: usize)
        requires
            self.well_formed(),
            1 <= port <= self.max_ports,
        ensures
            offset == self.port_register(port as int),
            offset + 4 <= self.bar_len,
    {
        self.operational + XHCI_PORTSC + (port as usize - 1) * 0x10
    }

    /// Every port with something plugged into it, given the ports' status
    /// registers in order.
    ///
    /// All of them, not the first: which port answers first is a property of
    /// the board rather than of what the user wants to type on.
    pub fn connected_ports(&self, statuses: &[u32]) -> (ports: Vec<u8>)
        requires
            statuses.len() == self.max_ports,
        ensures
            ports@ == connected(statuses@),
    {
        let mut ports: Vec<u8> = Vec::new();
        let mut port: usize = 0;
        assert(statuses@.take(0).len() == 0);
        while port < statuses.len()
            invariant
                port <= statuses.len() <= 255,
                ports@ == connected(statuses@.take(port as int)),
            decreases statuses.len() - port,
        {
            proof {
                assert(statuses@.take(port + 1).drop_last() =~= statuses@.take(port as int));
                assert(statuses@.take(port + 1).last() == statuses@[port as int]);
            }
            if statuses[port] & PORTSC_CCS != 0 {
                ports.push((port + 1) as u8);
            }
            port = port + 1;
        }
        assert(statuses@.take(port as int) =~= statuses@);
        ports
    }

    /// Powering a port, given its status: a port that is not powered never
    /// connects. Nothing where it is powered already.
    pub fn power_port(&self, port: u8, status: u32) -> (write: Option<Access>)
        requires
            self.well_formed(),
            1 <= port <= self.max_ports,
        ensures
            write == (if status & PORTSC_PP == 0 {
                Some(
                    Access::Write32 {
                        offset: self.port_register(port as int) as usize,
                        value: (status & PORTSC_RW_MASK) | PORTSC_PP,
                    },
                )
            } else {
                None
            }),
            write matches Some(access) ==> access.inside(self.bar_len as int),
    {
        if status & PORTSC_PP == 0 {
            Some(
                Access::Write32 {
                    offset: self.port_status(port),
                    value: (status & PORTSC_RW_MASK) | PORTSC_PP,
                },
            )
        } else {
            None
        }
    }

    /// Resetting a port, given its status: the change bits and the enable bit
    /// are not written back.
    pub open spec fn port_reset_accesses(self, port: int, status: u32) -> Seq<Access> {
        seq![
            Access::Write32 {
                offset: self.port_register(port) as usize,
                value: (status & PORTSC_RW_MASK) | PORTSC_PR,
            },
            Access::WaitClear { offset: self.port_register(port) as usize, mask: PORTSC_PR },
        ]
    }

    /// Plans the reset of a port.
    pub fn reset_port(&self, port: u8, status: u32) -> (plan: Vec<Access>)
        requires
            self.well_formed(),
            1 <= port <= self.max_ports,
        ensures
            plan@ == self.port_reset_accesses(port as int, status),
            all_inside(plan@, self.bar_len as int),
    {
        let offset: usize = self.port_status(port);
        let plan: Vec<Access> = vec![
            Access::Write32 { offset, value: (status & PORTSC_RW_MASK) | PORTSC_PR },
            Access::WaitClear { offset, mask: PORTSC_PR },
        ];
        assert(plan@ =~= self.port_reset_accesses(port as int, status));
        plan
    }
}

/// Whether a port is usable after its reset.
pub fn port_enabled(status: u32) -> (enabled: bool)
    ensures
        enabled == (status & PORTSC_PED != 0),
{
    status & PORTSC_PED != 0
}

/// The numbers of the ports whose status says something is plugged in.
pub open spec fn connected(statuses: Seq<u32>) -> Seq<u8>
    decreases statuses.len(),
{
    if statuses.len() == 0 {
        Seq::empty()
    } else if statuses.last() & PORTSC_CCS != 0 {
        connected(statuses.drop_last()).push(statuses.len() as u8)
    } else {
        connected(statuses.drop_last())
    }
}

/// Writing a port's status back never clears a change bit or the enable bit
/// by accident, whatever the register held.
pub proof fn port_writes_keep_changes(status: u32)
    ensures
        ((status & PORTSC_RW_MASK) | PORTSC_PR) & (PORTSC_CHANGE_MASK | PORTSC_PED) == 0,
        ((status & PORTSC_RW_MASK) | PORTSC_PP) & (PORTSC_CHANGE_MASK | PORTSC_PED) == 0,
{
    assert(((status & 0xFF89_FFFDu32) | 0x10u32) & (0x76_0000u32 | 2u32) == 0) by (bit_vector);
    assert(((status & 0xFF89_FFFDu32) | 0x200u32) & (0x76_0000u32 | 2u32) == 0) by (bit_vector);
}

/// A port's link speed, from bits 13:10 of its status.
pub open spec fn speed_of(status: u32) -> u32 {
    (status / 0x400) % 16
}

/// A port's link speed.
pub fn port_speed(status: u32) -> (speed: u8)
    ensures
        speed == speed_of(status),
{
    ((status / 0x400) % 16) as u8
}

/// The control endpoint's packet size before the device descriptor has been
/// read, which the specification fixes per speed.
pub open spec fn first_packet(speed: u32) -> u16 {
    if speed == 1 || speed == 2 {
        8
    } else if speed == 3 {
        64
    } else {
        512
    }
}

/// The control endpoint's packet size at a link speed.
pub fn default_max_packet(speed: u8) -> (size: u16)
    ensures
        size == first_packet(speed as u32),
{
    if speed == 1 || speed == 2 {
        8
    } else if speed == 3 {
        64
    } else {
        512
    }
}

// ---------------------------------------------------------------------------
// Commands, transfers and events
// ---------------------------------------------------------------------------

/// Which ring a request goes on.
#[derive(Debug, Clone, Copy, PartialEq, Eq, Structural)]
pub enum RingName {
    Command,
    Transfer { device: usize },
}

/// One thing asked of the controller: entries for a ring, then a doorbell.
#[derive(Debug)]
pub struct Request {
    pub ring: RingName,
    pub writes: Vec<RingWrite>,
    pub doorbell: Access,
}

/// What a request holds.
#[verifier::ext_equal]
pub struct RequestView {
    pub ring: RingName,
    pub writes: Seq<RingWrite>,
    pub doorbell: Access,
}

impl View for Request {
    type V = RequestView;

    open spec fn view(&self) -> RequestView {
        RequestView { ring: self.ring, writes: self.writes@, doorbell: self.doorbell }
    }
}

/// A TRB that carries these fields.
pub open spec fn trb(parameter: u64, status: u32, control: u32) -> Trb {
    Trb { parameter, status, control }
}

/// Control word of Enable Slot.
pub const CONTROL_ENABLE_SLOT: u32 = 0x2400;

/// Control word of Address Device, without its slot.
pub const CONTROL_ADDRESS_DEVICE: u32 = 0x2C00;

/// Control word of Configure Endpoint, without its slot.
pub const CONTROL_CONFIGURE_ENDPOINT: u32 = 0x3000;

/// Control word of a setup stage before an IN data stage.
pub const CONTROL_SETUP_IN: u32 = 0x3_0840;

/// Control word of a setup stage with no data stage.
pub const CONTROL_SETUP_OUT: u32 = 0x840;

/// Control word of an IN data stage.
pub const CONTROL_DATA_IN: u32 = 0x1_0C00;

/// Control word of an OUT status stage, with an interrupt.
pub const CONTROL_STATUS_OUT: u32 = 0x1020;

/// Control word of an IN status stage, with an interrupt.
pub const CONTROL_STATUS_IN: u32 = 0x1_1020;

/// Control word of a normal transfer, with an interrupt.
pub const CONTROL_NORMAL: u32 = 0x420;

/// Each control word spells its TRB type and flags, and leaves the cycle bit
/// free.
pub proof fn control_words_spell_their_types()
    ensures
        CONTROL_ENABLE_SLOT == TRB_ENABLE_SLOT << 10,
        CONTROL_ADDRESS_DEVICE == TRB_ADDRESS_DEVICE << 10,
        CONTROL_CONFIGURE_ENDPOINT == TRB_CONFIGURE_ENDPOINT << 10,
        CONTROL_SETUP_IN == (TRB_SETUP << 10) | (3u32 << 16) | (1u32 << 6),
        CONTROL_SETUP_OUT == (TRB_SETUP << 10) | (1u32 << 6),
        CONTROL_DATA_IN == (TRB_DATA << 10) | (1u32 << 16),
        CONTROL_STATUS_OUT == (TRB_STATUS << 10) | TRB_IOC,
        CONTROL_STATUS_IN == (TRB_STATUS << 10) | TRB_IOC | (1u32 << 16),
        CONTROL_NORMAL == (TRB_NORMAL << 10) | TRB_IOC,
        LINK_CONTROL == (TRB_LINK << 10) | TRB_TOGGLE,
{
    assert(0x2400u32 == 9u32 << 10 && 0x2C00u32 == 11u32 << 10 && 0x3000u32 == 12u32 << 10
        && 0x3_0840u32 == (2u32 << 10) | (3u32 << 16) | (1u32 << 6) && 0x840u32 == (2u32 << 10) | (
    1u32 << 6) && 0x1_0C00u32 == (3u32 << 10) | (1u32 << 16) && 0x1020u32 == (4u32 << 10) | 0x20u32
        && 0x1_1020u32 == (4u32 << 10) | 0x20u32 | (1u32 << 16) && 0x420u32 == (1u32 << 10)
        | 0x20u32 && 0x1802u32 == (6u32 << 10) | 2u32) by (bit_vector);
}

impl Xhci {
    /// A doorbell: zero is the command ring, any other the slot of that
    /// number, with the target naming the endpoint.
    pub open spec fn bell(self, slot: u8, target: u32) -> Access {
        Access::Write32 { offset: (self.doorbell + slot * 4) as usize, value: target }
    }

    /// Rings a doorbell, which is how the controller is told a ring changed.
    pub fn ring_doorbell(&self, slot: u8, target: u32) -> (write: Access)
        requires
            self.well_formed(),
        ensures
            write == self.bell(slot, target),
            write.inside(self.bar_len as int),
    {
        Access::Write32 { offset: self.doorbell + slot as usize * 4, value: target }
    }

    /// The request that places one block on the command ring.
    pub open spec fn command_request(self, m: Memory, block: Trb) -> RequestView {
        RequestView {
            ring: RingName::Command,
            writes: self.command.writes(m.command_ring, block),
            doorbell: self.bell(0, 0),
        }
    }

    /// Places a block on the command ring.
    pub fn command(&mut self, m: &Memory, parameter: u64, status: u32, control: u32) -> (request:
        Request)
        requires
            old(self).well_formed(),
        ensures
            request@ == old(self).command_request(*m, trb(parameter, status, control)),
            *final(self) == (Xhci { command: old(self).command.advanced(), ..*old(self) }),
            final(self).well_formed(),
    {
        let writes: Vec<RingWrite> = self.command.place(
            m.command_ring,
            Trb { parameter, status, control },
        );
        let doorbell: Access = self.ring_doorbell(0, 0);
        Request { ring: RingName::Command, writes, doorbell }
    }

    /// Takes the next event off the ring, or `None` if there is none now.
    ///
    /// Never blocks: a keyboard with no key held does not complete its
    /// transfer at all.
    pub fn next_event(&mut self, ring: &Ring) -> (event: Option<Event>)
        requires
            old(self).well_formed(),
        ensures
            ({
                let entry = ring.trbs@[old(self).events.index as int];
                if entry.control & 1 == old(self).events.cycle {
                    event == Some(event_of(entry)) && *final(self) == (Xhci {
                        events: past_event(old(self).events),
                        ..*old(self)
                    })
                } else {
                    event is None && *final(self) == *old(self)
                }
            }),
            final(self).well_formed(),
    {
        let event: Option<Event> = take_event(&mut self.events, ring);
        event
    }

    /// How far the event ring was consumed, with the handler-busy flag that is
    /// cleared by writing a one.
    pub open spec fn dequeue_pointer(self, m: Memory) -> u64 {
        ((m.event_ring + self.events.index * 16) as u64) | 8
    }

    /// Plans telling the controller how far the event ring was consumed, or it
    /// stops posting once it believes the ring is full.
    pub fn acknowledge_events(&self, m: &Memory) -> (plan: Vec<Access>)
        requires
            self.well_formed(),
            m.valid(),
        ensures
            plan@ == write64((self.runtime + 0x38) as usize, self.dequeue_pointer(*m)),
            all_inside(plan@, self.bar_len as int),
    {
        let mut plan: Vec<Access> = Vec::new();
        let erdp: u64 = (m.event_ring + self.events.index as u64 * 16) | 8;
        push_write64(&mut plan, self.runtime + 0x38, erdp);
        assert(plan@ =~= write64((self.runtime + 0x38) as usize, self.dequeue_pointer(*m)));
        plan
    }
}

/// The first event of a kind among at most `n` from a position, and the
/// position after it. The others are consumed and skipped.
pub open spec fn awaited(ring: Seq<Trb>, at: Producer, kind: u32, n: nat) -> (
    Option<Event>,
    Producer,
)
    decreases n,
{
    let entry = ring[at.index as int];
    if n == 0 || entry.control & 1 != at.cycle {
        (None, at)
    } else if event_of(entry).kind == kind {
        (Some(event_of(entry)), past_event(at))
    } else {
        awaited(ring, past_event(at), kind, (n - 1) as nat)
    }
}

impl Xhci {
    /// Looks through what the controller has posted for an event of a kind,
    /// skipping others. `None` means to come back later.
    pub fn wait_event(&mut self, ring: &Ring, kind: u32) -> (event: Option<Event>)
        requires
            old(self).well_formed(),
        ensures
            event == awaited(ring.trbs@, old(self).events, kind, RING_LEN as nat).0,
            *final(self) == (Xhci {
                events: awaited(ring.trbs@, old(self).events, kind, RING_LEN as nat).1,
                ..*old(self)
            }),
            final(self).well_formed(),
    {
        let mut left: usize = RING_LEN;
        while left > 0
            invariant
                left <= RING_LEN,
                self.well_formed(),
                *self == (Xhci { events: self.events, ..*old(self) }),
                awaited(ring.trbs@, self.events, kind, left as nat) == awaited(
                    ring.trbs@,
                    old(self).events,
                    kind,
                    RING_LEN as nat,
                ),
            decreases left,
        {
            match self.next_event(ring) {
                Some(event) => {
                    if event.kind == kind {
                        return Some(event);
                    }
                },
                None => return None,
            }
            left = left - 1;
        }
        None
    }

    /// Looks for the completion of the command just issued.
    pub fn wait_command_event(&mut self, ring: &Ring) -> (event: Option<Event>)
        requires
            old(self).well_formed(),
        ensures
            event == awaited(
                ring.trbs@,
                old(self).events,
                TRB_COMMAND_COMPLETION,
                RING_LEN as nat,
            ).0,
            *final(self) == (Xhci {
                events: awaited(
                    ring.trbs@,
                    old(self).events,
                    TRB_COMMAND_COMPLETION,
                    RING_LEN as nat,
                ).1,
                ..*old(self)
            }),
            final(self).well_formed(),
    {
        self.wait_event(ring, TRB_COMMAND_COMPLETION)
    }
}

/// Which of the first `n` devices has a slot.
pub open spec fn device_with_slot(devices: Seq<DeviceSlot>, n: int, slot: u8) -> Option<int> {
    if n > 0 && devices[0].slot == slot {
        Some(0)
    } else if n > 1 && devices[1].slot == slot {
        Some(1)
    } else {
        None
    }
}

/// A device after its transfer completed. It is no longer outstanding whatever
/// happened to it; a report is there only on success or a short packet.
pub open spec fn completed(d: DeviceSlot, completion: u32) -> DeviceSlot {
    DeviceSlot {
        queued: false,
        ready: d.ready || completion == CC_SUCCESS || completion == CC_SHORT_PACKET,
        ..d
    }
}

/// The devices after one event: a transfer's completion goes to the device
/// whose slot it names, anything else to none.
pub open spec fn routed(devices: Seq<DeviceSlot>, n: int, event: Event) -> Seq<DeviceSlot> {
    if event.kind != TRB_TRANSFER_EVENT {
        devices
    } else {
        match device_with_slot(devices, n, event.slot) {
            Some(i) => devices.update(i, completed(devices[i], event.completion)),
            None => devices,
        }
    }
}

/// The position and the devices after at most `left` events were drained.
pub open spec fn drained(
    ring: Seq<Trb>,
    at: Producer,
    devices: Seq<DeviceSlot>,
    n: int,
    left: nat,
) -> (Producer, Seq<DeviceSlot>)
    decreases left,
{
    let entry = ring[at.index as int];
    if left == 0 || entry.control & 1 != at.cycle {
        (at, devices)
    } else {
        drained(
            ring,
            past_event(at),
            routed(devices, n, event_of(entry)),
            n,
            (left - 1) as nat,
        )
    }
}

impl Xhci {
    /// Which device an event's slot number refers to.
    pub fn device_of_slot(&self, slot: u8) -> (device: Option<usize>)
        requires
            self.well_formed(),
        ensures
            match device {
                Some(i) => device_with_slot(self.devices@, self.device_count as int, slot) == Some(
                    i as int,
                ) && i < self.device_count,
                None => device_with_slot(self.devices@, self.device_count as int, slot) is None,
            },
    {
        if self.device_count > 0 && self.devices[0].slot == slot {
            Some(0)
        } else if self.device_count > 1 && self.devices[1].slot == slot {
            Some(1)
        } else {
            None
        }
    }

    /// Consumes every event the controller has posted, routing transfer
    /// completions to the device they belong to. Bounded by the ring: there
    /// cannot be more outstanding events than entries.
    pub fn drain_events(&mut self, ring: &Ring)
        requires
            old(self).well_formed(),
        ensures
            ({
                let after = drained(
                    ring.trbs@,
                    old(self).events,
                    old(self).devices@,
                    old(self).device_count as int,
                    RING_LEN as nat,
                );
                &&& final(self).events == after.0
                &&& final(self).devices@ == after.1
            }),
            *final(self) == (Xhci {
                events: final(self).events,
                devices: final(self).devices,
                ..*old(self)
            }),
            final(self).well_formed(),
    {
        let mut left: usize = RING_LEN;
        while left > 0
            invariant
                left <= RING_LEN,
                self.well_formed(),
                *self == (Xhci { events: self.events, devices: self.devices, ..*old(self) }),
                drained(
                    ring.trbs@,
                    self.events,
                    self.devices@,
                    self.device_count as int,
                    left as nat,
                ) == drained(
                    ring.trbs@,
                    old(self).events,
                    old(self).devices@,
                    old(self).device_count as int,
                    RING_LEN as nat,
                ),
            decreases left,
        {
            let event: Event = match self.next_event(ring) {
                Some(event) => event,
                None => return,
            };
            left = left - 1;
            if event.kind == TRB_TRANSFER_EVENT {
                if let Some(device) = self.device_of_slot(event.slot) {
                    let ghost before = self.devices@;
                    let mut d: DeviceSlot = self.devices[device];
                    d.queued = false;
                    if event.completion == CC_SUCCESS || event.completion == CC_SHORT_PACKET {
                        d.ready = true;
                    }
                    self.devices[device] = d;
                    assert(self.devices@ =~= routed(before, self.device_count as int, event));
                }
            }
        }
    }

    /// The endpoint target of a device's doorbell.
    pub open spec fn endpoint_target(endpoint: u8) -> u32 {
        ((endpoint % 16) * 2 + 1) as u32
    }

    /// The request that queues a read of at most 64 bytes for a device.
    pub open spec fn read_request(self, m: Memory, device: int, len: int) -> RequestView {
        let d = self.devices@[device];
        RequestView {
            ring: RingName::Transfer { device: device as usize },
            writes: d.ring.writes(
                m.transfer_ring(device) as u64,
                trb(
                    m.buffer(device) as u64,
                    crate::num::min_int(len, 64) as u32,
                    CONTROL_NORMAL,
                ),
            ),
            doorbell: self.bell(d.slot, Xhci::endpoint_target(d.endpoint)),
        }
    }

    /// Places one block on a device's transfer ring.
    pub fn transfer(&mut self, m: &Memory, device: usize, block: Trb) -> (writes: Vec<RingWrite>)
        requires
            old(self).well_formed(),
            m.valid(),
            device < MAX_DEVICES,
        ensures
            writes@ == old(self).devices@[device as int].ring.writes(
                m.transfer_ring(device as int) as u64,
                block,
            ),
            final(self).devices@ == old(self).devices@.update(
                device as int,
                (DeviceSlot {
                    ring: old(self).devices@[device as int].ring.advanced(),
                    ..old(self).devices@[device as int]
                }),
            ),
            *final(self) == (Xhci { devices: final(self).devices, ..*old(self) }),
            final(self).well_formed(),
    {
        let base: u64 = transfer_ring_address(m, device);
        let mut d: DeviceSlot = self.devices[device];
        let writes: Vec<RingWrite> = d.ring.place(base, block);
        self.devices[device] = d;
        writes
    }

    /// Queues an interrupt IN transfer for a device, if one is not already
    /// outstanding.
    pub fn arm(&mut self, m: &Memory, device: usize, len: usize) -> (request: Option<Request>)
        requires
            old(self).well_formed(),
            m.valid(),
            device < MAX_DEVICES,
        ensures
            ({
                let d = old(self).devices@[device as int];
                if d.queued {
                    request is None && *final(self) == *old(self)
                } else {
                    &&& request matches Some(request) && request@ == old(self).read_request(
                        *m,
                        device as int,
                        len as int,
                    )
                    &&& final(self).devices@ == old(self).devices@.update(
                        device as int,
                        (DeviceSlot { ring: d.ring.advanced(), queued: true, ..d }),
                    )
                    &&& *final(self) == (Xhci { devices: final(self).devices, ..*old(self) })
                }
            }),
            final(self).well_formed(),
    {
        if self.devices[device].queued {
            return None;
        }
        let buffer: u64 = buffer_address(m, device);
        let status: u32 = crate::num::min_usize(len, 64) as u32;
        let writes: Vec<RingWrite> = self.transfer(
            m,
            device,
            Trb { parameter: buffer, status, control: CONTROL_NORMAL },
        );
        let mut d: DeviceSlot = self.devices[device];
        let target: u32 = ((d.endpoint % 16) * 2 + 1) as u32;
        let doorbell: Access = self.ring_doorbell(d.slot, target);
        d.queued = true;
        self.devices[device] = d;
        assert(self.devices@ =~= old(self).devices@.update(
            device as int,
            (DeviceSlot {
                ring: old(self).devices@[device as int].ring.advanced(),
                queued: true,
                ..old(self).devices@[device as int]
            }),
        ));
        Some(Request { ring: RingName::Transfer { device }, writes, doorbell })
    }

    /// Takes a report from a device if one has arrived, and keeps a read
    /// queued. Never blocks.
    ///
    /// Returns how many bytes of the device's buffer are its report, if one
    /// arrived, and the request that queues the next read, if one is needed.
    pub fn poll_report(&mut self, m: &Memory, ring: &Ring, device: usize, len: usize) -> (result: (
        Option<usize>,
        Option<Request>,
    ))
        requires
            old(self).well_formed(),
            m.valid(),
        ensures
            final(self).well_formed(),
            device >= old(self).device_count ==> result.0 is None && result.1 is None
                && *final(self) == *old(self),
            device < old(self).device_count ==> {
                let after = drained(
                    ring.trbs@,
                    old(self).events,
                    old(self).devices@,
                    old(self).device_count as int,
                    RING_LEN as nat,
                );
                let d = after.1[device as int];
                &&& result.0 == (if d.ready {
                    Some(crate::num::min_int(len as int, 64) as usize)
                } else {
                    None
                })
                &&& result.1 is Some <==> !d.queued
                &&& result.1 matches Some(request) ==> request@ == (RequestView {
                    ring: RingName::Transfer { device },
                    writes: d.ring.writes(
                        m.transfer_ring(device as int) as u64,
                        trb(
                            m.buffer(device as int) as u64,
                            crate::num::min_int(len as int, 64) as u32,
                            CONTROL_NORMAL,
                        ),
                    ),
                    doorbell: old(self).bell(d.slot, Xhci::endpoint_target(d.endpoint)),
                })
                &&& final(self).events == after.0
                &&& final(self).devices@ == after.1.update(
                    device as int,
                    (DeviceSlot {
                        ready: false,
                        queued: true,
                        ring: if d.queued {
                            d.ring
                        } else {
                            d.ring.advanced()
                        },
                        ..d
                    }),
                )
                &&& *final(self) == (Xhci {
                    events: final(self).events,
                    devices: final(self).devices,
                    ..*old(self)
                })
            },
    {
        if device >= self.device_count {
            return (None, None);
        }
        self.drain_events(ring);
        let ghost after = self.devices@;
        let mut d: DeviceSlot = self.devices[device];
        let ready = d.ready;
        d.ready = false;
        self.devices[device] = d;
        let request: Option<Request> = self.arm(m, device, len);
        proof {
            let e = after[device as int];
            assert(self.devices@ =~= after.update(
                device as int,
                (DeviceSlot {
                    ready: false,
                    queued: true,
                    ring: if e.queued {
                        e.ring
                    } else {
                        e.ring.advanced()
                    },
                    ..e
                }),
            ));
        }
        if ready {
            (Some(crate::num::min_usize(len, 64)), request)
        } else {
            (None, request)
        }
    }
}

/// A transfer event for a slot that no device has changes nothing, and one
/// that has leaves every other device as it was.
pub proof fn events_reach_only_their_device(devices: Seq<DeviceSlot>, n: int, event: Event, i: int)
    requires
        devices.len() == MAX_DEVICES,
        0 <= n <= MAX_DEVICES,
        0 <= i < n,
        devices[i].slot != event.slot,
    ensures
        routed(devices, n, event)[i] == devices[i],
        routed(devices, n, event).len() == devices.len(),
{
}

// ---------------------------------------------------------------------------
// Input contexts
// ---------------------------------------------------------------------------

/// One doubleword of the input context to be written, after it was cleared.
#[derive(Debug, Clone, Copy, PartialEq, Eq, Structural)]
pub struct ContextWrite {
    pub offset: usize,
    pub value: u32,
}

/// Whether every write lies inside the input context.
pub open spec fn context_inside(writes: Seq<ContextWrite>) -> bool {
    forall|i: int| 0 <= i < writes.len() ==> (#[trigger] writes[i]).offset + 4 <= INPUT_CONTEXT_BYTES
}

/// A ring's address as a dequeue pointer, with the dequeue cycle state.
pub open spec fn dequeue(ring: u64) -> u64 {
    ring | 1
}

/// The input context that addresses a device: the slot context with the port's
/// speed, one context entry and the root port, and the control endpoint with
/// its packet size, its ring and an average length.
pub open spec fn address_context(
    size: usize,
    speed: u32,
    port: u8,
    max_packet: u16,
    ring: u64,
) -> Seq<ContextWrite> {
    let slot = size as int;
    let ep0 = 2 * size as int;
    seq![
        ContextWrite { offset: 4, value: 3 },
        ContextWrite { offset: slot as usize, value: (speed * 0x10_0000 + 0x800_0000) as u32 },
        ContextWrite { offset: (slot + 4) as usize, value: (port * 0x1_0000) as u32 },
        ContextWrite { offset: (ep0 + 4) as usize, value: (38 + max_packet * 0x1_0000) as u32 },
        ContextWrite {
            offset: (ep0 + 8) as usize,
            value: (dequeue(ring) % 0x1_0000_0000) as u32,
        },
        ContextWrite {
            offset: (ep0 + 12) as usize,
            value: (dequeue(ring) / 0x1_0000_0000) as u32,
        },
        ContextWrite { offset: (ep0 + 16) as usize, value: 8 },
    ]
}

/// Builds the input context that addresses a device.
pub fn build_address_context(size: usize, speed: u8, port: u8, max_packet: u16, ring: u64)
    -> (writes: Vec<ContextWrite>)
    requires
        size == 32 || size == 64,
        speed < 16,
    ensures
        writes@ == address_context(size, speed as u32, port, max_packet, ring),
        context_inside(writes@),
{
    let pointer: u64 = ring | 1;
    let writes: Vec<ContextWrite> = vec![
        ContextWrite { offset: 4, value: 3 },
        ContextWrite { offset: size, value: speed as u32 * 0x10_0000 + 0x800_0000 },
        ContextWrite { offset: size + 4, value: port as u32 * 0x1_0000 },
        ContextWrite { offset: 2 * size + 4, value: 38 + max_packet as u32 * 0x1_0000 },
        ContextWrite { offset: 2 * size + 8, value: (pointer % 0x1_0000_0000) as u32 },
        ContextWrite { offset: 2 * size + 12, value: (pointer / 0x1_0000_0000) as u32 },
        ContextWrite { offset: 2 * size + 16, value: 8 },
    ];
    assert(writes@ =~= address_context(size, speed as u32, port, max_packet, ring));
    writes
}

/// The context index of an IN endpoint: twice its number, plus one.
pub open spec fn endpoint_index(address: u8) -> int {
    (address % 16) * 2 + 1
}

/// The input context that adds an interrupt IN endpoint: the slot context now
/// reaching it, and the endpoint with its packet size, ring and interval.
pub open spec fn endpoint_context(size: usize, address: u8, max_packet: u16, ring: u64) -> Seq<
    ContextWrite,
> {
    let index = endpoint_index(address);
    let ep = size * (index + 1);
    seq![
        ContextWrite { offset: 4, value: 1 | (1u32 << (index as u32)) },
        ContextWrite { offset: size, value: (index * 0x800_0000) as u32 },
        ContextWrite { offset: (ep + 4) as usize, value: (62 + max_packet * 0x1_0000) as u32 },
        ContextWrite { offset: (ep + 8) as usize, value: (dequeue(ring) % 0x1_0000_0000) as u32 },
        ContextWrite { offset: (ep + 12) as usize, value: (dequeue(ring) / 0x1_0000_0000) as u32 },
        ContextWrite { offset: (ep + 16) as usize, value: max_packet as u32 },
        ContextWrite { offset: ep as usize, value: 0x8_0000 },
    ]
}

/// Builds the input context that adds an interrupt IN endpoint.
///
/// `address` is the device's own word, so it is checked: number zero is the
/// control endpoint, which this would reprogram as an interrupt endpoint.
pub fn build_endpoint_context(size: usize, address: u8, max_packet: u16, ring: u64) -> (writes:
    Option<Vec<ContextWrite>>)
    requires
        size == 32 || size == 64,
    ensures
        match writes {
            Some(writes) => address % 16 != 0 && writes@ == endpoint_context(
                size,
                address,
                max_packet,
                ring,
            ) && context_inside(writes@),
            None => address % 16 == 0,
        },
{
    let number: usize = (address % 16) as usize;
    if number == 0 {
        return None;
    }
    let index: usize = number * 2 + 1;
    let pointer: u64 = ring | 1;
    assert(size * (index + 1) <= 64 * 32) by (nonlinear_arith)
        requires
            size == 32 || size == 64,
            index <= 31,
    ;
    let ep: usize = size * (index + 1);
    let writes: Vec<ContextWrite> = vec![
        ContextWrite { offset: 4, value: 1 | (1u32 << (index as u32)) },
        ContextWrite { offset: size, value: index as u32 * 0x800_0000 },
        ContextWrite { offset: ep + 4, value: 62 + max_packet as u32 * 0x1_0000 },
        ContextWrite { offset: ep + 8, value: (pointer % 0x1_0000_0000) as u32 },
        ContextWrite { offset: ep + 12, value: (pointer / 0x1_0000_0000) as u32 },
        ContextWrite { offset: ep + 16, value: max_packet as u32 },
        ContextWrite { offset: ep, value: 0x8_0000 },
    ];
    assert(writes@ =~= endpoint_context(size, address, max_packet, ring));
    Some(writes)
}

// ---------------------------------------------------------------------------
// Enumeration
// ---------------------------------------------------------------------------

/// How far the enumeration of a device has come: what the reply that is
/// waited for answers.
#[derive(Debug, Clone, Copy, PartialEq, Eq, Structural)]
pub enum Stage {
    EnableSlot,
    AddressDevice,
    DeviceDescriptor,
    ConfigurationDescriptor { vendor: u16, product: u16 },
    SetConfiguration { vendor: u16, product: u16, parsed: Parsed },
    SetProtocol { vendor: u16, product: u16, parsed: Parsed },
    ConfigureEndpoint { vendor: u16, product: u16, parsed: Parsed },
}

/// The enumeration of the device on one port.
#[derive(Debug, Clone, Copy, PartialEq, Eq, Structural)]
pub struct Enumeration {
    pub port: u8,
    /// The index the device will have.
    pub index: usize,
    pub stage: Stage,
}

/// What to do next about a device.
#[derive(Debug)]
pub enum Progress {
    /// Perform the preparations, then the request, and come back with the
    /// event that answers it.
    Ask(Preparation, Request),
    /// The device is ready, under this index.
    Done(usize, HidDevice),
    /// The device cannot be used.
    Failed,
}

/// What has to be in memory before a request is made.
#[derive(Debug)]
pub struct Preparation {
    /// Doublewords of the input context; empty where it is not touched.
    pub context: Vec<ContextWrite>,
    /// The entry of the device context array to fill, and with what.
    pub slot_entry: Option<(u8, u64)>,
    /// Whether the device's buffer is cleared first.
    pub clear_buffer: bool,
}

/// What a preparation holds.
#[verifier::ext_equal]
pub struct PreparationView {
    pub context: Seq<ContextWrite>,
    pub slot_entry: Option<(u8, u64)>,
    pub clear_buffer: bool,
}

impl View for Preparation {
    type V = PreparationView;

    open spec fn view(&self) -> PreparationView {
        PreparationView {
            context: self.context@,
            slot_entry: self.slot_entry,
            clear_buffer: self.clear_buffer,
        }
    }
}

/// What to do next, over views.
#[verifier::ext_equal]
pub enum ProgressView {
    Ask(PreparationView, RequestView),
    Done(usize, HidDevice),
    Failed,
}

impl View for Progress {
    type V = ProgressView;

    open spec fn view(&self) -> ProgressView {
        match self {
            Progress::Ask(preparation, request) => ProgressView::Ask(preparation@, request@),
            Progress::Done(index, device) => ProgressView::Done(*index, *device),
            Progress::Failed => ProgressView::Failed,
        }
    }
}

/// Nothing to prepare.
pub open spec fn unprepared() -> PreparationView {
    PreparationView { context: Seq::empty(), slot_entry: None, clear_buffer: false }
}

/// The setup packet that reads a descriptor.
pub open spec fn get_descriptor(value: u16, length: u16) -> Setup {
    Setup { request_type: 0x80, request: REQ_GET_DESCRIPTOR, value, index: 0, length }
}

/// The setup packet that selects a configuration.
pub open spec fn set_configuration(configuration: u8) -> Setup {
    Setup {
        request_type: 0x00,
        request: REQ_SET_CONFIGURATION,
        value: configuration as u16,
        index: 0,
        length: 0,
    }
}

/// The setup packet that selects the boot protocol of an interface.
pub open spec fn set_boot_protocol(interface: u8) -> Setup {
    Setup {
        request_type: 0x21,
        request: REQ_SET_PROTOCOL,
        value: 0,
        index: interface as u16,
        length: 0,
    }
}

/// The entries of a control transfer that reads: setup, data and status.
pub open spec fn control_in_writes(
    at: Producer,
    ring: u64,
    setup: Setup,
    buffer: u64,
    length: u16,
) -> Seq<RingWrite> {
    at.writes(ring, trb(setup.packed() as u64, 8, CONTROL_SETUP_IN)) + at.advanced().writes(
        ring,
        trb(buffer, length as u32, CONTROL_DATA_IN),
    ) + at.advanced().advanced().writes(ring, trb(0, 0, CONTROL_STATUS_OUT))
}

/// The entries of a control transfer with no data: setup and status.
pub open spec fn control_out_writes(at: Producer, ring: u64, setup: Setup) -> Seq<RingWrite> {
    at.writes(ring, trb(setup.packed() as u64, 8, CONTROL_SETUP_OUT)) + at.advanced().writes(
        ring,
        trb(0, 0, CONTROL_STATUS_IN),
    )
}

/// A device with its transfer ring at another position.
pub open spec fn at_position(d: DeviceSlot, ring: Producer) -> DeviceSlot {
    DeviceSlot { ring, ..d }
}

impl Xhci {
    /// The request of a control transfer that reads.
    pub open spec fn control_in_request(self, m: Memory, i: int, setup: Setup, length: u16)
        -> RequestView {
        RequestView {
            ring: RingName::Transfer { device: i as usize },
            writes: control_in_writes(
                self.devices@[i].ring,
                m.transfer_ring(i) as u64,
                setup,
                m.buffer(i) as u64,
                length,
            ),
            doorbell: self.bell(self.devices@[i].slot, 1),
        }
    }

    /// The request of a control transfer with no data.
    pub open spec fn control_out_request(self, m: Memory, i: int, setup: Setup) -> RequestView {
        RequestView {
            ring: RingName::Transfer { device: i as usize },
            writes: control_out_writes(
                self.devices@[i].ring,
                m.transfer_ring(i) as u64,
                setup,
            ),
            doorbell: self.bell(self.devices@[i].slot, 1),
        }
    }

    /// Queues a control transfer that reads into a device's buffer.
    pub fn control_in(&mut self, m: &Memory, index: usize, setup: Setup, length: u16) -> (request:
        Request)
        requires
            old(self).well_formed(),
            m.valid(),
            index < MAX_DEVICES,
        ensures
            request@ == old(self).control_in_request(*m, index as int, setup, length),
            final(self).devices@ == old(self).devices@.update(
                index as int,
                at_position(
                    old(self).devices@[index as int],
                    old(self).devices@[index as int].ring.advanced().advanced().advanced(),
                ),
            ),
            *final(self) == (Xhci { devices: final(self).devices, ..*old(self) }),
            final(self).well_formed(),
    {
        let buffer: u64 = buffer_address(m, index);
        let mut writes: Vec<RingWrite> = self.transfer(
            m,
            index,
            Trb { parameter: setup.as_u64(), status: 8, control: CONTROL_SETUP_IN },
        );
        let mut data: Vec<RingWrite> = self.transfer(
            m,
            index,
            Trb { parameter: buffer, status: length as u32, control: CONTROL_DATA_IN },
        );
        let mut status: Vec<RingWrite> = self.transfer(
            m,
            index,
            Trb { parameter: 0, status: 0, control: CONTROL_STATUS_OUT },
        );
        writes.append(&mut data);
        writes.append(&mut status);
        let doorbell: Access = self.ring_doorbell(self.devices[index].slot, 1);
        proof {
            let d = old(self).devices@[index as int];
            assert(self.devices@ =~= old(self).devices@.update(
                index as int,
                at_position(d, d.ring.advanced().advanced().advanced()),
            ));
            assert(writes@ =~= control_in_writes(
                d.ring,
                m.transfer_ring(index as int) as u64,
                setup,
                m.buffer(index as int) as u64,
                length,
            ));
        }
        Request { ring: RingName::Transfer { device: index }, writes, doorbell }
    }

    /// Queues a control transfer with no data stage.
    pub fn control_out(&mut self, m: &Memory, index: usize, setup: Setup) -> (request: Request)
        requires
            old(self).well_formed(),
            m.valid(),
            index < MAX_DEVICES,
        ensures
            request@ == old(self).control_out_request(*m, index as int, setup),
            final(self).devices@ == old(self).devices@.update(
                index as int,
                at_position(
                    old(self).devices@[index as int],
                    old(self).devices@[index as int].ring.advanced().advanced(),
                ),
            ),
            *final(self) == (Xhci { devices: final(self).devices, ..*old(self) }),
            final(self).well_formed(),
    {
        let mut writes: Vec<RingWrite> = self.transfer(
            m,
            index,
            Trb { parameter: setup.as_u64(), status: 8, control: CONTROL_SETUP_OUT },
        );
        let mut status: Vec<RingWrite> = self.transfer(
            m,
            index,
            Trb { parameter: 0, status: 0, control: CONTROL_STATUS_IN },
        );
        writes.append(&mut status);
        let doorbell: Access = self.ring_doorbell(self.devices[index].slot, 1);
        proof {
            let d = old(self).devices@[index as int];
            assert(self.devices@ =~= old(self).devices@.update(
                index as int,
                at_position(d, d.ring.advanced().advanced()),
            ));
            assert(writes@ =~= control_out_writes(
                d.ring,
                m.transfer_ring(index as int) as u64,
                setup,
            ));
        }
        Request { ring: RingName::Transfer { device: index }, writes, doorbell }
    }
}

/// Whether a reply says that its request succeeded.
pub open spec fn succeeded(reply: Option<Event>) -> bool {
    reply matches Some(event) && event.completion == CC_SUCCESS
}

/// A controller and an enumeration after one reply, and what to do next.
#[verifier::ext_equal]
pub struct Enumerated {
    pub command: Producer,
    pub devices: Seq<DeviceSlot>,
    pub device_count: usize,
    pub stage: Stage,
    pub progress: ProgressView,
}

impl Xhci {
    /// Nothing changed, and the device cannot be used.
    pub open spec fn given_up(self, e: Enumeration) -> Enumerated {
        Enumerated {
            command: self.command,
            devices: self.devices@,
            device_count: self.device_count,
            stage: e.stage,
            progress: ProgressView::Failed,
        }
    }

    /// After the slot was enabled: the device gets an entry with that slot,
    /// and is addressed. The slot's number comes from the controller, so it
    /// is checked against the device context array.
    pub open spec fn after_enable(self, m: Memory, e: Enumeration, slot: u8, status: u32)
        -> Enumerated {
        let d = DeviceSlot { slot, ..DeviceSlot::unused() };
        let i = e.index as int;
        let devices = self.devices@.update(i, d);
        if slot > MAX_SLOTS {
            Enumerated { devices, ..self.given_up(e) }
        } else {
            Enumerated {
                command: self.command.advanced(),
                devices,
                device_count: self.device_count,
                stage: Stage::AddressDevice,
                progress: ProgressView::Ask(
                    PreparationView {
                        context: address_context(
                            self.context_size,
                            speed_of(status),
                            e.port,
                            first_packet(speed_of(status)),
                            m.transfer_ring(i) as u64,
                        ),
                        slot_entry: Some((slot, m.context(i) as u64)),
                        clear_buffer: false,
                    },
                    self.command_request(
                        m,
                        trb(
                            m.input_context,
                            0,
                            (CONTROL_ADDRESS_DEVICE + slot * TRB_SLOT) as u32,
                        ),
                    ),
                ),
            }
        }
    }

    /// After a step that a control transfer follows: the device's ring is past
    /// the transfer's entries.
    pub open spec fn then_control(
        self,
        e: Enumeration,
        ring: Producer,
        stage: Stage,
        clear_buffer: bool,
        request: RequestView,
    ) -> Enumerated {
        let i = e.index as int;
        Enumerated {
            command: self.command,
            devices: self.devices@.update(i, at_position(self.devices@[i], ring)),
            device_count: self.device_count,
            stage,
            progress: ProgressView::Ask(
                PreparationView { clear_buffer, ..unprepared() },
                request,
            ),
        }
    }

    /// After the boot protocol was asked for: the device's endpoint is known,
    /// and added unless it is the control endpoint.
    pub open spec fn after_protocol(
        self,
        m: Memory,
        e: Enumeration,
        vendor: u16,
        product: u16,
        parsed: Parsed,
    ) -> Enumerated {
        let i = e.index as int;
        let d = DeviceSlot { endpoint: parsed.endpoint, ..self.devices@[i] };
        let devices = self.devices@.update(i, d);
        if parsed.endpoint % 16 == 0 {
            Enumerated { devices, ..self.given_up(e) }
        } else {
            Enumerated {
                command: self.command.advanced(),
                devices,
                device_count: self.device_count,
                stage: Stage::ConfigureEndpoint { vendor, product, parsed },
                progress: ProgressView::Ask(
                    PreparationView {
                        context: endpoint_context(
                            self.context_size,
                            parsed.endpoint,
                            parsed.max_packet,
                            m.transfer_ring(i) as u64,
                        ),
                        slot_entry: None,
                        clear_buffer: false,
                    },
                    self.command_request(
                        m,
                        trb(
                            m.input_context,
                            0,
                            (CONTROL_CONFIGURE_ENDPOINT + d.slot * TRB_SLOT) as u32,
                        ),
                    ),
                ),
            }
        }
    }

    /// The enumeration after a reply. Every step but the choice of protocol
    /// needs its request to have succeeded.
    pub open spec fn stepped(
        self,
        m: Memory,
        e: Enumeration,
        reply: Option<Event>,
        status: u32,
        buffer: Seq<u8>,
    ) -> Enumerated {
        let i = e.index as int;
        let ring = self.devices@[i].ring;
        match e.stage {
            Stage::EnableSlot => if succeeded(reply) && (reply->0).slot != 0 {
                self.after_enable(m, e, (reply->0).slot, status)
            } else {
                self.given_up(e)
            },
            Stage::AddressDevice => if succeeded(reply) {
                self.then_control(
                    e,
                    ring.advanced().advanced().advanced(),
                    Stage::DeviceDescriptor,
                    true,
                    self.control_in_request(m, i, get_descriptor(DESC_DEVICE, 18), 18),
                )
            } else {
                self.given_up(e)
            },
            Stage::DeviceDescriptor => if succeeded(reply) {
                self.then_control(
                    e,
                    ring.advanced().advanced().advanced(),
                    Stage::ConfigurationDescriptor {
                        vendor: (buffer[8] + 0x100 * buffer[9]) as u16,
                        product: (buffer[10] + 0x100 * buffer[11]) as u16,
                    },
                    true,
                    self.control_in_request(m, i, get_descriptor(DESC_CONFIGURATION, 64), 64),
                )
            } else {
                self.given_up(e)
            },
            Stage::ConfigurationDescriptor { vendor, product } => match hid_endpoint(
                buffer.take(64),
            ) {
                Some(parsed) => if succeeded(reply) {
                    self.then_control(
                        e,
                        ring.advanced().advanced(),
                        Stage::SetConfiguration { vendor, product, parsed },
                        false,
                        self.control_out_request(m, i, set_configuration(parsed.configuration)),
                    )
                } else {
                    self.given_up(e)
                },
                None => self.given_up(e),
            },
            Stage::SetConfiguration { vendor, product, parsed } => if succeeded(reply) {
                self.then_control(
                    e,
                    ring.advanced().advanced(),
                    Stage::SetProtocol { vendor, product, parsed },
                    false,
                    self.control_out_request(m, i, set_boot_protocol(parsed.interface)),
                )
            } else {
                self.given_up(e)
            },
            Stage::SetProtocol { vendor, product, parsed } => self.after_protocol(
                m,
                e,
                vendor,
                product,
                parsed,
            ),
            Stage::ConfigureEndpoint { vendor, product, parsed } => if succeeded(reply) {
                Enumerated {
                    device_count: (e.index + 1) as usize,
                    progress: ProgressView::Done(
                        e.index,
                        HidDevice {
                            kind: parsed.kind,
                            vendor,
                            product,
                            report_len: parsed.max_packet,
                        },
                    ),
                    ..self.given_up(e)
                }
            } else {
                self.given_up(e)
            },
        }
    }

    /// Begins to enumerate the device on a port, where there is room for one
    /// more.
    pub fn enumerate(&mut self, m: &Memory, port: u8) -> (begun: Option<(Enumeration, Request)>)
        requires
            old(self).well_formed(),
        ensures
            final(self).well_formed(),
            match begun {
                Some((e, request)) => {
                    &&& old(self).device_count < MAX_DEVICES
                    &&& e == (Enumeration {
                        port,
                        index: old(self).device_count,
                        stage: Stage::EnableSlot,
                    })
                    &&& request@ == old(self).command_request(*m, trb(0, 0, CONTROL_ENABLE_SLOT))
                    &&& *final(self) == (Xhci {
                        command: old(self).command.advanced(),
                        ..*old(self)
                    })
                },
                None => old(self).device_count >= MAX_DEVICES && *final(self) == *old(self),
            },
    {
        if self.device_count >= MAX_DEVICES {
            return None;
        }
        let request: Request = self.command(m, 0, 0, CONTROL_ENABLE_SLOT);
        Some((Enumeration { port, index: self.device_count, stage: Stage::EnableSlot }, request))
    }

    fn address_device(&mut self, m: &Memory, e: &mut Enumeration, slot: u8, status: u32)
        -> (progress: Progress)
        requires
            old(self).well_formed(),
            m.valid(),
            old(e).index < MAX_DEVICES,
            slot != 0,
        ensures
            ({
                let after = old(self).after_enable(*m, *old(e), slot, status);
                &&& progress@ == after.progress
                &&& final(self).devices@ == after.devices
                &&& final(self).command == after.command
                &&& final(e).stage == (if progress is Failed {
                    old(e).stage
                } else {
                    after.stage
                })
            }),
            *final(e) == (Enumeration { stage: final(e).stage, ..*old(e) }),
            *final(self) == (Xhci {
                command: final(self).command,
                devices: final(self).devices,
                ..*old(self)
            }),
            final(self).well_formed(),
    {
        let index: usize = e.index;
        let mut d: DeviceSlot = DeviceSlot::new();
        d.slot = slot;
        self.devices[index] = d;
        assert(self.devices@ =~= old(self).devices@.update(
            index as int,
            (DeviceSlot { slot, ..DeviceSlot::unused() }),
        ));
        if slot as usize > MAX_SLOTS {
            return Progress::Failed;
        }
        let speed: u8 = port_speed(status);
        let context: Vec<ContextWrite> = build_address_context(
            self.context_size,
            speed,
            e.port,
            default_max_packet(speed),
            transfer_ring_address(m, index),
        );
        let device: u64 = context_address(m, index);
        let request: Request = self.command(
            m,
            m.input_context,
            0,
            CONTROL_ADDRESS_DEVICE + slot as u32 * TRB_SLOT,
        );
        e.stage = Stage::AddressDevice;
        let preparation = Preparation {
            context,
            slot_entry: Some((slot, device)),
            clear_buffer: false,
        };
        Progress::Ask(preparation, request)
    }

    fn configure_endpoint(
        &mut self,
        m: &Memory,
        e: &mut Enumeration,
        vendor: u16,
        product: u16,
        parsed: Parsed,
    ) -> (progress: Progress)
        requires
            old(self).well_formed(),
            m.valid(),
            old(e).index < MAX_DEVICES,
        ensures
            ({
                let after = old(self).after_protocol(*m, *old(e), vendor, product, parsed);
                &&& progress@ == after.progress
                &&& final(self).devices@ == after.devices
                &&& final(self).command == after.command
                &&& final(e).stage == (if progress is Failed {
                    old(e).stage
                } else {
                    after.stage
                })
            }),
            *final(e) == (Enumeration { stage: final(e).stage, ..*old(e) }),
            *final(self) == (Xhci {
                command: final(self).command,
                devices: final(self).devices,
                ..*old(self)
            }),
            final(self).well_formed(),
    {
        let index: usize = e.index;
        let mut d: DeviceSlot = self.devices[index];
        d.endpoint = parsed.endpoint;
        let slot: u8 = d.slot;
        self.devices[index] = d;
        assert(self.devices@ =~= old(self).devices@.update(
            index as int,
            (DeviceSlot {
                endpoint: parsed.endpoint,
                ..old(self).devices@[index as int]
            }),
        ));
        let context: Vec<ContextWrite> = match build_endpoint_context(
            self.context_size,
            parsed.endpoint,
            parsed.max_packet,
            transfer_ring_address(m, index),
        ) {
            Some(context) => context,
            None => return Progress::Failed,
        };
        proof {
            let weight: int = TRB_SLOT as int;
            assert(slot * weight <= 0xFF00_0000) by (nonlinear_arith)
                requires
                    slot <= 255,
                    weight == 0x100_0000,
            ;
        }
        let request: Request = self.command(
            m,
            m.input_context,
            0,
            CONTROL_CONFIGURE_ENDPOINT + slot as u32 * TRB_SLOT,
        );
        e.stage = Stage::ConfigureEndpoint { vendor, product, parsed };
        let preparation = Preparation { context, slot_entry: None, clear_buffer: false };
        Progress::Ask(preparation, request)
    }

    /// Takes the reply to the last request of an enumeration: the event that
    /// answered it, if one did, the port's status, and the device's buffer.
    pub fn enumerate_step(
        &mut self,
        m: &Memory,
        e: &mut Enumeration,
        reply: Option<Event>,
        status: u32,
        buffer: &[u8],
    ) -> (progress: Progress)
        requires
            old(self).well_formed(),
            m.valid(),
            old(e).index < MAX_DEVICES,
            buffer.len() >= 64,
        ensures
            ({
                let after = old(self).stepped(*m, *old(e), reply, status, buffer@);
                &&& progress@ == after.progress
                &&& final(self).devices@ == after.devices
                &&& final(self).command == after.command
                &&& final(self).device_count == after.device_count
                &&& final(e).stage == after.stage
            }),
            *final(e) == (Enumeration { stage: final(e).stage, ..*old(e) }),
            *final(self) == (Xhci {
                command: final(self).command,
                devices: final(self).devices,
                device_count: final(self).device_count,
                ..*old(self)
            }),
            final(self).well_formed(),
    {
        let index: usize = e.index;
        let ok = match reply {
            Some(event) => event.completion == CC_SUCCESS,
            None => false,
        };
        let unprepared = Preparation { context: Vec::new(), slot_entry: None, clear_buffer: false };
        let cleared = Preparation { context: Vec::new(), slot_entry: None, clear_buffer: true };
        match e.stage {
            Stage::EnableSlot => {
                let slot: u8 = match reply {
                    Some(event) => event.slot,
                    None => 0,
                };
                if !ok || slot == 0 {
                    return Progress::Failed;
                }
                self.address_device(m, e, slot, status)
            },
            Stage::AddressDevice => {
                if !ok {
                    return Progress::Failed;
                }
                let setup = Setup {
                    request_type: 0x80,
                    request: REQ_GET_DESCRIPTOR,
                    value: DESC_DEVICE,
                    index: 0,
                    length: 18,
                };
                let request: Request = self.control_in(m, index, setup, 18);
                e.stage = Stage::DeviceDescriptor;
                Progress::Ask(cleared, request)
            },
            Stage::DeviceDescriptor => {
                if !ok {
                    return Progress::Failed;
                }
                let vendor: u16 = buffer[8] as u16 + 0x100 * buffer[9] as u16;
                let product: u16 = buffer[10] as u16 + 0x100 * buffer[11] as u16;
                let setup = Setup {
                    request_type: 0x80,
                    request: REQ_GET_DESCRIPTOR,
                    value: DESC_CONFIGURATION,
                    index: 0,
                    length: 64,
                };
                let request: Request = self.control_in(m, index, setup, 64);
                e.stage = Stage::ConfigurationDescriptor { vendor, product };
                Progress::Ask(cleared, request)
            },
            Stage::ConfigurationDescriptor { vendor, product } => {
                let descriptor = vstd::slice::slice_subrange(buffer, 0, 64);
                assert(descriptor@ =~= buffer@.take(64));
                if !ok {
                    return Progress::Failed;
                }
                let parsed: Parsed = match parse_configuration(descriptor) {
                    Some(parsed) => parsed,
                    None => return Progress::Failed,
                };
                let setup = Setup {
                    request_type: 0x00,
                    request: REQ_SET_CONFIGURATION,
                    value: parsed.configuration as u16,
                    index: 0,
                    length: 0,
                };
                let request: Request = self.control_out(m, index, setup);
                e.stage = Stage::SetConfiguration { vendor, product, parsed };
                Progress::Ask(unprepared, request)
            },
            Stage::SetConfiguration { vendor, product, parsed } => {
                if !ok {
                    return Progress::Failed;
                }
                // Boot protocol: a fixed report layout, so no report
                // descriptor has to be read.
                let setup = Setup {
                    request_type: 0x21,
                    request: REQ_SET_PROTOCOL,
                    value: 0,
                    index: parsed.interface as u16,
                    length: 0,
                };
                let request: Request = self.control_out(m, index, setup);
                e.stage = Stage::SetProtocol { vendor, product, parsed };
                Progress::Ask(unprepared, request)
            },
            Stage::SetProtocol { vendor, product, parsed } => {
                self.configure_endpoint(m, e, vendor, product, parsed)
            },
            Stage::ConfigureEndpoint { vendor, product, parsed } => {
                if !ok {
                    return Progress::Failed;
                }
                self.device_count = index + 1;
                Progress::Done(
                    index,
                    HidDevice {
                        kind: parsed.kind,
                        vendor,
                        product,
                        report_len: parsed.max_packet,
                    },
                )
            },
        }
    }
}

/// Whatever a controller and a device answer, every request of an enumeration
/// stays inside what is there: its doorbell in the BAR, its context writes in
/// the input context, and a filled entry of the device context array never
/// the scratchpad's nor past the last slot.
pub proof fn enumeration_stays_inside(
    x: Xhci,
    m: Memory,
    e: Enumeration,
    reply: Option<Event>,
    status: u32,
    buffer: Seq<u8>,
)
    requires
        x.well_formed(),
        e.index < MAX_DEVICES,
    ensures
        x.stepped(m, e, reply, status, buffer).progress matches ProgressView::Ask(p, request) ==> {
            &&& request.doorbell.inside(x.bar_len as int)
            &&& context_inside(p.context)
            &&& p.slot_entry matches Some((slot, _)) ==> 1 <= slot <= MAX_SLOTS
        },
{
    match e.stage {
        Stage::SetProtocol { vendor, product, parsed } => {
            let index = endpoint_index(parsed.endpoint);
            let size = x.context_size;
            assert(size * (index + 1) <= 64 * 32 && size * (index + 1) >= 0) by (nonlinear_arith)
                requires
                    size == 32 || size == 64,
                    0 <= index <= 31,
            ;
        },
        _ => {},
    }
}

/// An enumeration that succeeds adds exactly one device, and one that fails
/// adds none.
pub proof fn enumeration_counts_devices(
    x: Xhci,
    m: Memory,
    e: Enumeration,
    reply: Option<Event>,
    status: u32,
    buffer: Seq<u8>,
)
    requires
        e.index == x.device_count,
        e.index < MAX_DEVICES,
    ensures
        x.stepped(m, e, reply, status, buffer).progress is Done ==> x.stepped(
            m,
            e,
            reply,
            status,
            buffer,
        ).device_count == x.device_count + 1,
        !(x.stepped(m, e, reply, status, buffer).progress is Done) ==> x.stepped(
            m,
            e,
            reply,
            status,
            buffer,
        ).device_count == x.device_count,
{
}

} // verus!
