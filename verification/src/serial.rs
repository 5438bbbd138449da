//! Output with no operating system to print through.
//!
//! What there is, on every machine, is a console of some kind: a UART at a
//! known place, or firmware that drives one. Which one, what its registers
//! mean and when to give up on it is decided here.
use crate::machine::Machine;
use vstd::prelude::*;

verus! {

/// How firmware's console is called on RISC-V, once it has been asked.
#[derive(Debug, Clone, Copy, PartialEq, Eq, Structural)]
pub enum SbiMode {
    NotAsked,
    DebugConsole,
    Legacy,
}

/// Where output goes.
#[derive(Debug, Clone, Copy, PartialEq, Eq, Structural)]
pub enum Console {
    /// The 16550 at COM1.
    Com1,
    /// The PL011 of the ARM `virt` machine.
    Pl011,
    /// A memory-mapped 16550.
    Ns16550 { base: usize },
    /// OpenPOWER firmware.
    Opal,
    /// RISC-V firmware.
    Sbi,
    /// Open Firmware.
    OpenFirmware,
    Nowhere,
}

/// The state of a machine's console.
#[derive(Debug, Clone, Copy, PartialEq, Eq, Structural)]
pub struct Serial {
    /// Whether output is still being attempted. Only a transmitter that timed
    /// out clears it: that cannot be wrong, the byte was not sent.
    pub live: bool,
    /// Where the memory-mapped 16550 is, or zero while it is not known.
    pub base: usize,
    pub sbi: SbiMode,
}

impl Serial {
    /// A console as it is after its port was prepared.
    pub fn init() -> (serial: Serial)
        ensures
            serial == (Serial { live: true, base: 0, sbi: SbiMode::NotAsked }),
    {
        Serial { live: true, base: 0, sbi: SbiMode::NotAsked }
    }

    /// Whether output is still going anywhere.
    pub fn is_live(&self) -> (live: bool)
        ensures
            live == self.live,
    {
        self.live
    }

    /// Records where the 16550 is, once it was found.
    pub fn set_uart_base(&mut self, base: usize)
        ensures
            *final(self) == (Serial { base, ..*old(self) }),
    {
        self.base = base;
    }

    /// What sending a byte came to. A failure silences the console: further
    /// attempts would only pay the timeout again.
    pub fn put(&mut self, sent: bool)
        ensures
            *final(self) == (Serial { live: old(self).live && sent, ..*old(self) }),
    {
        if !sent {
            self.live = false;
        }
    }

    pub open spec fn routed(self, machine: Machine) -> Console {
        match machine {
            Machine::X86 | Machine::X86Wide => Console::Com1,
            Machine::Aarch64 | Machine::Arm => Console::Pl011,
            Machine::PowerPcWide => Console::Opal,
            Machine::PowerPc => if self.base != 0 {
                Console::Ns16550 { base: self.base }
            } else {
                Console::OpenFirmware
            },
            Machine::RiscV | Machine::RiscVWide => if self.base != 0 {
                Console::Ns16550 { base: self.base }
            } else {
                Console::Sbi
            },
            Machine::Other => Console::Nowhere,
        }
    }

    /// Where output goes on a machine. With no UART known it goes to
    /// firmware, never to address zero.
    pub fn console(&self, machine: Machine) -> (console: Console)
        ensures
            console == self.routed(machine),
    {
        match machine {
            Machine::X86 | Machine::X86Wide => Console::Com1,
            Machine::Aarch64 | Machine::Arm => Console::Pl011,
            Machine::PowerPcWide => Console::Opal,
            Machine::PowerPc => if self.base != 0 {
                Console::Ns16550 { base: self.base }
            } else {
                Console::OpenFirmware
            },
            Machine::RiscV | Machine::RiscVWide => if self.base != 0 {
                Console::Ns16550 { base: self.base }
            } else {
                Console::Sbi
            },
            Machine::Other => Console::Nowhere,
        }
    }

    /// How RISC-V firmware is called. It is asked for its newer console once.
    pub fn sbi_mode(&mut self, has_debug_console: bool) -> (mode: SbiMode)
        ensures
            mode == (match old(self).sbi {
                SbiMode::NotAsked => if has_debug_console {
                    SbiMode::DebugConsole
                } else {
                    SbiMode::Legacy
                },
                asked => asked,
            }),
            *final(self) == (Serial { sbi: mode, ..*old(self) }),
    {
        if matches!(self.sbi, SbiMode::NotAsked) {
            self.sbi = if has_debug_console {
                SbiMode::DebugConsole
            } else {
                SbiMode::Legacy
            };
        }
        self.sbi
    }
}

/// The address every PC has had at this port since 1981.
pub const COM1: u16 = 0x3F8;

/// The writes that prepare COM1, in the order that leaves the divisor latch
/// closed: no interrupts, 115200 baud, eight bits, no parity, one stop bit.
pub fn com1_init() -> (writes: Vec<(u16, u8)>)
    ensures
        writes@ == seq![
            (0x3F9u16, 0x00u8),
            (0x3FBu16, 0x80u8),
            (0x3F8u16, 0x01u8),
            (0x3F9u16, 0x00u8),
            (0x3FBu16, 0x03u8),
            (0x3FAu16, 0xC7u8),
            (0x3FCu16, 0x0Bu8),
        ],
{
    let writes: Vec<(u16, u8)> = vec![
        (COM1 + 1, 0x00),
        (COM1 + 3, 0x80),
        (COM1, 0x01),
        (COM1 + 1, 0x00),
        (COM1 + 3, 0x03),
        (COM1 + 2, 0xC7),
        (COM1 + 4, 0x0B),
    ];
    assert(writes@ =~= seq![
        (0x3F9u16, 0x00u8),
        (0x3FBu16, 0x80u8),
        (0x3F8u16, 0x01u8),
        (0x3F9u16, 0x00u8),
        (0x3FBu16, 0x03u8),
        (0x3FAu16, 0xC7u8),
        (0x3FCu16, 0x0Bu8),
    ]);
    writes
}

/// Whether a status says that a byte can be sent: the 16550's holding
/// register is empty, or the PL011's queue is not full.
pub open spec fn can_send(console: Console, status: u32) -> bool {
    match console {
        Console::Com1 => status & 0x20 != 0,
        Console::Ns16550 { base } => status & 0x20 != 0,
        Console::Pl011 => status & 0x20 == 0,
        _ => false,
    }
}

/// Whether a status says that a byte can be sent.
pub fn ready_to_send(console: Console, status: u32) -> (ready: bool)
    ensures
        ready == can_send(console, status),
{
    match console {
        Console::Com1 => status & 0x20 != 0,
        Console::Ns16550 { base } => status & 0x20 != 0,
        Console::Pl011 => status & 0x20 == 0,
        _ => false,
    }
}

/// How many times a transmitter is asked before it is given up on. Without a
/// bound a machine with no port would hang on its first character.
pub const TX_SPIN_LIMIT: u32 = 100_000;

/// What to do about one byte after asking the transmitter.
#[derive(Debug, Clone, Copy, PartialEq, Eq, Structural)]
pub enum SendStep {
    /// Write it: it is sent.
    Write,
    /// Ask again.
    Spin { asked: u32 },
    /// The transmitter never became ready.
    GiveUp,
}

/// What to do after the transmitter was asked once more.
pub fn send_step(console: Console, status: u32, asked: u32) -> (step: SendStep)
    requires
        asked < 100_000,
    ensures
        step == (if can_send(console, status) {
            SendStep::Write
        } else if asked + 1 < 100_000 {
            SendStep::Spin { asked: (asked + 1) as u32 }
        } else {
            SendStep::GiveUp
        }),
{
    if ready_to_send(console, status) {
        SendStep::Write
    } else if asked + 1 < TX_SPIN_LIMIT {
        SendStep::Spin { asked: asked + 1 }
    } else {
        SendStep::GiveUp
    }
}

/// What a console answered when it was asked for input.
#[derive(Debug, Clone, Copy, PartialEq, Eq, Structural)]
pub enum ConsoleReply {
    /// A UART's status and, if it says so, its data register.
    Registers { status: u32, data: u32 },
    /// OpenPOWER firmware: whether it succeeded, and how many bytes it gave.
    Opal { success: bool, count: u64, byte: u8 },
    /// RISC-V firmware's newer console.
    Dbcn { error: i64, count: i64, byte: u8 },
    /// RISC-V firmware's older one: a byte, or something negative.
    Getchar { value: i64 },
    /// Open Firmware.
    Firmware { byte: Option<u8> },
}

/// Whether a status says that a byte is waiting.
pub open spec fn has_byte(console: Console, status: u32) -> bool {
    match console {
        Console::Com1 => status & 0x01 != 0,
        Console::Ns16550 { base } => status & 0x01 != 0,
        Console::Pl011 => status & 0x10 == 0,
        _ => false,
    }
}

/// The byte a reply holds.
pub open spec fn received(console: Console, reply: ConsoleReply) -> Option<u8> {
    match reply {
        ConsoleReply::Registers { status, data } => if has_byte(console, status) {
            Some((data & 0xff) as u8)
        } else {
            None
        },
        ConsoleReply::Opal { success, count, byte } => if success && count == 1 {
            Some(byte)
        } else {
            None
        },
        ConsoleReply::Dbcn { error, count, byte } => if error == 0 && count == 1 {
            Some(byte)
        } else {
            None
        },
        ConsoleReply::Getchar { value } => if value >= 0 {
            Some((value % 256) as u8)
        } else {
            None
        },
        ConsoleReply::Firmware { byte } => byte,
    }
}

/// One byte from the console, if one was waiting.
pub fn read_byte(console: Console, reply: ConsoleReply) -> (byte: Option<u8>)
    ensures
        byte == received(console, reply),
{
    match reply {
        ConsoleReply::Registers { status, data } => {
            let waiting: bool = match console {
                Console::Com1 => status & 0x01 != 0,
                Console::Ns16550 { base } => status & 0x01 != 0,
                Console::Pl011 => status & 0x10 == 0,
                _ => false,
            };
            if waiting {
                Some((data & 0xff) as u8)
            } else {
                None
            }
        },
        ConsoleReply::Opal { success, count, byte } => if success && count == 1 {
            Some(byte)
        } else {
            None
        },
        ConsoleReply::Dbcn { error, count, byte } => if error == 0 && count == 1 {
            Some(byte)
        } else {
            None
        },
        ConsoleReply::Getchar { value } => if value >= 0 {
            Some((value % 256) as u8)
        } else {
            None
        },
        ConsoleReply::Firmware { byte } => byte,
    }
}

// ---------------------------------------------------------------------------
// Text on the wire
// ---------------------------------------------------------------------------

/// What a text is on the wire: a carriage return goes before each newline,
/// which alone leaves a terminal's cursor where it was.
pub open spec fn wire(bytes: Seq<u8>) -> Seq<u8>
    decreases bytes.len(),
{
    if bytes.len() == 0 {
        Seq::empty()
    } else {
        let before = wire(bytes.drop_last());
        if bytes.last() == 0x0a {
            before.push(0x0d).push(0x0a)
        } else {
            before.push(bytes.last())
        }
    }
}

/// The bytes to send for a text, one by one.
pub fn write_str(bytes: &[u8]) -> (out: Vec<u8>)
    ensures
        out@ == wire(bytes@),
{
    let mut out: Vec<u8> = Vec::new();
    let mut i: usize = 0;
    assert(bytes@.take(0) =~= Seq::empty());
    while i < bytes.len()
        invariant
            i <= bytes.len(),
            out@ == wire(bytes@.take(i as int)),
        decreases bytes.len() - i,
    {
        assert(bytes@.take(i + 1).drop_last() =~= bytes@.take(i as int));
        if bytes[i] == 0x0a {
            out.push(0x0d);
        }
        out.push(bytes[i]);
        i = i + 1;
    }
    assert(bytes@.take(i as int) =~= bytes@);
    out
}

/// Pieces put together.
pub open spec fn joined(pieces: Seq<Vec<u8>>) -> Seq<u8>
    decreases pieces.len(),
{
    if pieces.len() == 0 {
        Seq::empty()
    } else {
        joined(pieces.drop_last()) + pieces.last()@
    }
}

/// The lines of a text: what stands before, between and after its newlines.
pub open spec fn lines_of(bytes: Seq<u8>) -> Seq<Seq<u8>>
    decreases bytes.len(),
{
    if bytes.len() == 0 {
        seq![Seq::empty()]
    } else {
        let before = lines_of(bytes.drop_last());
        if bytes.last() == 0x0a {
            before.push(Seq::empty())
        } else {
            before.update(before.len() - 1, before.last().push(bytes.last()))
        }
    }
}

/// What goes before the last of some lines: the pieces of the others, and the
/// end of the one before it.
pub open spec fn pieces_before_last(lines: Seq<Seq<u8>>) -> Seq<Seq<u8>>
    decreases lines.len(), 0int,
{
    if lines.len() > 1 {
        line_pieces(lines.drop_last()).push(seq![0x0du8, 0x0a])
    } else {
        Seq::empty()
    }
}

/// The pieces that some lines are sent as: each line that is not empty, and
/// an end of line between every two.
pub open spec fn line_pieces(lines: Seq<Seq<u8>>) -> Seq<Seq<u8>>
    decreases lines.len(), 1int,
{
    if lines.len() == 0 {
        Seq::empty()
    } else if lines.last().len() > 0 {
        pieces_before_last(lines).push(lines.last())
    } else {
        pieces_before_last(lines)
    }
}

/// Some pieces, each by its bytes.
pub open spec fn pieces_view(pieces: Seq<Vec<u8>>) -> Seq<Seq<u8>> {
    Seq::new(pieces.len(), |i: int| pieces[i]@)
}

/// The pieces to send for a text where every call is a trip through
/// firmware: whole lines, and their ends. No piece is empty, and together
/// they are what would be sent byte by byte.
pub fn write_pieces(bytes: &[u8]) -> (pieces: Vec<Vec<u8>>)
    ensures
        pieces_view(pieces@) == line_pieces(lines_of(bytes@)),
        joined(pieces@) == wire(bytes@),
        forall|k: int| 0 <= k < pieces@.len() ==> (#[trigger] pieces@[k])@.len() > 0,
{
    let mut pieces: Vec<Vec<u8>> = Vec::new();
    let mut line: Vec<u8> = Vec::new();
    let mut i: usize = 0;
    assert(bytes@.take(0) =~= Seq::empty());
    assert(joined(pieces@) + line@ =~= Seq::<u8>::empty());
    assert(pieces_view(pieces@) =~= Seq::empty());
    while i < bytes.len()
        invariant
            i <= bytes.len(),
            lines_of(bytes@.take(i as int)).len() > 0,
            line@ == lines_of(bytes@.take(i as int)).last(),
            pieces_view(pieces@) == pieces_before_last(lines_of(bytes@.take(i as int))),
            joined(pieces@) + line@ == wire(bytes@.take(i as int)),
            forall|k: int| 0 <= k < pieces@.len() ==> (#[trigger] pieces@[k])@.len() > 0,
        decreases bytes.len() - i,
    {
        let ghost all = lines_of(bytes@.take(i as int));
        let ghost grown = lines_of(bytes@.take(i + 1));
        let ghost earlier = pieces@;
        let ghost before = joined(pieces@);
        let ghost text = line@;
        assert(bytes@.take(i + 1).drop_last() =~= bytes@.take(i as int));
        if bytes[i] == 0x0a {
            if line.len() > 0 {
                pieces.push(line);
                assert(pieces@.drop_last() =~= earlier);
                assert(pieces_view(pieces@) =~= pieces_view(earlier).push(text));
                line = Vec::new();
            }
            assert(pieces_view(pieces@) == line_pieces(all));
            assert(joined(pieces@) =~= before + text) by {
                if text.len() > 0 {
                    assert(pieces@.last()@ == text);
                } else {
                    assert(before + text =~= before);
                }
            }
            let end: Vec<u8> = vec![0x0d, 0x0a];
            assert(end@ =~= seq![0x0du8, 0x0a]);
            let ghost shorter = pieces@;
            pieces.push(end);
            assert(pieces@.drop_last() =~= shorter);
            assert(pieces_view(pieces@) =~= pieces_view(shorter).push(seq![0x0du8, 0x0a]));
            assert(grown.drop_last() =~= all);
            assert(line@ =~= Seq::empty());
            assert(joined(pieces@) + line@ =~= (before + text).push(0x0d).push(0x0a));
        } else {
            line.push(bytes[i]);
            assert(grown.drop_last() =~= all.drop_last());
            assert(before + line@ =~= (before + text).push(bytes@[i as int]));
        }
        i = i + 1;
    }
    assert(bytes@.take(i as int) =~= bytes@);
    if line.len() > 0 {
        let ghost shorter = pieces@;
        let ghost text = line@;
        pieces.push(line);
        assert(pieces@.drop_last() =~= shorter);
        assert(pieces_view(pieces@) =~= pieces_view(shorter).push(text));
        assert(joined(pieces@) =~= joined(shorter) + text);
    } else {
        assert(joined(pieces@) + line@ =~= joined(pieces@));
    }
    pieces
}

// ---------------------------------------------------------------------------
// OpenPOWER firmware
// ---------------------------------------------------------------------------

/// What firmware answered to a write.
#[derive(Debug, Clone, Copy, PartialEq, Eq, Structural)]
pub enum OpalStatus {
    Success,
    Busy,
    BusyEvent,
    Failed,
}

/// How often firmware may say that its buffer is full, in a row.
pub const BUSY_LIMIT: u32 = 10_000;

/// A write through firmware: how much has gone, and how often in a row
/// nothing did.
#[derive(Debug, Clone, Copy, PartialEq, Eq, Structural)]
pub struct OpalWrite {
    pub total: usize,
    pub from: usize,
    pub busy: u32,
}

/// What to do after one call into firmware.
#[derive(Debug, Clone, Copy, PartialEq, Eq, Structural)]
pub enum OpalStep {
    /// All of it has gone.
    Done,
    /// Write the rest.
    Again,
    /// Let firmware drain its buffer, then write the rest.
    Poll,
    /// It will not go.
    Fail,
}

impl OpalWrite {
    /// A write that has not begun.
    pub fn new(total: usize) -> (write: OpalWrite)
        ensures
            write == (OpalWrite { total, from: 0, busy: 0 }),
    {
        OpalWrite { total, from: 0, busy: 0 }
    }

    pub open spec fn valid(self) -> bool {
        self.from < self.total && self.busy <= 10_000
    }

    /// How much one call moved: never more than was left.
    pub open spec fn moved(self, written: u64) -> int {
        crate::num::min_int(written as int, self.total - self.from)
    }

    /// What one call into firmware came to.
    pub fn step(&mut self, status: OpalStatus, written: u64) -> (step: OpalStep)
        requires
            old(self).valid(),
        ensures
            match status {
                OpalStatus::Failed => step is Fail && *final(self) == *old(self),
                _ => if status is Success && written > 0 {
                    &&& *final(self) == (OpalWrite {
                        from: (old(self).from + old(self).moved(written)) as usize,
                        busy: 0,
                        ..*old(self)
                    })
                    &&& step == (if final(self).from == final(self).total {
                        OpalStep::Done
                    } else {
                        OpalStep::Again
                    })
                } else {
                    &&& *final(self) == (OpalWrite { busy: (old(self).busy + 1) as u32, ..*old(
                        self,
                    ) })
                    &&& step == (if final(self).busy > 10_000 {
                        OpalStep::Fail
                    } else {
                        OpalStep::Poll
                    })
                },
            },
            step is Again || step is Poll ==> final(self).valid(),
    {
        if matches!(status, OpalStatus::Failed) {
            return OpalStep::Fail;
        }
        if matches!(status, OpalStatus::Success) && written > 0 {
            let left: usize = self.total - self.from;
            let moved: usize = if written < left as u64 {
                written as usize
            } else {
                left
            };
            self.from = self.from + moved;
            self.busy = 0;
            if self.from == self.total {
                OpalStep::Done
            } else {
                OpalStep::Again
            }
        } else {
            self.busy = self.busy + 1;
            if self.busy > BUSY_LIMIT {
                OpalStep::Fail
            } else {
                OpalStep::Poll
            }
        }
    }

    /// How far a write is from its end: what is left to move, and within that
    /// how often firmware may still be busy.
    pub open spec fn rest(self) -> int {
        (self.total - self.from) * 10_001 + (10_000 - self.busy)
    }
}

/// Every call into firmware that asks for another brings the write nearer to
/// its end, so it ends.
pub proof fn firmware_writes_end(before: OpalWrite, after: OpalWrite)
    requires
        before.valid(),
        after.valid(),
        after.total == before.total,
        (after.from > before.from && after.busy == 0) || (after.from == before.from && after.busy
            == before.busy + 1),
    ensures
        0 <= after.rest() < before.rest(),
{
}

} // verus!
