//! What goes over a console, byte by byte.
use crate::laws::holds;
use crate::machine::Machine;
use crate::serial::{
    can_send, com1_init, has_byte, line_pieces, lines_of, pieces_before_last, received, send_step,
    wire, Console, ConsoleReply, OpalWrite, SendStep, Serial,
};
use vstd::prelude::*;

verus! {

/// Each machine's console: the first serial port on a PC, the PL011 on ARM,
/// firmware on 64-bit PowerPC, and elsewhere the port that was found, or else
/// firmware.
pub proof fn each_machine_has_its_console(serial: Serial)
    ensures
        serial.routed(Machine::X86) is Com1 && serial.routed(Machine::X86Wide) is Com1,
        serial.routed(Machine::Aarch64) is Pl011 && serial.routed(Machine::Arm) is Pl011,
        serial.routed(Machine::PowerPcWide) is Opal,
        serial.base == 0 ==> serial.routed(Machine::PowerPc) is OpenFirmware && serial.routed(
            Machine::RiscV,
        ) is Sbi && serial.routed(Machine::RiscVWide) is Sbi,
        serial.base != 0 ==> serial.routed(Machine::PowerPc) == (Console::Ns16550 {
            base: serial.base,
        }) && serial.routed(Machine::RiscV) == (Console::Ns16550 { base: serial.base })
            && serial.routed(Machine::RiscVWide) == (Console::Ns16550 { base: serial.base }),
        serial.routed(Machine::Other) is Nowhere,
{
}

/// A 16550 can send where bit 5 of its line status is set and has a byte where
/// bit 0 is; a PL011 can send where its flag at bit 5, full, is clear, and has
/// a byte where its flag at bit 4, empty, is.
pub proof fn status_bits_say_what_can_be_done(status: u32, base: usize)
    ensures
        can_send(Console::Com1, status) <==> holds(status as int, 0x20),
        can_send((Console::Ns16550 { base }), status) <==> holds(status as int, 0x20),
        can_send(Console::Pl011, status) <==> !holds(status as int, 0x20),
        has_byte(Console::Com1, status) <==> holds(status as int, 1),
        has_byte((Console::Ns16550 { base }), status) <==> holds(status as int, 1),
        has_byte(Console::Pl011, status) <==> !holds(status as int, 0x10),
        !can_send(Console::Opal, status) && !can_send(Console::Sbi, status),
        !can_send(Console::OpenFirmware, status) && !can_send(Console::Nowhere, status),
{
    assert((status & 0x20 != 0 <==> status / 0x20 % 2 == 1) && (status & 0x20 == 0 || status & 0x20
        == 0x20) && (status & 1 != 0 <==> status % 2 == 1) && (status & 0x10 == 0 <==> status / 0x10
        % 2 == 0)) by (bit_vector);
}

/// A byte is the low one of a data register that has one, or what firmware
/// handed over: exactly one, without an error; a negative answer is none.
pub proof fn a_byte_is_what_was_handed_over(
    console: Console,
    status: u32,
    data: u32,
    success: bool,
    count: u64,
    error: i64,
    many: i64,
    byte: u8,
    value: i64,
    given: Option<u8>,
)
    ensures
        has_byte(console, status) ==> received(
            console,
            (ConsoleReply::Registers { status, data }),
        ) == Some((data % 256) as u8),
        !has_byte(console, status) ==> received(
            console,
            (ConsoleReply::Registers { status, data }),
        ) is None,
        received(console, (ConsoleReply::Opal { success, count, byte })) == (if success && count
            == 1 {
            Some(byte)
        } else {
            None
        }),
        received(console, (ConsoleReply::Dbcn { error, count: many, byte })) == (if error == 0
            && many == 1 {
            Some(byte)
        } else {
            None
        }),
        value >= 0 ==> received(console, (ConsoleReply::Getchar { value })) == Some(
            (value % 256) as u8,
        ),
        value < 0 ==> received(console, (ConsoleReply::Getchar { value })) is None,
        received(console, (ConsoleReply::Firmware { byte: given })) == given,
{
    assert(data & 0xff == data % 256) by (bit_vector);
}

/// A transmitter is asked a hundred thousand times and then given up on.
pub proof fn a_transmitter_is_asked_so_often(
    console: Console,
    status: u32,
    asked: u32,
    step: SendStep,
)
    requires
        asked < 100_000,
        call_ensures(send_step, (console, status, asked), step),
    ensures
        can_send(console, status) ==> step is Write,
        !can_send(console, status) && asked < 99_999 ==> step == (SendStep::Spin {
            asked: (asked + 1) as u32,
        }),
        !can_send(console, status) && asked == 99_999 ==> step is GiveUp,
{
}

/// The first port is set to 115200 baud, eight bits, no parity, one stop bit:
/// interrupts off, the divisor latch opened, a divisor of one, the latch
/// closed on the format, the queues cleared, and the lines raised.
pub proof fn the_first_port_is_set_up(writes: Vec<(u16, u8)>)
    requires
        call_ensures(com1_init, (), writes),
    ensures
        writes@.len() == 7,
        writes@[0] == (0x3F9u16, 0u8),
        writes@[1] == (0x3FBu16, 0x80u8),
        writes@[2] == (0x3F8u16, 1u8) && writes@[3] == (0x3F9u16, 0u8),
        writes@[4] == (0x3FBu16, 3u8),
        writes@[5] == (0x3FAu16, 0xC7u8),
        writes@[6] == (0x3FCu16, 0x0Bu8),
{
}

/// On the wire a line ends in carriage return and line feed; everything else
/// goes as it is.
pub proof fn lines_end_in_two_bytes(bytes: Seq<u8>, byte: u8)
    ensures
        wire(Seq::empty()).len() == 0,
        byte == 10 ==> wire(bytes.push(byte)) == wire(bytes) + seq![13u8, 10u8],
        byte != 10 ==> wire(bytes.push(byte)) == wire(bytes) + seq![byte],
{
    assert(bytes.push(byte).drop_last() =~= bytes);
    assert(wire(bytes).push(0x0d).push(0x0a) =~= wire(bytes) + seq![13u8, 10u8]);
    assert(wire(bytes).push(byte) =~= wire(bytes) + seq![byte]);
}

/// What is written in two goes is what is written in one.
pub proof fn writing_goes_on_where_it_stopped(first: Seq<u8>, second: Seq<u8>)
    ensures
        wire(first + second) == wire(first) + wire(second),
    decreases second.len(),
{
    if second.len() == 0 {
        assert(first + second =~= first);
        assert(wire(first) + wire(second) =~= wire(first));
    } else {
        let shorter = second.drop_last();
        writing_goes_on_where_it_stopped(first, shorter);
        lines_end_in_two_bytes(first + shorter, second.last());
        lines_end_in_two_bytes(shorter, second.last());
        assert((first + shorter).push(second.last()) =~= first + second);
        assert(shorter.push(second.last()) =~= second);
        assert(wire(first + second) =~= wire(first) + wire(second));
    }
}

proof fn lemma_lines(bytes: Seq<u8>)
    ensures
        lines_of(bytes).len() > 0,
        forall|i: int, k: int|
            0 <= i < lines_of(bytes).len() && 0 <= k < lines_of(bytes)[i].len()
                ==> #[trigger] lines_of(bytes)[i][k] != 10,
    decreases bytes.len(),
{
    if bytes.len() > 0 {
        lemma_lines(bytes.drop_last());
    }
}

/// Text is handed to firmware in pieces: the two bytes that end a line, or
/// part of a line with no end in it.
pub proof fn pieces_are_line_ends_or_parts_of_lines(bytes: Seq<u8>, i: int)
    requires
        0 <= i < line_pieces(lines_of(bytes)).len(),
    ensures
        ({
            let piece = line_pieces(lines_of(bytes))[i];
            ||| piece == seq![13u8, 10u8]
            ||| piece.len() > 0 && forall|k: int| 0 <= k < piece.len() ==> #[trigger] piece[k] != 10
        }),
{
    lemma_lines(bytes);
    lemma_pieces(lines_of(bytes), i);
}

proof fn lemma_pieces(lines: Seq<Seq<u8>>, i: int)
    requires
        forall|n: int, k: int|
            0 <= n < lines.len() && 0 <= k < lines[n].len() ==> #[trigger] lines[n][k] != 10,
        0 <= i < line_pieces(lines).len(),
    ensures
        ({
            let piece = line_pieces(lines)[i];
            ||| piece == seq![13u8, 10u8]
            ||| piece.len() > 0 && forall|k: int| 0 <= k < piece.len() ==> #[trigger] piece[k] != 10
        }),
    decreases lines.len(),
{
    let before = pieces_before_last(lines);
    if i < before.len() {
        assert(lines.len() > 1);
        let fewer = lines.drop_last();
        if i < line_pieces(fewer).len() {
            lemma_pieces(fewer, i);
            assert(line_pieces(lines)[i] == line_pieces(fewer)[i]);
        }
    } else {
        let last = lines.last();
        assert(line_pieces(lines)[i] == last);
        assert forall|k: int| 0 <= k < last.len() implies #[trigger] last[k] != 10 by {
            assert(lines[lines.len() - 1][k] != 10);
        }
    }
}

/// Firmware is never taken to have written more than there was.
pub proof fn no_more_is_written_than_there_is(write: OpalWrite, written: u64)
    requires
        write.from < write.total,
    ensures
        written <= write.total - write.from ==> write.moved(written) == written,
        written > write.total - write.from ==> write.moved(written) == write.total - write.from,
{
}

} // verus!
