//! The console: which one it is, what it is sent and what it answers.
use nanochrono::machine::Machine;
use nanochrono::serial::{
    com1_init, read_byte, ready_to_send, send_step, write_pieces, write_str, Console,
    ConsoleReply, OpalStatus, OpalStep, OpalWrite, SbiMode, SendStep, Serial, COM1,
};

#[test]
fn each_machine_has_its_console() {
    let mut serial = Serial::init();
    assert!(serial.is_live());
    assert_eq!(serial.console(Machine::X86Wide), Console::Com1);
    assert_eq!(serial.console(Machine::Aarch64), Console::Pl011);
    assert_eq!(serial.console(Machine::PowerPcWide), Console::Opal);
    assert_eq!(serial.console(Machine::RiscVWide), Console::Sbi);
    assert_eq!(serial.console(Machine::Other), Console::Nowhere);
    serial.set_uart_base(0x1000_0000);
    assert_eq!(serial.console(Machine::RiscVWide), Console::Ns16550 { base: 0x1000_0000 });
}

#[test]
fn a_console_that_refused_a_byte_is_left_alone() {
    let mut serial = Serial::init();
    serial.put(true);
    assert!(serial.is_live());
    serial.put(false);
    assert!(!serial.is_live());
    serial.put(true);
    assert!(!serial.is_live());
}

#[test]
fn the_firmware_is_asked_once() {
    let mut serial = Serial::init();
    assert_eq!(serial.sbi_mode(true), SbiMode::DebugConsole);
    assert_eq!(serial.sbi_mode(false), SbiMode::DebugConsole);
    let mut other = Serial::init();
    assert_eq!(other.sbi_mode(false), SbiMode::Legacy);
    assert_eq!(other.sbi_mode(true), SbiMode::Legacy);
}

#[test]
fn com1_is_set_up_at_115200() {
    let writes = com1_init();
    assert!(writes.iter().all(|(port, _)| (COM1..COM1 + 8).contains(port)));
    // Divisor one, behind the latch bit.
    assert!(writes.contains(&(COM1 + 3, 0x80)));
    assert!(writes.contains(&(COM1, 1)));
}

#[test]
fn a_full_transmitter_is_waited_for_and_then_left() {
    assert!(ready_to_send(Console::Com1, 0x20));
    assert!(!ready_to_send(Console::Com1, 0));
    assert!(!ready_to_send(Console::Pl011, 0x20));
    assert!(ready_to_send(Console::Pl011, 0));
    assert_eq!(send_step(Console::Com1, 0x20, 0), SendStep::Write);
    assert_eq!(send_step(Console::Com1, 0, 0), SendStep::Spin { asked: 1 });
    assert_eq!(send_step(Console::Com1, 0, 99_999), SendStep::GiveUp);
}

#[test]
fn bytes_are_read_where_there_are_any() {
    let com1 = Console::Com1;
    assert_eq!(
        read_byte(com1, ConsoleReply::Registers { status: 1, data: b'a' as u32 }),
        Some(b'a')
    );
    assert_eq!(read_byte(com1, ConsoleReply::Registers { status: 0, data: b'a' as u32 }), None);
    assert_eq!(
        read_byte(Console::Opal, ConsoleReply::Opal { success: true, count: 1, byte: 7 }),
        Some(7)
    );
    assert_eq!(
        read_byte(Console::Opal, ConsoleReply::Opal { success: true, count: 0, byte: 7 }),
        None
    );
    assert_eq!(
        read_byte(Console::Sbi, ConsoleReply::Dbcn { error: 0, count: 1, byte: 9 }),
        Some(9)
    );
    assert_eq!(read_byte(Console::Sbi, ConsoleReply::Getchar { value: -1 }), None);
    assert_eq!(read_byte(Console::Sbi, ConsoleReply::Getchar { value: 65 }), Some(65));
    assert_eq!(
        read_byte(Console::OpenFirmware, ConsoleReply::Firmware { byte: Some(3) }),
        Some(3)
    );
}

#[test]
fn lines_end_as_a_terminal_wants_them() {
    assert_eq!(write_str(b"a\nb"), b"a\r\nb".to_vec());
    let pieces = write_pieces(b"ab\ncd\n");
    assert_eq!(pieces.concat(), b"ab\r\ncd\r\n".to_vec());
    assert_eq!(pieces, [&b"ab"[..], b"\r\n", b"cd", b"\r\n"]);
    assert_eq!(write_pieces(b"\n\nx"), [&b"\r\n"[..], b"\r\n", b"x"]);
    assert!(write_pieces(b"").concat().is_empty());
}

#[test]
fn a_firmware_write_ends() {
    let mut write = OpalWrite::new(10);
    assert_eq!(write.step(OpalStatus::Success, 4), OpalStep::Again);
    assert_eq!(write.step(OpalStatus::Success, 6), OpalStep::Done);
    let mut failing = OpalWrite::new(10);
    assert_eq!(failing.step(OpalStatus::Failed, 0), OpalStep::Fail);
    let mut busy = OpalWrite::new(10);
    let mut asked = 0;
    while busy.step(OpalStatus::Busy, 0) != OpalStep::Fail {
        asked += 1;
        assert!(asked <= 10_000);
    }
}
