# nanochrono

A nanosecond chronometer's logic, verified with Verus: which counter is read
and how, what a hypervisor's traces say of the numbers, which kernels may run
on a processor, and what the commands print. Around it stand the parsers and
state machines of its freestanding half: HID report descriptors, an xHCI host
controller, a serial port.

Hardware is never touched by the library. A counter read is a plan, a list of
instructions that a caller executes; a register sequence is a list of accesses;
an exchange with a device is a state and the event that came back. What a plan
holds, and that it can be executed where it is planned, is what is proved.

- `src/arch/` the counters of each processor family, as instruction plans
- `src/cpu.rs`, `src/backend.rs`, `src/simd.rs`, `src/dispatch.rs` features,
  and what is selected by them
- `src/clock.rs`, `src/crosscheck.rs` counter routes, calibration, and two
  clocks held against each other
- `src/hypervisor.rs`, `src/hypercall_hal.rs`, `src/reprobe.rs` detection, and
  how often it may be repeated
- `src/bench.rs`, `src/harness.rs`, `src/kcrypto.rs` benchmarks and the
  kernel's crypto
- `src/cli.rs`, `src/cli_report.rs`, `src/cli_session.rs`, `src/ring0_perf.rs`
  the command line
- `src/hid_report.rs`, `src/xhci.rs`, `src/serial.rs`, `src/acpi_report.rs`,
  `src/selftest.rs` the freestanding half
- `src/text.rs`, `src/bytes.rs`, `src/num.rs`, `src/child.rs` the ground these
  stand on, with the few functions outside that are trusted

`app/` is the command-line program: it executes the plans, reads the files and
does the floating-point arithmetic.
