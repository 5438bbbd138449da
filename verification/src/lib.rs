//! Counters, clocks, processor features and the buses a timing tool has to
//! read, with every decision stated in a contract.
pub mod acpi_report;
pub mod arch;
pub mod backend;
pub mod bench;
pub mod bytes;
pub mod child;
pub mod cli;
pub mod cli_report;
pub mod cli_session;
pub mod clock;
pub mod cpu;
pub mod crosscheck;
pub mod dispatch;
pub mod harness;
pub mod hid_report;
pub mod hypercall_hal;
pub mod hypervisor;
pub mod kcrypto;
pub mod laws;
pub mod machine;
pub mod num;
pub mod reprobe;
pub mod ring0_perf;
pub mod selftest;
pub mod serial;
pub mod simd;
pub mod text;
pub mod xhci;
