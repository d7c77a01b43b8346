//! An early-boot hardware abstraction layer: serial-port drivers for the
//! PL011 and 16550 UART families, a firmware memory-map client, and a
//! processor descriptor-table decoder.
//!
//! Device registers and I/O ports are reached through small bus traits whose
//! contracts record every hardware access, so each driver's protocol — the
//! exact registers touched, the values written, and the decisions taken on
//! the values read back — is stated and proved here.

pub mod error;
pub mod gdt;
pub mod memory_map;
pub mod pl011_uart;
pub mod port_io;
pub mod registers;
pub mod serial;
pub mod uart;
