use boot_hal::error::Error;
use boot_hal::port_io::{PortOp, ScriptedPortIo};
use boot_hal::serial::Serial;
use boot_hal::uart::{
    UartX86, UartX86Baud, UartX86DataBits, UartX86Parity, UartX86Port, UartX86StopBits,
};

fn com1_uart(baud: UartX86Baud, responses: Vec<u8>) -> UartX86<ScriptedPortIo> {
    UartX86::new(
        UartX86Port::Com1,
        baud,
        UartX86DataBits::Bits8,
        UartX86StopBits::Bits1,
        UartX86Parity::NoParity,
        ScriptedPortIo::new(responses),
    )
}

#[test]
fn init_runs_documented_setup_sequence() {
    let mut uart = com1_uart(UartX86Baud::Baud38400, vec![0xae]);
    assert_eq!(uart.init(), Ok(()));
    assert!(uart.is_initialized());
    let ops = &uart.pio.ops;
    assert_eq!(ops.len(), 11);
    assert_eq!(ops[0], PortOp::Write { port_addr: 0x3f9, value: 0x00 });
    assert_eq!(ops[1], PortOp::Write { port_addr: 0x3fb, value: 0x80 });
    assert_eq!(ops[2], PortOp::Write { port_addr: 0x3f8, value: 0x03 });
    assert_eq!(ops[3], PortOp::Write { port_addr: 0x3f9, value: 0x00 });
    assert_eq!(ops[4], PortOp::Write { port_addr: 0x3fb, value: 0x03 });
    assert_eq!(ops[5], PortOp::Write { port_addr: 0x3fa, value: 0xc7 });
    assert_eq!(ops[6], PortOp::Write { port_addr: 0x3fc, value: 0x0b });
    assert_eq!(ops[7], PortOp::Write { port_addr: 0x3fc, value: 0x1e });
    assert_eq!(ops[8], PortOp::Write { port_addr: 0x3f8, value: 0xae });
    assert_eq!(ops[9], PortOp::Read { port_addr: 0x3f8, value: 0xae });
    assert_eq!(ops[10], PortOp::Write { port_addr: 0x3fc, value: 0x0f });
}

#[test]
fn baud_selector_38400_encodes_divisor_3() {
    let mut uart = com1_uart(UartX86Baud::Baud38400, vec![0xae]);
    assert_eq!(uart.init(), Ok(()));
    assert_eq!(uart.pio.ops[2], PortOp::Write { port_addr: 0x3f8, value: 0x03 });
    assert_eq!(uart.pio.ops[3], PortOp::Write { port_addr: 0x3f9, value: 0x00 });
}

#[test]
fn baud_selector_57600_encodes_divisor_2() {
    let mut uart = com1_uart(UartX86Baud::Baud57600, vec![0xae]);
    assert_eq!(uart.init(), Ok(()));
    assert_eq!(uart.pio.ops[2], PortOp::Write { port_addr: 0x3f8, value: 0x02 });
    assert_eq!(uart.pio.ops[3], PortOp::Write { port_addr: 0x3f9, value: 0x00 });
}

#[test]
fn baud_selector_115200_encodes_divisor_1() {
    let mut uart = com1_uart(UartX86Baud::Baud115200, vec![0xae]);
    assert_eq!(uart.init(), Ok(()));
    assert_eq!(uart.pio.ops[2], PortOp::Write { port_addr: 0x3f8, value: 0x01 });
    assert_eq!(uart.pio.ops[3], PortOp::Write { port_addr: 0x3f9, value: 0x00 });
}

#[test]
fn line_control_byte_encodes_frame_format() {
    // 7 data bits (2), 2 stop bits (1 << 2), even parity (2 << 3).
    let mut uart = UartX86::new(
        UartX86Port::Com1,
        UartX86Baud::Baud115200,
        UartX86DataBits::Bits7,
        UartX86StopBits::Bits2,
        UartX86Parity::Even,
        ScriptedPortIo::new(vec![0xae]),
    );
    assert_eq!(uart.init(), Ok(()));
    assert_eq!(uart.pio.ops[4], PortOp::Write { port_addr: 0x3fb, value: 0x16 });
}

#[test]
fn second_init_performs_no_hardware_access() {
    let mut uart = com1_uart(UartX86Baud::Baud38400, vec![0xae]);
    assert_eq!(uart.init(), Ok(()));
    let ops_after_first = uart.pio.ops.len();
    assert_eq!(uart.init(), Ok(()));
    assert_eq!(uart.pio.ops.len(), ops_after_first);
    assert!(uart.is_initialized());
}

#[test]
fn self_test_sentinel_returned_unchanged_succeeds() {
    let mut uart = com1_uart(UartX86Baud::Baud38400, vec![0xae]);
    assert_eq!(uart.init(), Ok(()));
    assert!(uart.is_initialized());
}

#[test]
fn self_test_mismatch_fails_with_hardware_fault() {
    let mut uart = com1_uart(UartX86Baud::Baud38400, vec![0x00]);
    assert_eq!(uart.init(), Err(Error::HardwareFault));
    assert!(!uart.is_initialized());
    // The sequence stopped at the read-back: no write leaving loopback mode.
    assert_eq!(uart.pio.ops.len(), 10);
    assert_eq!(uart.pio.ops[9], PortOp::Read { port_addr: 0x3f8, value: 0x00 });
}

#[test]
fn read_byte_before_init_touches_no_port() {
    let mut uart = com1_uart(UartX86Baud::Baud38400, vec![0x42]);
    assert_eq!(uart.read_byte(), Err(Error::UninitializedAccess));
    assert_eq!(uart.pio.ops.len(), 0);
}

#[test]
fn write_byte_before_init_touches_no_port() {
    let mut uart = com1_uart(UartX86Baud::Baud38400, vec![]);
    assert_eq!(uart.write_byte(0x41), Err(Error::UninitializedAccess));
    assert_eq!(uart.pio.ops.len(), 0);
}

#[test]
fn read_byte_returns_data_port_byte() {
    let mut uart = com1_uart(UartX86Baud::Baud38400, vec![0xae, 0x42]);
    assert_eq!(uart.init(), Ok(()));
    assert_eq!(uart.read_byte(), Ok(0x42));
    assert_eq!(
        *uart.pio.ops.last().unwrap(),
        PortOp::Read { port_addr: 0x3f8, value: 0x42 }
    );
}

#[test]
fn write_byte_writes_data_port() {
    let mut uart = com1_uart(UartX86Baud::Baud38400, vec![0xae]);
    assert_eq!(uart.init(), Ok(()));
    assert_eq!(uart.write_byte(0x5a), Ok(()));
    assert_eq!(
        *uart.pio.ops.last().unwrap(),
        PortOp::Write { port_addr: 0x3f8, value: 0x5a }
    );
}

#[test]
fn serial_write_str_writes_each_byte_in_order() {
    let mut uart = com1_uart(UartX86Baud::Baud38400, vec![0xae]);
    assert_eq!(uart.init(), Ok(()));
    let before = uart.pio.ops.len();
    assert_eq!(uart.serial_write_str("ok"), Ok(()));
    assert_eq!(uart.pio.ops.len(), before + 2);
    assert_eq!(uart.pio.ops[before], PortOp::Write { port_addr: 0x3f8, value: b'o' });
    assert_eq!(uart.pio.ops[before + 1], PortOp::Write { port_addr: 0x3f8, value: b'k' });
}

#[test]
fn serial_write_str_empty_string_succeeds_without_port_access() {
    let mut uart = com1_uart(UartX86Baud::Baud38400, vec![0xae]);
    assert_eq!(uart.init(), Ok(()));
    let before = uart.pio.ops.len();
    assert_eq!(uart.serial_write_str(""), Ok(()));
    assert_eq!(uart.pio.ops.len(), before);
}

#[test]
fn serial_write_str_before_init_fails() {
    let mut uart = com1_uart(UartX86Baud::Baud38400, vec![]);
    assert_eq!(uart.serial_write_str("hello"), Err(Error::UninitializedAccess));
    assert_eq!(uart.pio.ops.len(), 0);
}
