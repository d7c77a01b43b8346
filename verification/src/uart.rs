//! A driver for 16550-compatible UARTs, programmed through six I/O ports at
//! a base port address.
//!
//! The configuration — port, baud selector, data bits, stop bits, parity —
//! is captured at construction and applied only by `init`, which runs the
//! legacy-PC setup sequence and a loopback self-test. Every method's
//! contract states the exact port operations it appends to the bus
//! transcript, so the protocol itself — which ports, which bytes, in which
//! order — is proved, and the self-test decision is tied to the byte the
//! hardware actually returned.

use vstd::prelude::*;
use crate::error::Error;
use crate::port_io::{PortIo, PortOp};
use vstd::string::StringSliceAdditionalSpecFns;

verus! {

/// Control byte that enables and clears both FIFOs and sets their trigger
/// level to 14 bytes.
pub const FIFO_ENABLE_CLEAR_TRIGGER14: u8 = 0xc7;

/// Modem-control byte: interrupt requests enabled, RTS and DTR asserted.
pub const MODEM_IRQ_RTS_DTR: u8 = 0x0b;

/// Modem-control byte that puts the device in loopback mode for the
/// self-test.
pub const MODEM_LOOPBACK: u8 = 0x1e;

/// Modem-control byte that leaves loopback mode and enables interrupts and
/// the OUT1/OUT2 pins.
pub const MODEM_IRQ_OUT_PINS: u8 = 0x0f;

/// Line-control byte with only the divisor-latch-enable bit set, exposing
/// the baud-divisor registers.
pub const DIVISOR_LATCH_ENABLE: u8 = 0x80;

/// The sentinel byte written during the loopback self-test.
pub const LOOPBACK_TEST_VALUE: u8 = 0xae;

/// The transcript of writing `bytes` to the port `port_addr`, in order.
pub open spec fn spec_write_ops(port_addr: u16, bytes: Seq<u8>) -> Seq<PortOp> {
    Seq::new(bytes.len(), |j: int| PortOp::Write { port_addr, value: bytes[j] })
}

/// The base I/O port of a supported 16550 device.
#[derive(Copy, Clone, Debug, PartialEq, Eq, Structural)]
pub enum UartX86Port {
    Com1,
}

impl UartX86Port {
    /// The base port address of this device.
    pub open spec fn spec_number(self) -> u16 {
        match self {
            UartX86Port::Com1 => 0x3f8,
        }
    }

    pub fn number(self) -> (n: u16)
        ensures
            n == self.spec_number(),
    {
        match self {
            UartX86Port::Com1 => 0x3f8,
        }
    }
}

/// A supported baud rate, named by its rate and carrying the documented
/// 16-bit divisor that programs it.
#[derive(Copy, Clone, Debug, PartialEq, Eq, Structural)]
pub enum UartX86Baud {
    Baud115200,
    Baud57600,
    Baud38400,
}

impl UartX86Baud {
    /// The 16-bit baud divisor this selector encodes to.
    pub open spec fn spec_divisor(self) -> u16 {
        match self {
            UartX86Baud::Baud115200 => 1,
            UartX86Baud::Baud57600 => 2,
            UartX86Baud::Baud38400 => 3,
        }
    }

    pub fn divisor(self) -> (d: u16)
        ensures
            d == self.spec_divisor(),
    {
        match self {
            UartX86Baud::Baud115200 => 1,
            UartX86Baud::Baud57600 => 2,
            UartX86Baud::Baud38400 => 3,
        }
    }

    /// The low byte of the divisor, written to the first divisor register.
    pub open spec fn spec_divisor_low(self) -> u8 {
        (self.spec_divisor() & 0xff) as u8
    }

    /// The high byte of the divisor, written to the second divisor register.
    pub open spec fn spec_divisor_high(self) -> u8 {
        (self.spec_divisor() >> 8) as u8
    }
}

/// For every supported baud selector, the two bytes `init` writes to the
/// divisor registers are the little-endian split of that selector's
/// documented 16-bit divisor: the low byte is the divisor modulo 256, the
/// high byte is the divisor divided by 256, and together they recombine to
/// the divisor itself.
pub proof fn lemma_baud_divisor_bytes(baud: UartX86Baud)
    ensures
        baud.spec_divisor_low() == baud.spec_divisor() % 256,
        baud.spec_divisor_high() == baud.spec_divisor() / 256,
        baud.spec_divisor_low() + 256 * baud.spec_divisor_high() == baud.spec_divisor(),
{
    let d = baud.spec_divisor();
    assert(d == 1 || d == 2 || d == 3);
    assert(forall|x: u16|
        x <= 3 ==> (#[trigger] (x & 0xff)) == x % 256 && (x >> 8) == x / 256) by (bit_vector);
}

/// The number of data bits in a frame, as the two-bit line-control encoding.
#[derive(Copy, Clone, Debug, PartialEq, Eq, Structural)]
pub enum UartX86DataBits {
    Bits5,
    Bits6,
    Bits7,
    Bits8,
}

impl UartX86DataBits {
    pub open spec fn spec_encoding(self) -> u8 {
        match self {
            UartX86DataBits::Bits5 => 0,
            UartX86DataBits::Bits6 => 1,
            UartX86DataBits::Bits7 => 2,
            UartX86DataBits::Bits8 => 3,
        }
    }

    pub fn encoding(self) -> (e: u8)
        ensures
            e == self.spec_encoding(),
    {
        match self {
            UartX86DataBits::Bits5 => 0,
            UartX86DataBits::Bits6 => 1,
            UartX86DataBits::Bits7 => 2,
            UartX86DataBits::Bits8 => 3,
        }
    }
}

/// The number of stop bits in a frame, as the one-bit line-control encoding.
#[derive(Copy, Clone, Debug, PartialEq, Eq, Structural)]
pub enum UartX86StopBits {
    Bits1,
    Bits2,
}

impl UartX86StopBits {
    pub open spec fn spec_encoding(self) -> u8 {
        match self {
            UartX86StopBits::Bits1 => 0,
            UartX86StopBits::Bits2 => 1,
        }
    }

    pub fn encoding(self) -> (e: u8)
        ensures
            e == self.spec_encoding(),
    {
        match self {
            UartX86StopBits::Bits1 => 0,
            UartX86StopBits::Bits2 => 1,
        }
    }
}

/// The parity mode, as the three-bit line-control encoding.
#[derive(Copy, Clone, Debug, PartialEq, Eq, Structural)]
pub enum UartX86Parity {
    NoParity,
    Odd,
    Even,
    Mark,
    Space,
}

impl UartX86Parity {
    pub open spec fn spec_encoding(self) -> u8 {
        match self {
            UartX86Parity::NoParity => 0,
            UartX86Parity::Odd => 1,
            UartX86Parity::Even => 2,
            UartX86Parity::Mark => 3,
            UartX86Parity::Space => 4,
        }
    }

    pub fn encoding(self) -> (e: u8)
        ensures
            e == self.spec_encoding(),
    {
        match self {
            UartX86Parity::NoParity => 0,
            UartX86Parity::Odd => 1,
            UartX86Parity::Even => 2,
            UartX86Parity::Mark => 3,
            UartX86Parity::Space => 4,
        }
    }
}

/// A 16550-compatible UART bound to the port-I/O bus that reaches it.
pub struct UartX86<P: PortIo> {
    pub port: UartX86Port,
    pub baud: UartX86Baud,
    pub data_bits: UartX86DataBits,
    pub stop_bits: UartX86StopBits,
    pub parity: UartX86Parity,
    pub is_initialized: bool,
    /// Every byte accepted for transmission, in order. The loopback
    /// self-test sentinel is hardware probing, not accepted data, so
    /// `init` leaves this record untouched.
    pub sent: Ghost<Seq<u8>>,
    pub pio: P,
}

impl<P: PortIo> UartX86<P> {
    /// A device with the given configuration, not yet initialized; `pio` is
    /// the bus its ports live on.
    pub fn new(
        port: UartX86Port,
        baud: UartX86Baud,
        data_bits: UartX86DataBits,
        stop_bits: UartX86StopBits,
        parity: UartX86Parity,
        pio: P,
    ) -> (uart: UartX86<P>)
        ensures
            uart.port == port,
            uart.baud == baud,
            uart.data_bits == data_bits,
            uart.stop_bits == stop_bits,
            uart.parity == parity,
            !uart.is_initialized,
            uart.sent@ == Seq::<u8>::empty(),
            uart.pio == pio,
    {
        UartX86 {
            port,
            baud,
            data_bits,
            stop_bits,
            parity,
            is_initialized: false,
            sent: Ghost(Seq::empty()),
            pio,
        }
    }

    /// The device's base port address.
    pub open spec fn spec_port(self) -> u16 {
        self.port.spec_number()
    }

    /// The single line-control byte `init` writes: data bits in the low two
    /// bits, stop bits shifted into bit 2, parity shifted into bit 3. Its
    /// divisor-latch-enable bit is clear, so writing it also closes the
    /// divisor latch.
    pub open spec fn spec_line_control(self) -> u8 {
        self.data_bits.spec_encoding() | (self.stop_bits.spec_encoding() << 2) | (
        self.parity.spec_encoding() << 3)
    }

    /// The configuration does not change across a call.
    pub open spec fn same_config(pre: Self, post: Self) -> bool {
        &&& post.port == pre.port
        &&& post.baud == pre.baud
        &&& post.data_bits == pre.data_bits
        &&& post.stop_bits == pre.stop_bits
        &&& post.parity == pre.parity
    }

    /// The nine writes a first `init` performs before it reads the
    /// self-test byte back: interrupts off, divisor latch opened, the two
    /// divisor bytes, the line-control byte, FIFO setup, modem setup, and
    /// loopback entry, ending with the sentinel write.
    pub open spec fn spec_init_ops(self) -> Seq<PortOp> {
        let p = self.spec_port();
        seq![
            PortOp::Write { port_addr: (p + 1) as u16, value: 0x00 },
            PortOp::Write { port_addr: (p + 3) as u16, value: DIVISOR_LATCH_ENABLE },
            PortOp::Write { port_addr: p, value: self.baud.spec_divisor_low() },
            PortOp::Write { port_addr: (p + 1) as u16, value: self.baud.spec_divisor_high() },
            PortOp::Write { port_addr: (p + 3) as u16, value: self.spec_line_control() },
            PortOp::Write { port_addr: (p + 2) as u16, value: FIFO_ENABLE_CLEAR_TRIGGER14 },
            PortOp::Write { port_addr: (p + 4) as u16, value: MODEM_IRQ_RTS_DTR },
            PortOp::Write { port_addr: (p + 4) as u16, value: MODEM_LOOPBACK },
            PortOp::Write { port_addr: p, value: LOOPBACK_TEST_VALUE },
        ]
    }

    /// What a call of `init` on an un-initialized device does: the nine
    /// setup writes, one read of the data port, and — exactly when the read
    /// returned the sentinel unchanged — one write that leaves loopback
    /// mode, success, and an initialized device. On a mismatch the device
    /// stays un-initialized and the call reports a hardware fault. Either
    /// way these are the only operations: the transcript that was already
    /// there is preserved, and the lengths leave room for nothing else.
    pub open spec fn spec_first_init_post(pre: Self, post: Self, r: Result<(), Error>) -> bool {
        let n = pre.pio.log().len() as int;
        let log = post.pio.log();
        &&& Self::same_config(pre, post)
        &&& post.sent@ == pre.sent@
        &&& log.len() >= n + 10
        &&& log.subrange(0, n) == pre.pio.log()
        &&& log.subrange(n, n + 9) == pre.spec_init_ops()
        &&& log[n + 9] == (PortOp::Read {
            port_addr: pre.spec_port(),
            value: log[n + 9]->Read_value,
        })
        &&& if log[n + 9]->Read_value == LOOPBACK_TEST_VALUE {
            &&& r == Ok::<(), Error>(())
            &&& post.is_initialized
            &&& log.len() == n + 11
            &&& log[n + 10] == (PortOp::Write {
                port_addr: (pre.spec_port() + 4) as u16,
                value: MODEM_IRQ_OUT_PINS,
            })
        } else {
            &&& r == Err::<(), Error>(Error::HardwareFault)
            &&& !post.is_initialized
            &&& log.len() == n + 10
        }
    }
}

/// In every transcript a first `init` can leave behind — whatever the
/// self-test found — the two bytes it wrote to the divisor registers are
/// the documented little-endian encoding of the configured selector's
/// divisor: its low byte to the first divisor register, its high byte to
/// the second.
pub proof fn lemma_first_init_writes_documented_divisor<P: PortIo>(
    pre: UartX86<P>,
    post: UartX86<P>,
    r: Result<(), Error>,
)
    requires
        UartX86::<P>::spec_first_init_post(pre, post, r),
    ensures
        ({
            let n = pre.pio.log().len() as int;
            let log = post.pio.log();
            &&& log[n + 2] == (PortOp::Write {
                port_addr: pre.spec_port(),
                value: pre.baud.spec_divisor_low(),
            })
            &&& log[n + 3] == (PortOp::Write {
                port_addr: (pre.spec_port() + 1) as u16,
                value: pre.baud.spec_divisor_high(),
            })
        }),
{
    let n = pre.pio.log().len() as int;
    let log = post.pio.log();
    assert(log.subrange(n, n + 9)[2] == log[n + 2]);
    assert(log.subrange(n, n + 9)[3] == log[n + 3]);
}

impl<P: PortIo> crate::serial::Serial for UartX86<P> {
    open spec fn initialized_spec(&self) -> bool {
        self.is_initialized
    }

    open spec fn written(&self) -> Seq<u8> {
        self.sent@
    }

    /// Runs the 16550 setup sequence and loopback self-test. On an already
    /// initialized device the call succeeds immediately and performs no
    /// hardware access at all.
    fn init(&mut self) -> (r: Result<(), Error>)
        ensures
            old(self).is_initialized ==> r == Ok::<(), Error>(()) && *final(self) == *old(self),
            !old(self).is_initialized ==> Self::spec_first_init_post(*old(self), *final(self), r),
    {
        if self.is_initialized {
            return Ok(());
        }

        let port: u16 = self.port.number();

        // Disable interrupt generation.
        self.pio.outb(port + 1, 0x00);
        // Set divisor-latch-enable to expose the baud-divisor registers.
        self.pio.outb(port + 3, DIVISOR_LATCH_ENABLE);
        // Program the 16-bit baud divisor, low byte then high byte.
        let divisor: u16 = self.baud.divisor();
        self.pio.outb(port, (divisor & 0xff) as u8);
        self.pio.outb(port + 1, (divisor >> 8) as u8);
        // Data bits, stop bits and parity; this byte's latch bit is clear,
        // so it also closes the divisor latch.
        let mode: u8 = self.data_bits.encoding() | (self.stop_bits.encoding() << 2) | (
        self.parity.encoding() << 3);
        self.pio.outb(port + 3, mode);
        // Enable and clear both FIFOs, trigger level 14 bytes.
        self.pio.outb(port + 2, FIFO_ENABLE_CLEAR_TRIGGER14);
        // Enable interrupt requests, assert the RTS and DTR pins.
        self.pio.outb(port + 4, MODEM_IRQ_RTS_DTR);
        // Enter loopback mode to test the hardware.
        self.pio.outb(port + 4, MODEM_LOOPBACK);
        // Send the sentinel through the loop and read it back.
        self.pio.outb(port, LOOPBACK_TEST_VALUE);
        let readback: u8 = self.pio.inb(port);

        proof {
            let n = old(self).pio.log().len() as int;
            assert(self.pio.log().subrange(0, n) =~= old(self).pio.log());
            assert(self.pio.log().subrange(n, n + 9) =~= old(self).spec_init_ops());
        }

        if readback == LOOPBACK_TEST_VALUE {
            // Leave loopback mode; enable interrupts and the OUT1/OUT2 pins.
            self.pio.outb(port + 4, MODEM_IRQ_OUT_PINS);
            self.is_initialized = true;
            proof {
                let n = old(self).pio.log().len() as int;
                assert(self.pio.log().subrange(0, n) =~= old(self).pio.log());
                assert(self.pio.log().subrange(n, n + 9) =~= old(self).spec_init_ops());
            }
            Ok(())
        } else {
            Err(Error::HardwareFault)
        }
    }

    fn is_initialized(&self) -> (r: bool) {
        self.is_initialized
    }

    /// Reads one byte from the data port. Before a successful `init` the
    /// call fails and the bus is not touched.
    fn read_byte(&mut self) -> (r: Result<u8, Error>)
        ensures
            !old(self).is_initialized ==> *final(self) == *old(self) && r == Err::<u8, Error>(
                Error::UninitializedAccess,
            ),
            old(self).is_initialized ==> {
                &&& r is Ok
                &&& final(self).pio.log() == old(self).pio.log().push(
                    PortOp::Read { port_addr: old(self).spec_port(), value: r->Ok_0 },
                )
                &&& Self::same_config(*old(self), *final(self))
                &&& final(self).is_initialized
            },
    {
        if !self.is_initialized {
            return Err(Error::UninitializedAccess);
        }
        let port: u16 = self.port.number();
        let value: u8 = self.pio.inb(port);
        Ok(value)
    }

    /// Writes one byte to the data port. Before a successful `init` the
    /// call fails and the bus is not touched.
    fn write_byte(&mut self, value: u8) -> (r: Result<(), Error>)
        ensures
            !old(self).is_initialized ==> *final(self) == *old(self) && r == Err::<(), Error>(
                Error::UninitializedAccess,
            ),
            old(self).is_initialized ==> {
                &&& r == Ok::<(), Error>(())
                &&& final(self).pio.log() == old(self).pio.log().push(
                    PortOp::Write { port_addr: old(self).spec_port(), value },
                )
                &&& Self::same_config(*old(self), *final(self))
                &&& final(self).is_initialized
            },
    {
        if !self.is_initialized {
            return Err(Error::UninitializedAccess);
        }
        let port: u16 = self.port.number();
        self.pio.outb(port, value);
        proof {
            self.sent@ = self.sent@.push(value);
        }
        Ok(())
    }

    /// Writes every byte of `value` to the data port, in order.
    fn serial_write_str(&mut self, value: &str) -> (r: Result<(), Error>)
        ensures
            !old(self).is_initialized ==> *final(self) == *old(self) && r == Err::<(), Error>(
                Error::UninitializedAccess,
            ),
            old(self).is_initialized ==> {
                &&& r == Ok::<(), Error>(())
                &&& final(self).pio.log() == old(self).pio.log() + spec_write_ops(
                    old(self).spec_port(),
                    value.spec_bytes(),
                )
                &&& Self::same_config(*old(self), *final(self))
                &&& final(self).is_initialized
            },
    {
        if !self.is_initialized {
            return Err(Error::UninitializedAccess);
        }
        let bytes: &[u8] = value.as_bytes();
        let mut i: usize = 0;
        while i < bytes.len()
            invariant
                i <= bytes@.len(),
                bytes@ == value.spec_bytes(),
                self.is_initialized,
                Self::same_config(*old(self), *self),
                self.sent@ == old(self).sent@ + bytes@.subrange(0, i as int),
                self.pio.log() == old(self).pio.log() + spec_write_ops(
                    old(self).spec_port(),
                    bytes@.subrange(0, i as int),
                ),
            decreases bytes@.len() - i,
        {
            let ghost pre = *self;
            match self.write_byte(bytes[i]) {
                Ok(()) => {},
                Err(e) => {
                    return Err(e);
                },
            }
            proof {
                assert(pre.spec_port() == old(self).spec_port());
                assert(self.sent@ =~= old(self).sent@ + bytes@.subrange(0, i + 1));
                assert(self.pio.log() =~= old(self).pio.log() + spec_write_ops(
                    old(self).spec_port(),
                    bytes@.subrange(0, i + 1),
                ));
            }
            i = i + 1;
        }
        proof {
            assert(bytes@.subrange(0, bytes@.len() as int) =~= bytes@);
            assert(self.sent@ =~= old(self).sent@ + value.spec_bytes());
            assert(self.pio.log() =~= old(self).pio.log() + spec_write_ops(
                old(self).spec_port(),
                value.spec_bytes(),
            ));
        }
        Ok(())
    }
}

} // verus!
