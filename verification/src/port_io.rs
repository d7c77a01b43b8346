//! Port-level I/O primitives: single-byte reads and writes addressed by a
//! 16-bit port number.
//!
//! The hardware itself offers no error reporting and no semantics beyond the
//! transfer, so the boundary is modelled as a transcript: a [`PortIo`]
//! implementation carries the history of every operation performed on it,
//! and the driver contracts above it say exactly which operations a call
//! appends. What a read returns is never constrained — that is the
//! hardware's choice — but every driver decision taken on it is.

use vstd::prelude::*;

verus! {

/// A single byte transferred over the port space, as recorded in a bus
/// transcript.
#[derive(Copy, Clone, Debug, PartialEq, Eq, Structural)]
pub enum PortOp {
    Read { port_addr: u16, value: u8 },
    Write { port_addr: u16, value: u8 },
}

/// One byte in, one byte out: the two operations the port space offers.
///
/// `log` is the full history of operations performed through this bus;
/// `inb` and `outb` each append exactly one entry. The value a read
/// returns is deliberately left open.
pub trait PortIo {
    /// The transcript. A bus that cannot observe itself — real hardware —
    /// may leave the default, the empty history.
    open spec fn log(&self) -> Seq<PortOp> {
        Seq::empty()
    }

    fn inb(&mut self, port_addr: u16) -> (value: u8)
        ensures
            final(self).log() == old(self).log().push(PortOp::Read { port_addr, value }),
    ;

    fn outb(&mut self, port_addr: u16, value: u8)
        ensures
            final(self).log() == old(self).log().push(PortOp::Write { port_addr, value }),
    ;
}

/// An in-memory port space: reads consume a scripted list of response
/// bytes (and return 0 once it is exhausted), writes go nowhere, and the
/// transcript keeps everything. It stands in for the hardware when a
/// driver is exercised on a host with no device behind the port.
pub struct ScriptedPortIo {
    pub ops: Vec<PortOp>,
    pub responses: Vec<u8>,
    pub cursor: usize,
}

impl ScriptedPortIo {
    /// A bus whose next reads will return `responses`, in order.
    pub fn new(responses: Vec<u8>) -> (bus: ScriptedPortIo)
        ensures
            bus.log() == Seq::<PortOp>::empty(),
            bus.responses@ == responses@,
            bus.cursor == 0,
    {
        ScriptedPortIo { ops: Vec::new(), responses, cursor: 0 }
    }
}

impl PortIo for ScriptedPortIo {
    open spec fn log(&self) -> Seq<PortOp> {
        self.ops@
    }

    fn inb(&mut self, port_addr: u16) -> (value: u8)
        ensures
            final(self).responses@ == old(self).responses@,
            old(self).cursor < old(self).responses@.len() ==> value == old(self).responses@[old(
                self,
            ).cursor as int] && final(self).cursor == old(self).cursor + 1,
            old(self).cursor >= old(self).responses@.len() ==> value == 0 && final(self).cursor
                == old(self).cursor,
    {
        let value: u8 = if self.cursor < self.responses.len() {
            let v: u8 = self.responses[self.cursor];
            self.cursor = self.cursor + 1;
            v
        } else {
            0
        };
        self.ops.push(PortOp::Read { port_addr, value });
        value
    }

    fn outb(&mut self, port_addr: u16, value: u8)
        ensures
            final(self).responses@ == old(self).responses@,
            final(self).cursor == old(self).cursor,
    {
        self.ops.push(PortOp::Write { port_addr, value });
    }
}

} // verus!
