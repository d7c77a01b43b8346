//! The register access layer: a typed view of a device's register block.
//!
//! A register is a 16-bit word at a fixed byte offset from the device's
//! base address; a [`Bitfield`] names a sub-range of its bits. As at the
//! port level, the hardware boundary is a transcript: a [`RegisterIo`]
//! implementation records every register read and write, and
//! [`modify_field`] is proved to perform a single read-modify-write that
//! rewrites only the named field's bits.

use vstd::prelude::*;

verus! {

/// A named sub-range of bits within a 16-bit register: `width` bits
/// starting at bit `bit`.
#[derive(Copy, Clone, Debug, PartialEq, Eq, Structural)]
pub struct Bitfield {
    pub bit: u16,
    pub width: u16,
}

impl Bitfield {
    /// A well-formed field lies inside the register.
    pub open spec fn wf(self) -> bool {
        1 <= self.width && self.bit + self.width <= 16
    }

    /// The mask selecting exactly this field's bits.
    pub open spec fn spec_mask(self) -> u16 {
        ((((1u32 << self.width) - 1) as u32) << self.bit) as u16
    }

    pub fn mask(self) -> (m: u16)
        requires
            self.wf(),
        ensures
            m == self.spec_mask(),
    {
        proof {
            let width = self.width;
            assert(1u32 << width >= 1) by (bit_vector)
                requires
                    width <= 16,
            ;
        }
        #[verifier::truncate] (((((1u32 << self.width) - 1) as u32) << self.bit) as u16)
    }

    /// The field's value in the register word `reg`.
    pub open spec fn spec_get(self, reg: u16) -> u16 {
        (reg & self.spec_mask()) >> self.bit
    }

    pub fn get(self, reg: u16) -> (v: u16)
        requires
            self.wf(),
        ensures
            v == self.spec_get(reg),
    {
        (reg & self.mask()) >> self.bit
    }

    /// The register word `reg` with this field rewritten to `value` and
    /// every other bit unchanged.
    pub open spec fn spec_set(self, reg: u16, value: u16) -> u16 {
        (reg & !self.spec_mask()) | ((value << self.bit) & self.spec_mask())
    }

    pub fn set(self, reg: u16, value: u16) -> (r: u16)
        requires
            self.wf(),
        ensures
            r == self.spec_set(reg, value),
    {
        let m: u16 = self.mask();
        (reg & !m) | ((value << self.bit) & m)
    }
}

/// Writing a field reads back unchanged, as long as the value fits the
/// field's width.
pub proof fn lemma_field_set_then_get(f: Bitfield, reg: u16, value: u16)
    requires
        f.wf(),
        value < (1u32 << f.width),
    ensures
        f.spec_get(f.spec_set(reg, value)) == value,
{
    let bit = f.bit;
    let width = f.width;
    let mask = f.spec_mask();
    assert(((reg & !mask) | ((value << bit) & mask)) & mask == (value << bit) & mask) by (bit_vector)
        requires
            mask == ((((1u32 << width) - 1) as u32) << bit) as u16,
            bit + width <= 16,
            1 <= width,
    ;
    assert((((value << bit) & mask) >> bit) == value) by (bit_vector)
        requires
            mask == ((((1u32 << width) - 1) as u32) << bit) as u16,
            bit + width <= 16,
            1 <= width,
            value < (1u32 << width),
    ;
}

/// A field's value always fits the field's width.
pub proof fn lemma_field_get_bounded(f: Bitfield, reg: u16)
    requires
        f.wf(),
    ensures
        f.spec_get(reg) < (1u32 << f.width),
{
    let bit = f.bit;
    let width = f.width;
    let mask = f.spec_mask();
    assert((reg & mask) >> bit < (1u32 << width)) by (bit_vector)
        requires
            mask == ((((1u32 << width) - 1) as u32) << bit) as u16,
            bit + width <= 16,
            1 <= width,
    ;
}

/// Writing one field leaves every disjoint field unchanged: `modify`
/// touches only the bits it names.
pub proof fn lemma_field_set_preserves_disjoint(f: Bitfield, g: Bitfield, reg: u16, value: u16)
    requires
        f.wf(),
        g.wf(),
        g.bit + g.width <= f.bit || f.bit + f.width <= g.bit,
    ensures
        g.spec_get(f.spec_set(reg, value)) == g.spec_get(reg),
{
    let fbit = f.bit;
    let fwidth = f.width;
    let gbit = g.bit;
    let gwidth = g.width;
    let fmask = f.spec_mask();
    let gmask = g.spec_mask();
    assert((((reg & !fmask) | ((value << fbit) & fmask)) & gmask) >> gbit == (reg & gmask) >> gbit)
        by (bit_vector)
        requires
            fmask == ((((1u32 << fwidth) - 1) as u32) << fbit) as u16,
            gmask == ((((1u32 << gwidth) - 1) as u32) << gbit) as u16,
            fbit + fwidth <= 16,
            gbit + gwidth <= 16,
            1 <= fwidth,
            1 <= gwidth,
            gbit + gwidth <= fbit || fbit + fwidth <= gbit,
    ;
}

/// A single 16-bit transfer on a device's register block, as recorded in
/// a bus transcript. Offsets are byte offsets from the device base.
#[derive(Copy, Clone, Debug, PartialEq, Eq, Structural)]
pub enum RegOp {
    Read { offset: u16, value: u16 },
    Write { offset: u16, value: u16 },
}

/// True if any operation in `ops` writes to the register at `offset`.
pub open spec fn writes_reg(ops: Seq<RegOp>, offset: u16) -> bool {
    exists|i: int|
        0 <= i < ops.len() && ((#[trigger] ops[i]) matches RegOp::Write { offset: o, .. } && o
            == offset)
}

/// Register-block access: 16-bit reads and writes at byte offsets.
///
/// `log` is the full history of operations performed through this bus;
/// `read_reg` and `write_reg` each append exactly one entry, and the value
/// a read returns is deliberately left open — it is the device's choice.
pub trait RegisterIo {
    /// The transcript. A bus that cannot observe itself — real hardware —
    /// may leave the default, the empty history.
    open spec fn log(&self) -> Seq<RegOp> {
        Seq::empty()
    }

    fn read_reg(&mut self, offset: u16) -> (value: u16)
        ensures
            final(self).log() == old(self).log().push(RegOp::Read { offset, value }),
    ;

    fn write_reg(&mut self, offset: u16, value: u16)
        ensures
            final(self).log() == old(self).log().push(RegOp::Write { offset, value }),
    ;
}

/// The pair of transcript entries at `j` and `j + 1` is one
/// read-modify-write of the register at `offset` that rewrote only the
/// field `f`, to `value`.
pub open spec fn is_read_modify_write(
    log: Seq<RegOp>,
    j: int,
    offset: u16,
    f: Bitfield,
    value: u16,
) -> bool {
    &&& log[j] == (RegOp::Read { offset, value: log[j]->Read_value })
    &&& log[j + 1] == (RegOp::Write { offset, value: f.spec_set(log[j]->Read_value, value) })
}

/// Reads the register at `offset` and rewrites only the bits of `f` to
/// `value`, as one read followed by one write.
pub fn modify_field<R: RegisterIo>(regs: &mut R, offset: u16, f: Bitfield, value: u16)
    requires
        f.wf(),
    ensures
        ({
            let n = old(regs).log().len() as int;
            let log = final(regs).log();
            &&& log.len() == n + 2
            &&& log.subrange(0, n) == old(regs).log()
            &&& (forall|j: int| 0 <= j < n ==> log[j] == old(regs).log()[j])
            &&& is_read_modify_write(log, n, offset, f, value)
        }),
{
    let current: u16 = regs.read_reg(offset);
    let updated: u16 = f.set(current, value);
    regs.write_reg(offset, updated);
    proof {
        let n = old(regs).log().len() as int;
        assert(regs.log().subrange(0, n) =~= old(regs).log());
    }
}

/// An in-memory register block: reads consume a scripted list of response
/// words (and return 0 once it is exhausted), writes go nowhere, and the
/// transcript keeps everything. It stands in for the hardware when a
/// driver is exercised on a host with no device behind the registers.
pub struct ScriptedRegisterIo {
    pub ops: Vec<RegOp>,
    pub responses: Vec<u16>,
    pub cursor: usize,
}

impl ScriptedRegisterIo {
    /// A bus whose next reads will return `responses`, in order.
    pub fn new(responses: Vec<u16>) -> (bus: ScriptedRegisterIo)
        ensures
            bus.log() == Seq::<RegOp>::empty(),
            bus.responses@ == responses@,
            bus.cursor == 0,
    {
        ScriptedRegisterIo { ops: Vec::new(), responses, cursor: 0 }
    }
}

impl RegisterIo for ScriptedRegisterIo {
    open spec fn log(&self) -> Seq<RegOp> {
        self.ops@
    }

    fn read_reg(&mut self, offset: u16) -> (value: u16)
        ensures
            final(self).responses@ == old(self).responses@,
            old(self).cursor < old(self).responses@.len() ==> value == old(self).responses@[old(
                self,
            ).cursor as int] && final(self).cursor == old(self).cursor + 1,
            old(self).cursor >= old(self).responses@.len() ==> value == 0 && final(self).cursor
                == old(self).cursor,
    {
        let value: u16 = if self.cursor < self.responses.len() {
            let v: u16 = self.responses[self.cursor];
            self.cursor = self.cursor + 1;
            v
        } else {
            0
        };
        self.ops.push(RegOp::Read { offset, value });
        value
    }

    fn write_reg(&mut self, offset: u16, value: u16)
        ensures
            final(self).responses@ == old(self).responses@,
            final(self).cursor == old(self).cursor,
    {
        self.ops.push(RegOp::Write { offset, value });
    }
}

} // verus!
