//! A driver for ARM PrimeCell PL011-style UARTs, programmed through a
//! memory-mapped register block.
//!
//! `init` runs the manual's enable sequence: disable the device, busy-wait
//! (with a fixed poll bound — no clock exists yet) for the current
//! character to finish, flush the FIFOs, reprogram control and baud
//! registers, and re-enable. Every contract states the exact register
//! operations appended to the bus transcript, so a failed wait is proved to
//! leave the device `Faulted` with the baud divisor registers untouched.
//!
//! The driver exposes no read path: this family is used as a write-only
//! diagnostic channel.

use vstd::prelude::*;
use crate::error::Error;
use crate::registers::{Bitfield, RegOp, RegisterIo, is_read_modify_write, modify_field, writes_reg};
use vstd::string::StringSliceAdditionalSpecFns;

verus! {

/// Byte offset of the data register.
pub const UART_DR: u16 = 0x000;

/// Byte offset of the flag register (read-only).
pub const UART_FR: u16 = 0x018;

/// Byte offset of the integer baud-rate divisor register.
pub const UART_IBRD: u16 = 0x024;

/// Byte offset of the fractional baud-rate divisor register.
pub const UART_FBRD: u16 = 0x028;

/// Byte offset of the line-control register.
pub const UART_LCR_H: u16 = 0x02c;

/// Byte offset of the control register.
pub const UART_CR: u16 = 0x030;

/// Control register: UART enable bit.
pub const CR_UARTEN: u16 = 0;

/// Control register: loopback enable bit.
pub const CR_LBE: u16 = 7;

/// Control register: transmit enable bit.
pub const CR_TXE: u16 = 8;

/// Control register: receive enable bit.
pub const CR_RXE: u16 = 9;

/// Flag register: transmission/reception in progress.
pub const FR_BUSY: u16 = 3;

/// Line-control register: FIFO enable bit.
pub const LCR_FEN: u16 = 4;

/// Data register: overrun error bit.
pub const DR_OE: u16 = 11;

/// Integer baud divisor for 115200 baud from a 48 MHz input clock:
/// 48000000 / (16 * 115200) = 26.0417, integer part 26.
pub const BAUD_DIVISOR_INT: u16 = 26;

/// Fractional baud divisor for the same rate: round(0.0417 * 64) = 3.
pub const BAUD_DIVISOR_FRAC: u16 = 3;

/// How many times the busy flag is polled before `init` gives up. With no
/// clock or timer available this early, an iteration count is the only
/// timeout mechanism there is.
pub const BUSY_POLL_BOUND: usize = 255;

/// The UART-enable field of the control register.
pub open spec fn cr_uarten() -> Bitfield {
    Bitfield { bit: CR_UARTEN, width: 1 }
}

/// The loopback-enable field of the control register.
pub open spec fn cr_lbe() -> Bitfield {
    Bitfield { bit: CR_LBE, width: 1 }
}

/// The transmit-enable field of the control register.
pub open spec fn cr_txe() -> Bitfield {
    Bitfield { bit: CR_TXE, width: 1 }
}

/// The receive-enable field of the control register.
pub open spec fn cr_rxe() -> Bitfield {
    Bitfield { bit: CR_RXE, width: 1 }
}

/// The busy field of the flag register.
pub open spec fn fr_busy() -> Bitfield {
    Bitfield { bit: FR_BUSY, width: 1 }
}

/// The FIFO-enable field of the line-control register.
pub open spec fn lcr_fen() -> Bitfield {
    Bitfield { bit: LCR_FEN, width: 1 }
}

/// The overrun-error field of the data register.
pub open spec fn dr_oe() -> Bitfield {
    Bitfield { bit: DR_OE, width: 1 }
}

/// Whether a flag-register value has the busy bit set.
pub open spec fn spec_busy(v: u16) -> bool {
    fr_busy().spec_get(v) == 1
}

/// Whether a data-register value has the overrun-error bit set.
pub open spec fn spec_overrun(v: u16) -> bool {
    dr_oe().spec_get(v) == 1
}

/// The control-register value after step 4 of `init`: receive and transmit
/// enabled, loopback disabled, all other bits kept.
pub open spec fn spec_enable_config(c: u16) -> u16 {
    cr_rxe().spec_set(cr_txe().spec_set(cr_lbe().spec_set(c, 0), 1), 1)
}

/// The control value `init` reprograms has exactly the named bits changed:
/// receive-enable and transmit-enable are set, loopback-enable is cleared,
/// and every other field — the UART-enable bit among them — keeps the
/// value that was read back.
pub proof fn lemma_enable_config_bits(c: u16)
    ensures
        cr_rxe().spec_get(spec_enable_config(c)) == 1,
        cr_txe().spec_get(spec_enable_config(c)) == 1,
        cr_lbe().spec_get(spec_enable_config(c)) == 0,
        cr_uarten().spec_get(spec_enable_config(c)) == cr_uarten().spec_get(c),
{
    assert(1u32 < (1u32 << 1u16)) by (bit_vector);
    let after_lbe = cr_lbe().spec_set(c, 0);
    let after_txe = cr_txe().spec_set(after_lbe, 1);
    crate::registers::lemma_field_set_then_get(cr_rxe(), after_txe, 1);
    crate::registers::lemma_field_set_then_get(cr_txe(), after_lbe, 1);
    crate::registers::lemma_field_set_preserves_disjoint(cr_rxe(), cr_txe(), after_txe, 1);
    crate::registers::lemma_field_set_then_get(cr_lbe(), c, 0);
    crate::registers::lemma_field_set_preserves_disjoint(cr_txe(), cr_lbe(), after_lbe, 1);
    crate::registers::lemma_field_set_preserves_disjoint(cr_rxe(), cr_lbe(), after_txe, 1);
    crate::registers::lemma_field_set_preserves_disjoint(cr_lbe(), cr_uarten(), c, 0);
    crate::registers::lemma_field_set_preserves_disjoint(cr_txe(), cr_uarten(), after_lbe, 1);
    crate::registers::lemma_field_set_preserves_disjoint(cr_rxe(), cr_uarten(), after_txe, 1);
}

/// The lifecycle of a device: never touched, failed during `init`, or
/// enabled by a completed `init`.
#[derive(Copy, Clone, Debug, PartialEq, Eq, Structural)]
pub enum UartDeviceState {
    Uninitialized,
    Faulted,
    Enabled,
}

/// A PL011-style UART bound to the register bus that reaches its block.
pub struct Pl011Uart<R: RegisterIo> {
    pub regs: R,
    pub state: UartDeviceState,
}

impl<R: RegisterIo> Pl011Uart<R> {
    /// A driver for the device whose register block `regs` reaches; the
    /// device starts un-initialized.
    pub fn new(regs: R) -> (uart: Pl011Uart<R>)
        ensures
            uart.regs == regs,
            uart.state == UartDeviceState::Uninitialized,
    {
        Pl011Uart { regs, state: UartDeviceState::Uninitialized }
    }

    /// The first `m` transcript entries after the disable step are reads of
    /// the flag register, and every one of them but possibly the last found
    /// the device still busy.
    pub open spec fn spec_init_polls(log: Seq<RegOp>, n: int, m: int) -> bool {
        forall|j: int|
            0 <= j < m ==> {
                &&& (#[trigger] log[n + 2 + j]) == (RegOp::Read {
                    offset: UART_FR,
                    value: log[n + 2 + j]->Read_value,
                })
                &&& (j < m - 1 ==> spec_busy(log[n + 2 + j]->Read_value))
            }
    }

    /// The ten transcript entries starting at `i` are the configuration
    /// tail of a successful `init`: FIFO flush, control reprogramming,
    /// FIFO re-enable, both baud divisor writes, and the final enable.
    pub open spec fn spec_init_config_tail(log: Seq<RegOp>, i: int) -> bool {
        &&& is_read_modify_write(log, i, UART_LCR_H, lcr_fen(), 0)
        &&& log[i + 2] == (RegOp::Read { offset: UART_CR, value: log[i + 2]->Read_value })
        &&& log[i + 3] == (RegOp::Write {
            offset: UART_CR,
            value: spec_enable_config(log[i + 2]->Read_value),
        })
        &&& is_read_modify_write(log, i + 4, UART_LCR_H, lcr_fen(), 1)
        &&& log[i + 6] == (RegOp::Write { offset: UART_IBRD, value: BAUD_DIVISOR_INT })
        &&& log[i + 7] == (RegOp::Write { offset: UART_FBRD, value: BAUD_DIVISOR_FRAC })
        &&& is_read_modify_write(log, i + 8, UART_CR, cr_uarten(), 1)
    }

    /// What `init` does, for either outcome.
    ///
    /// Both begin by clearing the UART-enable bit and polling the busy
    /// flag. On success some poll (the `m`-th, within the bound) found the
    /// flag clear and the configuration tail follows, ending with the
    /// enable write; the device is `Enabled`. On timeout every one of the
    /// `BUSY_POLL_BOUND` polls found the flag set, nothing follows them —
    /// in particular the baud divisor registers are never written — and
    /// the device is `Faulted`.
    pub open spec fn spec_init_post(pre: Self, post: Self, r: Result<(), Error>) -> bool {
        let n = pre.regs.log().len() as int;
        let log = post.regs.log();
        &&& log.len() >= n + 2
        &&& log.subrange(0, n) == pre.regs.log()
        &&& is_read_modify_write(log, n, UART_CR, cr_uarten(), 0)
        &&& match r {
            Ok(()) => {
                &&& post.state == UartDeviceState::Enabled
                &&& exists|m: int|
                    {
                        &&& 1 <= m <= BUSY_POLL_BOUND
                        &&& #[trigger] Self::spec_init_polls(log, n, m)
                        &&& !spec_busy(log[n + 1 + m]->Read_value)
                        &&& log.len() == n + 12 + m
                        &&& Self::spec_init_config_tail(log, n + 2 + m)
                    }
            },
            Err(e) => {
                &&& e == Error::Timeout
                &&& post.state == UartDeviceState::Faulted
                &&& log.len() == n + 2 + BUSY_POLL_BOUND
                &&& Self::spec_init_polls(log, n, BUSY_POLL_BOUND as int)
                &&& spec_busy(log[n + 1 + BUSY_POLL_BOUND]->Read_value)
                &&& !writes_reg(log.subrange(n, log.len() as int), UART_IBRD)
                &&& !writes_reg(log.subrange(n, log.len() as int), UART_FBRD)
            },
        }
    }

    /// Runs the PL011 enable protocol: disable, bounded busy-wait, FIFO
    /// flush, reconfigure, program the baud divisor, enable. Any early
    /// return leaves the device `Faulted` and un-enabled.
    pub fn init(&mut self) -> (r: Result<(), Error>)
        ensures
            Self::spec_init_post(*old(self), *final(self), r),
    {
        let ghost n = old(self).regs.log().len() as int;

        // 1. Disable the UART.
        modify_field(&mut self.regs, UART_CR, Bitfield { bit: CR_UARTEN, width: 1 }, 0);

        // 2. Busy-wait for the end of transmission or reception of the
        // current character, polling the flag register at most
        // BUSY_POLL_BOUND times.
        let mut polls: usize = 0;
        let mut cleared: bool = false;
        while polls < BUSY_POLL_BOUND && !cleared
            invariant
                polls <= BUSY_POLL_BOUND,
                n == old(self).regs.log().len(),
                self.regs.log().len() == n + 2 + polls,
                forall|j: int| 0 <= j < n ==> self.regs.log()[j] == old(self).regs.log()[j],
                is_read_modify_write(self.regs.log(), n, UART_CR, cr_uarten(), 0),
                Self::spec_init_polls(self.regs.log(), n, polls as int),
                cleared ==> polls >= 1 && !spec_busy(self.regs.log()[n + 1 + polls]->Read_value),
                !cleared ==> (forall|j: int|
                    0 <= j < polls ==> spec_busy(
                        (#[trigger] self.regs.log()[n + 2 + j])->Read_value,
                    )),
            decreases BUSY_POLL_BOUND - polls,
        {
            let ghost log0 = self.regs.log();
            let value: u16 = self.regs.read_reg(UART_FR);
            polls = polls + 1;
            let busy_now: u16 = Bitfield { bit: FR_BUSY, width: 1 }.get(value);
            proof {
                crate::registers::lemma_field_get_bounded(
                    Bitfield { bit: FR_BUSY, width: 1 },
                    value,
                );
                assert((1u32 << 1u16) == 2) by (bit_vector);
            }
            if busy_now == 0 {
                cleared = true;
            }
            proof {
                let log1 = self.regs.log();
                if !cleared {
                    assert forall|j: int| 0 <= j < polls implies spec_busy(
                        (#[trigger] log1[n + 2 + j])->Read_value,
                    ) by {
                        if j < polls - 1 {
                            assert(log1[n + 2 + j] == log0[n + 2 + j]);
                            assert(spec_busy((log0[n + 2 + j])->Read_value));
                        } else {
                            assert(log1[n + 2 + j] == (RegOp::Read { offset: UART_FR, value }));
                        }
                    }
                }
            }
        }

        if !cleared {
            // The flag never cleared within the bound: declare a timeout
            // and leave the device faulted, with nothing reprogrammed.
            self.state = UartDeviceState::Faulted;
            proof {
                let log = self.regs.log();
                assert(log.subrange(0, n) =~= old(self).regs.log());
                assert(spec_busy((log[n + 2 + (BUSY_POLL_BOUND - 1) as int])->Read_value));
                assert(n + 2 + (BUSY_POLL_BOUND - 1) as int == n + 1 + BUSY_POLL_BOUND);
                let delta = log.subrange(n, log.len() as int);
                assert forall|i: int| 0 <= i < delta.len() implies !((#[trigger] delta[i]) matches RegOp::Write {
                    offset: o,
                    ..
                } && (o == UART_IBRD || o == UART_FBRD)) by {
                    assert(delta[i] == log[n + i]);
                    if i >= 2 {
                        let j = i - 2;
                        assert(log[n + 2 + j] == (RegOp::Read {
                            offset: UART_FR,
                            value: log[n + 2 + j]->Read_value,
                        }));
                        assert(log[n + i] == log[n + 2 + j]);
                    }
                }
            }
            return Err(Error::Timeout);
        }

        // 3. Flush the transmit FIFO.
        modify_field(&mut self.regs, UART_LCR_H, Bitfield { bit: LCR_FEN, width: 1 }, 0);

        // 4. Reprogram the control register: enable receive and transmit,
        // disable loopback, in one read-modify-write.
        let control: u16 = self.regs.read_reg(UART_CR);
        let reconfigured: u16 = Bitfield { bit: CR_RXE, width: 1 }.set(
            Bitfield { bit: CR_TXE, width: 1 }.set(
                Bitfield { bit: CR_LBE, width: 1 }.set(control, 0),
                1,
            ),
            1,
        );
        self.regs.write_reg(UART_CR, reconfigured);

        // Re-enable the FIFOs.
        modify_field(&mut self.regs, UART_LCR_H, Bitfield { bit: LCR_FEN, width: 1 }, 1);

        // Program the baud divisor for the fixed target rate.
        self.regs.write_reg(UART_IBRD, BAUD_DIVISOR_INT);
        self.regs.write_reg(UART_FBRD, BAUD_DIVISOR_FRAC);

        // 5. Enable the UART.
        modify_field(&mut self.regs, UART_CR, Bitfield { bit: CR_UARTEN, width: 1 }, 1);

        self.state = UartDeviceState::Enabled;
        proof {
            let log = self.regs.log();
            assert(log.subrange(0, n) =~= old(self).regs.log());
            assert(Self::spec_init_polls(log, n, polls as int));
            assert(!spec_busy(log[n + 1 + polls]->Read_value));
            assert(Self::spec_init_config_tail(log, n + 2 + polls));
        }
        Ok(())
    }

    /// What `write_byte` does on an enabled device: one read of the data
    /// register; if its overrun-error bit was set, nothing more and an
    /// `Overrun` failure; otherwise one write of the byte.
    pub open spec fn spec_write_byte_post(
        pre: Self,
        post: Self,
        value: u8,
        r: Result<(), Error>,
    ) -> bool {
        let n = pre.regs.log().len() as int;
        let log = post.regs.log();
        &&& post.state == pre.state
        &&& log.len() >= n + 1
        &&& log.subrange(0, n) == pre.regs.log()
        &&& (forall|j: int| 0 <= j < n ==> log[j] == pre.regs.log()[j])
        &&& log[n] == (RegOp::Read { offset: UART_DR, value: log[n]->Read_value })
        &&& if spec_overrun(log[n]->Read_value) {
            &&& r == Err::<(), Error>(Error::Overrun)
            &&& log.len() == n + 1
        } else {
            &&& r == Ok::<(), Error>(())
            &&& log.len() == n + 2
            &&& log[n + 1] == (RegOp::Write { offset: UART_DR, value: value as u16 })
        }
    }

    /// Writes one byte without blocking: if the data register reports an
    /// overrun error the call fails at once with `Overrun` rather than
    /// waiting or retrying. Before a successful `init` the call fails and
    /// the bus is not touched.
    pub fn write_byte(&mut self, value: u8) -> (r: Result<(), Error>)
        ensures
            old(self).state != UartDeviceState::Enabled ==> *final(self) == *old(self) && r
                == Err::<(), Error>(Error::UninitializedAccess),
            old(self).state == UartDeviceState::Enabled ==> Self::spec_write_byte_post(
                *old(self),
                *final(self),
                value,
                r,
            ),
    {
        if self.state != UartDeviceState::Enabled {
            return Err(Error::UninitializedAccess);
        }
        let status: u16 = self.regs.read_reg(UART_DR);
        let overrun: u16 = Bitfield { bit: DR_OE, width: 1 }.get(status);
        proof {
            crate::registers::lemma_field_get_bounded(Bitfield { bit: DR_OE, width: 1 }, status);
            assert((1u32 << 1u16) == 2) by (bit_vector);
            assert(self.regs.log().subrange(0, old(self).regs.log().len() as int)
                =~= old(self).regs.log());
        }
        if overrun != 0 {
            return Err(Error::Overrun);
        }
        self.regs.write_reg(UART_DR, value as u16);
        proof {
            assert(self.regs.log().subrange(0, old(self).regs.log().len() as int)
                =~= old(self).regs.log());
        }
        Ok(())
    }

    /// The transcript entries for the first `k` bytes of a string write:
    /// for each byte one data-register read that found the overrun bit
    /// clear, then one write of that byte.
    pub open spec fn spec_byte_pairs(log: Seq<RegOp>, n: int, k: int, bytes: Seq<u8>) -> bool {
        forall|i: int|
            0 <= i < k ==> {
                &&& (#[trigger] log[n + 2 * i]) == (RegOp::Read {
                    offset: UART_DR,
                    value: log[n + 2 * i]->Read_value,
                })
                &&& !spec_overrun(log[n + 2 * i]->Read_value)
                &&& log[n + 2 * i + 1] == (RegOp::Write {
                    offset: UART_DR,
                    value: bytes[i] as u16,
                })
            }
    }

    /// What writing a string does on an enabled device: some prefix of `k`
    /// bytes went out as read/write pairs; either the whole string did and
    /// the call succeeded, or the next read found the overrun bit set and
    /// the call stopped there with `Overrun`.
    pub open spec fn spec_write_str_post(
        pre: Self,
        post: Self,
        bytes: Seq<u8>,
        r: Result<(), Error>,
    ) -> bool {
        let n = pre.regs.log().len() as int;
        let log = post.regs.log();
        &&& post.state == pre.state
        &&& log.subrange(0, n) == pre.regs.log()
        &&& exists|k: int|
            #![trigger Self::spec_byte_pairs(log, n, k, bytes)]
            {
                &&& 0 <= k <= bytes.len()
                &&& Self::spec_byte_pairs(log, n, k, bytes)
                &&& if k == bytes.len() {
                    &&& r == Ok::<(), Error>(())
                    &&& log.len() == n + 2 * k
                } else {
                    &&& r == Err::<(), Error>(Error::Overrun)
                    &&& log.len() == n + 2 * k + 1
                    &&& log[n + 2 * k] == (RegOp::Read {
                        offset: UART_DR,
                        value: log[n + 2 * k]->Read_value,
                    })
                    &&& spec_overrun(log[n + 2 * k]->Read_value)
                }
            }
    }

    /// Writes each byte of `out_string` in sequence, failing fast on the
    /// first overrun. Before a successful `init` the call fails and the
    /// bus is not touched.
    pub fn write_str(&mut self, out_string: &str) -> (r: Result<(), Error>)
        ensures
            old(self).state != UartDeviceState::Enabled ==> *final(self) == *old(self) && r
                == Err::<(), Error>(Error::UninitializedAccess),
            old(self).state == UartDeviceState::Enabled ==> Self::spec_write_str_post(
                *old(self),
                *final(self),
                out_string.spec_bytes(),
                r,
            ),
    {
        if self.state != UartDeviceState::Enabled {
            return Err(Error::UninitializedAccess);
        }
        let ghost n = old(self).regs.log().len() as int;
        let bytes: &[u8] = out_string.as_bytes();
        let mut i: usize = 0;
        while i < bytes.len()
            invariant
                i <= bytes@.len(),
                bytes@ == out_string.spec_bytes(),
                n == old(self).regs.log().len(),
                self.state == UartDeviceState::Enabled,
                old(self).state == UartDeviceState::Enabled,
                self.regs.log().len() == n + 2 * i,
                forall|j: int| 0 <= j < n ==> self.regs.log()[j] == old(self).regs.log()[j],
                Self::spec_byte_pairs(self.regs.log(), n, i as int, bytes@),
            decreases bytes@.len() - i,
        {
            let ghost log0 = self.regs.log();
            let ghost pre_iter = *self;
            let byte: u8 = bytes[i];
            match self.write_byte(byte) {
                Ok(()) => {},
                Err(e) => {
                    proof {
                        let log = self.regs.log();
                        assert(log.subrange(0, n) =~= old(self).regs.log());
                        assert forall|j: int| 0 <= j < i as int implies {
                            &&& (#[trigger] log[n + 2 * j]) == (RegOp::Read {
                                offset: UART_DR,
                                value: log[n + 2 * j]->Read_value,
                            })
                            &&& !spec_overrun(log[n + 2 * j]->Read_value)
                            &&& log[n + 2 * j + 1] == (RegOp::Write {
                                offset: UART_DR,
                                value: bytes@[j] as u16,
                            })
                        } by {
                            assert(log[n + 2 * j] == log0[n + 2 * j]);
                            assert(log[n + 2 * j + 1] == log0[n + 2 * j + 1]);
                        }
                        assert(Self::spec_byte_pairs(log, n, i as int, bytes@));
                    }
                    return Err(e);
                },
            }
            proof {
                let log = self.regs.log();
                assert forall|j: int| 0 <= j < i + 1 implies {
                    &&& (#[trigger] log[n + 2 * j]) == (RegOp::Read {
                        offset: UART_DR,
                        value: log[n + 2 * j]->Read_value,
                    })
                    &&& !spec_overrun(log[n + 2 * j]->Read_value)
                    &&& log[n + 2 * j + 1] == (RegOp::Write {
                        offset: UART_DR,
                        value: bytes@[j] as u16,
                    })
                } by {
                    if j < i as int {
                        assert(log[n + 2 * j] == log0[n + 2 * j]);
                        assert(log[n + 2 * j + 1] == log0[n + 2 * j + 1]);
                    } else {
                        assert(j == i as int);
                        assert(pre_iter.regs.log().len() == n + 2 * j);
                    }
                }
                assert(Self::spec_byte_pairs(log, n, i + 1, bytes@));
            }
            i = i + 1;
        }
        proof {
            let log = self.regs.log();
            assert(log.subrange(0, n) =~= old(self).regs.log());
            assert(Self::spec_byte_pairs(log, n, bytes@.len() as int, bytes@));
        }
        Ok(())
    }
}

} // verus!
