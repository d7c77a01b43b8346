//! The serial capability surface consumed by boot-stage callers: `init`,
//! `read_byte`, `write_byte`, and a derived string writer.

use vstd::prelude::*;
use crate::error::Error;
use vstd::string::StringSliceAdditionalSpecFns;

verus! {

/// The common contract a diagnostic serial channel satisfies.
///
/// A device starts un-initialized; `init` runs the family's hardware
/// protocol and, only on success, leaves the device initialized. The byte
/// paths are capability-gated: before a successful `init` they fail with
/// [`Error::UninitializedAccess`] and touch no hardware. `written` is the
/// sequence of bytes the device has accepted for transmission, so a caller
/// generic over the trait can still conclude what went out; the
/// implementations strengthen these contracts further with the exact bus
/// transcript of each call.
pub trait Serial: Sized {
    /// Whether a successful `init` has been run on this device.
    spec fn initialized_spec(&self) -> bool;

    /// Every byte the device has accepted for transmission, in order.
    spec fn written(&self) -> Seq<u8>;

    fn init(&mut self) -> (r: Result<(), Error>)
        ensures
            r is Ok ==> final(self).initialized_spec(),
    ;

    fn is_initialized(&self) -> (r: bool)
        ensures
            r == self.initialized_spec(),
    ;

    fn read_byte(&mut self) -> (r: Result<u8, Error>)
        ensures
            !old(self).initialized_spec() ==> r == Err::<u8, Error>(Error::UninitializedAccess)
                && *final(self) == *old(self),
            final(self).initialized_spec() == old(self).initialized_spec(),
            final(self).written() == old(self).written(),
    ;

    fn write_byte(&mut self, value: u8) -> (r: Result<(), Error>)
        ensures
            !old(self).initialized_spec() ==> r == Err::<(), Error>(Error::UninitializedAccess)
                && *final(self) == *old(self),
            final(self).initialized_spec() == old(self).initialized_spec(),
            r is Ok ==> final(self).written() == old(self).written().push(value),
            r is Err ==> final(self).written() == old(self).written(),
    ;

    /// Writes each byte of `value` in sequence, failing fast on the first
    /// error: on success the whole string was accepted; on an error some
    /// proper prefix was, and nothing after it.
    fn serial_write_str(&mut self, value: &str) -> (r: Result<(), Error>)
        ensures
            !old(self).initialized_spec() ==> r == Err::<(), Error>(Error::UninitializedAccess)
                && *final(self) == *old(self),
            final(self).initialized_spec() == old(self).initialized_spec(),
            old(self).initialized_spec() && value.spec_bytes().len() == 0 ==> r == Ok::<
                (),
                Error,
            >(()),
            r is Ok ==> final(self).written() == old(self).written() + value.spec_bytes(),
            old(self).initialized_spec() && r is Err ==> exists|k: int|
                #![trigger value.spec_bytes().subrange(0, k)]
                0 <= k < value.spec_bytes().len() && final(self).written() == old(self).written()
                    + value.spec_bytes().subrange(0, k),
    {
        if !self.is_initialized() {
            return Err(Error::UninitializedAccess);
        }
        let bytes: &[u8] = value.as_bytes();
        let mut i: usize = 0;
        while i < bytes.len()
            invariant
                i <= bytes@.len(),
                bytes@ == value.spec_bytes(),
                old(self).initialized_spec(),
                self.initialized_spec(),
                self.written() == old(self).written() + bytes@.subrange(0, i as int),
            decreases bytes@.len() - i,
        {
            match self.write_byte(bytes[i]) {
                Ok(()) => {},
                Err(e) => {
                    proof {
                        assert((i as int) < value.spec_bytes().len());
                        assert(self.written() == old(self).written() + value.spec_bytes().subrange(
                            0,
                            i as int,
                        ));
                    }
                    return Err(e);
                },
            }
            proof {
                assert(self.written() =~= old(self).written() + bytes@.subrange(0, i + 1));
            }
            i = i + 1;
        }
        proof {
            assert(self.written() =~= old(self).written() + value.spec_bytes());
        }
        Ok(())
    }
}

} // verus!
