//! The error taxonomy shared by every fallible operation of the layer.

use vstd::prelude::*;

verus! {

/// Every failure this layer can report.
///
/// - `Timeout`: a bounded hardware wait was exhausted (the PL011 busy flag
///   never cleared within the poll bound).
/// - `HardwareFault`: the 16550 loopback self-test byte came back changed.
/// - `UninitializedAccess`: a read or write was attempted before a
///   successful `init`.
/// - `Overrun`: a PL011 write was attempted while the overrun-error flag
///   was set.
/// - `FirmwareError`: a firmware call returned a status other than the one
///   the protocol expects; the payload is that status word.
#[derive(Copy, Clone, Debug, PartialEq, Eq, Structural)]
pub enum Error {
    Timeout,
    HardwareFault,
    UninitializedAccess,
    Overrun,
    FirmwareError(u64),
}

} // verus!
