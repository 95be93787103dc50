//! What can go wrong on the data path and on the side channel.
use vstd::prelude::*;

verus! {

/// Every failure that the transport reports. None of them is fatal to the
/// process: each is handed back to the caller, who decides what to do.
#[derive(Clone, Copy, Debug, PartialEq, Eq, Structural)]
pub enum IpcError {
    /// The byte run offered as a region cannot serve as one.
    ResourceInitError,
    /// The frame is larger than any single write may be.
    FrameTooLarge,
    /// The frame is larger than the data area of this region.
    BufferTooSmall,
    /// The consumer has marked the buffer full; nothing was written.
    BufferFull,
    /// The consumer could not be told: no connection could be made, or the
    /// byte could not be written. The frame that was to be announced is in
    /// the region all the same.
    NotificationError,
}

} // verus!
