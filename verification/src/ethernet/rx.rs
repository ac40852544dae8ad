//! Receive descriptors: what the receive logic reads of each, and the frame that a run of
//! filled descriptors holds.

use vstd::prelude::*;

verus! {

/// What the receive logic reads of a receive descriptor.
#[derive(Debug, Clone, Copy, PartialEq, Eq, Structural)]
pub struct RxStatus {
    /// The descriptor is owned by the DMA: it is not filled yet.
    pub own: bool,
    /// Its buffer holds the first part of a frame.
    pub first: bool,
    /// Its buffer holds the last part of a frame.
    pub last: bool,
    /// The frame has an error (reported on the last descriptor).
    pub error: bool,
    /// The checksum offload engine found a wrong header or payload checksum.
    pub checksum_error: bool,
    /// The length of the frame in bytes (reported on the last descriptor).
    pub frame_len: usize,
}

/// Walking from the filled descriptor `j` to the last descriptor of its frame: `Some(Ok(k))`
/// when descriptor `k` is the last one, `Some(Err(()))` when a descriptor on the way is still
/// owned by the DMA (the frame is not fully received), `None` when the ring ends first.
pub open spec fn frame_end(s: Seq<RxStatus>, j: int) -> Option<Result<int, ()>>
    decreases s.len() - j,
{
    if j < 0 || j >= s.len() {
        None
    } else if s[j].last {
        Some(Ok(j))
    } else if j + 1 >= s.len() {
        None
    } else if s[j + 1].own {
        Some(Err(()))
    } else {
        frame_end(s, j + 1)
    }
}

} // verus!
