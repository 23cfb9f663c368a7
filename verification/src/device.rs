//! What device transfers report back.
use vstd::prelude::*;

verus! {

/// How a transfer ended.
#[derive(Debug, Clone, Copy, PartialEq, Eq, Structural)]
pub enum IoStatus {
    /// The device took or gave what it could.
    Progress,
    /// The device has no room, or no data, at the moment.
    WouldBlock,
    /// The transfer failed for another reason.
    Failed,
    /// The device is gone.
    Lost,
}

impl IoStatus {
    /// Whether the device is gone.
    pub fn device_lost(&self) -> (lost: bool)
        ensures
            lost == (*self == IoStatus::Lost),
    {
        match self {
            IoStatus::Lost => true,
            _ => false,
        }
    }
}

/// The outcome of a playback write.
#[derive(Debug, Clone, Copy, PartialEq, Eq, Structural)]
pub struct WriteOutcome {
    /// Bytes that the device accepted.
    pub bytes: usize,
    pub status: IoStatus,
}

impl WriteOutcome {
    /// Nothing was accepted, and the same bytes can be offered again later.
    pub open spec fn blocked(self) -> bool {
        self.bytes == 0 && self.status == IoStatus::WouldBlock
    }

    /// Whether nothing was accepted and the write can be retried as it is.
    pub fn would_block(&self) -> (r: bool)
        ensures
            r == self.blocked(),
    {
        self.bytes == 0 && self.status == IoStatus::WouldBlock
    }

    /// A buffer of `bytes` bytes that counts as written without a transfer.
    pub fn consumed(bytes: usize) -> (outcome: WriteOutcome)
        ensures
            outcome == (WriteOutcome { bytes, status: IoStatus::Progress }),
    {
        WriteOutcome { bytes, status: IoStatus::Progress }
    }
}

/// The outcome of a capture read.
#[derive(Debug, Clone, Copy, PartialEq, Eq, Structural)]
pub struct ReadOutcome {
    /// Bytes that the device delivered.
    pub bytes: usize,
    pub status: IoStatus,
}

/// Where a device channel stands.
#[derive(Debug, Clone, Copy, PartialEq, Eq, Structural)]
pub enum DevicePhase {
    Closed,
    /// Open and configured, not yet triggered: the ring layout can be set.
    Setup,
    Running,
}

/// A write blocks where the device took nothing for now: taken bytes and failures are no
/// block.
pub proof fn blocked_write_took_nothing(write: WriteOutcome)
    ensures
        write.blocked() <==> write.bytes == 0 && write.status == IoStatus::WouldBlock,
        write.bytes > 0 ==> !write.blocked(),
        write.status is Failed || write.status is Lost || write.status is Progress
            ==> !write.blocked(),
{
}

} // verus!
