//! Bookkeeping for the zero-copy transfer machinery.
//!
//! The memory maps and pointer work live with the I/O layer; what belongs
//! here is the accounting they report into: transfer descriptors and the
//! counters summarizing allocation and transfer activity.

use vstd::prelude::*;

verus! {

/// Descriptor of one direct transfer: source, destination, size, flags.
#[derive(Clone, Copy, Debug, PartialEq, Eq, Structural)]
pub struct DMATransfer {
    pub src_addr: usize,
    pub dst_addr: usize,
    pub size: usize,
    pub flags: u32,
}

/// Counters of direct-transfer activity.
#[derive(Debug)]
pub struct DMAStats {
    /// Bytes moved over all completed transfers.
    pub bytes_transferred: u64,
    /// Number of completed transfers.
    pub transfers_completed: u64,
    /// Number of failed transfers.
    pub transfer_errors: u64,
}

impl DMAStats {
    /// Fresh counters, all zero.
    pub fn new() -> (r: Self)
        ensures
            r.bytes_transferred == 0,
            r.transfers_completed == 0,
            r.transfer_errors == 0,
    {
        DMAStats { bytes_transferred: 0, transfers_completed: 0, transfer_errors: 0 }
    }

    /// Records one completed transfer of `bytes` bytes; the counters
    /// saturate rather than wrap.
    pub fn record_transfer(&mut self, bytes: u64)
        ensures
            final(self).bytes_transferred == if old(self).bytes_transferred + bytes <= u64::MAX {
                (old(self).bytes_transferred + bytes) as u64
            } else {
                u64::MAX
            },
            final(self).transfers_completed == if old(self).transfers_completed < u64::MAX {
                (old(self).transfers_completed + 1) as u64
            } else {
                u64::MAX
            },
            final(self).transfer_errors == old(self).transfer_errors,
    {
        self.bytes_transferred = self.bytes_transferred.saturating_add(bytes);
        self.transfers_completed = self.transfers_completed.saturating_add(1);
    }
}

/// Counters of zero-copy block activity.
#[derive(Debug)]
pub struct ZeroCopyStats {
    /// Blocks handed out.
    pub blocks_allocated: u64,
    /// Blocks returned.
    pub blocks_freed: u64,
    /// Bytes moved without copying.
    pub bytes_transferred: u64,
    /// Bytes held in memory-mapped buffers.
    pub mmap_buffer_usage: u64,
}

impl ZeroCopyStats {
    /// Fresh counters, all zero.
    pub fn new() -> (r: Self)
        ensures
            r.blocks_allocated == 0,
            r.blocks_freed == 0,
            r.bytes_transferred == 0,
            r.mmap_buffer_usage == 0,
    {
        ZeroCopyStats {
            blocks_allocated: 0,
            blocks_freed: 0,
            bytes_transferred: 0,
            mmap_buffer_usage: 0,
        }
    }

    /// Blocks currently outstanding: handed out and not yet returned, zero
    /// when more came back than went out.
    pub fn active_blocks(&self) -> (r: u64)
        ensures
            r == if self.blocks_allocated >= self.blocks_freed {
                (self.blocks_allocated - self.blocks_freed) as u64
            } else {
                0u64
            },
    {
        self.blocks_allocated.saturating_sub(self.blocks_freed)
    }
}

} // verus!
