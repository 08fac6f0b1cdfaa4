//! Byte-level accounting for one backup pass.
//!
//! The counters use overflow-guarded addition: an addition whose
//! mathematical result would not fit in `u64` leaves the counter
//! unchanged and raises the `overflow` flag instead of wrapping or
//! panicking.  Once the flag is set, the totals are informational
//! only; the pass itself still completes.

use vstd::prelude::*;

verus! {

/// Byte counters for one backup pass.
#[derive(Clone, Copy, PartialEq, Eq, Structural, Debug)]
pub struct BackupStats {
    /// Total size of the source files copied during the pass.
    pub added_size: u64,
    /// Total size of the destination files overwritten during the pass.
    pub removed_size: u64,
    /// Set when a counter addition would have exceeded `u64::MAX`.
    pub overflow: bool,
}

/// The counter state after adding `n` to `counter`, together with the
/// overflow flag: the sum when it fits, otherwise the old counter with
/// the flag raised.
pub open spec fn guarded_add(counter: u64, n: u64, overflow: bool) -> (u64, bool) {
    if counter + n <= u64::MAX {
        ((counter + n) as u64, overflow)
    } else {
        (counter, true)
    }
}

impl BackupStats {
    /// Fresh, all-zero counters.
    pub fn new() -> (s: BackupStats)
        ensures
            s == (BackupStats { added_size: 0, removed_size: 0, overflow: false }),
    {
        BackupStats { added_size: 0, removed_size: 0, overflow: false }
    }

    /// Zero the counters at the start of a pass, before any file is
    /// processed.
    pub fn reset(&mut self)
        ensures
            *final(self) == (BackupStats { added_size: 0, removed_size: 0, overflow: false }),
    {
        self.added_size = 0;
        self.removed_size = 0;
        self.overflow = false;
    }

    /// Record `n` copied bytes with the overflow guard.
    pub fn record_added(&mut self, n: u64)
        ensures
            (final(self).added_size, final(self).overflow) == guarded_add(
                old(self).added_size,
                n,
                old(self).overflow,
            ),
            final(self).removed_size == old(self).removed_size,
    {
        match self.added_size.checked_add(n) {
            Some(sum) => {
                self.added_size = sum;
            }
            None => {
                self.overflow = true;
            }
        }
    }

    /// Record `n` overwritten bytes with the overflow guard.
    pub fn record_removed(&mut self, n: u64)
        ensures
            (final(self).removed_size, final(self).overflow) == guarded_add(
                old(self).removed_size,
                n,
                old(self).overflow,
            ),
            final(self).added_size == old(self).added_size,
    {
        match self.removed_size.checked_add(n) {
            Some(sum) => {
                self.removed_size = sum;
            }
            None => {
                self.overflow = true;
            }
        }
    }

    /// The net size change of the pass, `added_size - removed_size`,
    /// with an explicit sign so that a shrinking pass cannot underflow.
    pub fn net_delta(&self) -> (r: NetDelta)
        ensures
            r.negative == (self.removed_size > self.added_size),
            r.negative ==> r.magnitude == self.removed_size - self.added_size,
            !r.negative ==> r.magnitude == self.added_size - self.removed_size,
    {
        if self.added_size >= self.removed_size {
            NetDelta { negative: false, magnitude: self.added_size - self.removed_size }
        } else {
            NetDelta { negative: true, magnitude: self.removed_size - self.added_size }
        }
    }
}

/// A signed byte count: `magnitude` bytes gained when `negative` is
/// false, lost when it is true.
#[derive(Clone, Copy, PartialEq, Eq, Structural, Debug)]
pub struct NetDelta {
    pub negative: bool,
    pub magnitude: u64,
}

} // verus!
