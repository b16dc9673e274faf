//! The producing side of the feed: one tick per measurement
//! interval.
//!
//! The loop that owns the clock asks the operating system for one
//! per-core utilization reading per tick — never faster than the
//! measurement facility's own minimum interval — and hands whatever
//! it got to `tick`. Everything the tick decides is here.

use crate::broadcaster::Broadcaster;
use crate::broadcaster::publish_model;
use crate::snapshot::Snapshot;
use crate::snapshot::clamp_loads;
use vstd::prelude::*;

verus! {

/// One sampler tick. A fresh reading — one raw value per core, in
/// hundredths of a percent, in stable core order — is clamped into a
/// snapshot and published, whatever the number of subscribers. A
/// failed reading skips the tick and leaves the broadcaster exactly
/// as it was: a transient measurement failure is never fatal. The
/// result says whether a snapshot was published.
pub fn tick(b: &mut Broadcaster, reading: Option<Vec<u32>>) -> (published: bool)
    requires
        old(b).inv(),
        !old(b)@.closed,
        old(b)@.count < u64::MAX as nat,
    ensures
        final(b).inv(),
        published == reading is Some,
        reading matches Some(r) ==> final(b)@ == publish_model(old(b)@, clamp_loads(r@)),
        reading is None ==> final(b)@ == old(b)@,
{
    match reading {
        Some(r) => {
            let snapshot = Snapshot::from_readings(&r);
            let _ = b.publish(snapshot);
            true
        },
        None => false,
    }
}

} // verus!
