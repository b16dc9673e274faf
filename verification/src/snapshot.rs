//! One measurement of per-core CPU utilization.

use vstd::prelude::*;

verus! {

/// Utilization of one core in hundredths of a percent; a fully busy
/// core reads `MAX_CORE_LOAD`.
pub const MAX_CORE_LOAD: u32 = 10_000;

/// Clamps a raw reading into the valid percentage range.
pub open spec fn clamp_load(x: u32) -> u32 {
    if x > MAX_CORE_LOAD {
        MAX_CORE_LOAD
    } else {
        x
    }
}

/// Clamps every reading of a measurement.
pub open spec fn clamp_loads(s: Seq<u32>) -> Seq<u32> {
    s.map_values(|x: u32| clamp_load(x))
}

/// Every value of a recorded measurement is a valid percentage.
pub open spec fn wf_loads(s: Seq<u32>) -> bool {
    forall|i: int| 0 <= i < s.len() ==> s[i] <= MAX_CORE_LOAD
}

/// One measurement of per-core CPU utilization: one entry per logical
/// core, in hundredths of a percent, in a core order that is stable
/// from one measurement to the next. Immutable once produced.
pub struct Snapshot {
    cores: Vec<u32>,
}

impl View for Snapshot {
    type V = Seq<u32>;

    closed spec fn view(&self) -> Seq<u32> {
        self.cores@
    }
}

impl Snapshot {
    /// Every recorded utilization is a valid percentage.
    pub open spec fn wf(&self) -> bool {
        wf_loads(self@)
    }

    /// Wraps readings that are already valid percentages.
    pub fn new(cores: Vec<u32>) -> (s: Snapshot)
        requires
            forall|i: int| 0 <= i < cores@.len() ==> cores@[i] <= MAX_CORE_LOAD,
        ensures
            s@ == cores@,
            s.wf(),
    {
        Snapshot { cores }
    }

    /// Builds a snapshot from raw readings, clamping anything above
    /// the valid range so that the snapshot is well formed whatever
    /// the measurement facility handed back.
    pub fn from_readings(readings: &Vec<u32>) -> (s: Snapshot)
        ensures
            s@ == clamp_loads(readings@),
            s.wf(),
    {
        let mut cores: Vec<u32> = Vec::new();
        let mut i: usize = 0;
        while i < readings.len()
            invariant
                i <= readings@.len(),
                cores@.len() == i,
                forall|j: int| 0 <= j < i ==> cores@[j] == clamp_load(readings@[j]),
            decreases readings@.len() - i,
        {
            let r = readings[i];
            if r > MAX_CORE_LOAD {
                cores.push(MAX_CORE_LOAD);
            } else {
                cores.push(r);
            }
            i = i + 1;
        }
        proof {
            assert(cores@ =~= clamp_loads(readings@));
        }
        Snapshot { cores }
    }

    /// Number of logical cores covered by this snapshot.
    pub fn core_count(&self) -> (n: usize)
        ensures
            n == self@.len(),
    {
        self.cores.len()
    }

    /// Utilization of core `i`, in hundredths of a percent.
    pub fn load_of(&self, i: usize) -> (v: u32)
        requires
            i < self@.len(),
        ensures
            v == self@[i as int],
    {
        self.cores[i]
    }

    /// The recorded utilizations as a plain vector.
    pub fn values(&self) -> (v: Vec<u32>)
        ensures
            v@ == self@,
    {
        let mut out: Vec<u32> = Vec::new();
        let mut i: usize = 0;
        while i < self.cores.len()
            invariant
                i <= self.cores@.len(),
                out@.len() == i,
                forall|j: int| 0 <= j < i ==> out@[j] == self.cores@[j],
            decreases self.cores@.len() - i,
        {
            out.push(self.cores[i]);
            i = i + 1;
        }
        proof {
            assert(out@ =~= self@);
        }
        out
    }
}

impl Clone for Snapshot {
    /// A clone records exactly the same utilizations.
    fn clone(&self) -> (s: Self)
        ensures
            s@ == self@,
    {
        Snapshot { cores: self.values() }
    }
}

} // verus!
