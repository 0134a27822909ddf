use vstd::prelude::*;

verus! {

/// The dispatch algorithm a run uses.
#[derive(Clone, Copy, Debug, PartialEq, Eq, Structural)]
pub enum LoadShape {
    /// Sustained-rate mode: every batch fans out `qps` concurrent requests,
    /// batches never overlap, and a fixed pause separates them.
    Rate { qps: u64 },
    /// Batch mode: `n / c` requests (integer division, the remainder is
    /// discarded) issued strictly one after another.
    Count { n: u64, c: u64 },
    /// Exactly one request.
    Single,
}

/// The resolved, immutable schedule for one run. It is built once from the raw
/// configuration and never changes afterwards; the only mutable state of a run
/// is the engine's own progress.
#[derive(Debug, PartialEq, Eq)]
pub struct TaskDescriptor {
    /// Creation instant, milliseconds since the Unix epoch; its age is
    /// reported, never enforced.
    pub created_at: Option<i64>,
    /// Earliest instant at which dispatch may begin; absent means at once.
    pub start_time: Option<i64>,
    /// Instant after which the rate loop stops starting new batches; absent
    /// means the loop never stops on its own.
    pub end_time: Option<i64>,
    /// Target endpoint; when absent the run completes without any request.
    pub url: Option<String>,
    /// The dispatch algorithm.
    pub load_shape: LoadShape,
}

impl TaskDescriptor {
    /// The shape's parameters are positive integers, so a batch is never empty
    /// and the count-mode division is defined.
    pub open spec fn wf(self) -> bool {
        match self.load_shape {
            LoadShape::Rate { qps } => qps >= 1,
            LoadShape::Count { n, c } => n >= 1 && c >= 1,
            LoadShape::Single => true,
        }
    }
}

} // verus!
