use vstd::prelude::*;

verus! {

/// A logical time: how many writes have been observed on one path.
#[derive(Copy, Clone, Debug, PartialEq, Eq, Structural, PartialOrd, Ord, Hash)]
pub struct Time(pub u64);

/// An identifier of one causal delivery route, local to the node that reads it.
#[derive(Copy, Clone, Debug, PartialEq, Eq, Structural, PartialOrd, Ord, Hash)]
pub struct Path(pub u64);

/// The unit attached to an update in flight: the update is the `time`-th
/// event observed on `path`.
#[derive(Copy, Clone, Debug, PartialEq, Eq, Structural)]
pub struct TimeComponent {
    pub path: Path,
    pub time: Time,
}

/// The path id on which a base table stamps its writes.
pub const ORIGIN_PATH: u64 = 0;

/// Violations of the clock's invariants. Each one means that an upstream
/// contract was broken; callers treat them as fatal for the shard.
#[derive(Copy, Clone, Debug, PartialEq, Eq, Structural)]
pub enum TimeError {
    /// A path was registered out of its dense, increasing order.
    OrderingInvariantViolation,
    /// A path's time did not move to its exact successor.
    SequenceGapOrDuplicate,
    /// A timestamp assigner that already issued times was duplicated.
    DuplicateGeneratorInvariant,
    /// An ancestor or path id outside what the path assignment describes.
    TopologyMismatch,
}

/// The single generator of fresh logical time for one base table.
#[derive(Debug)]
pub struct TimestampAssigner(u64);

impl View for TimestampAssigner {
    /// The time that the next call of `assign` issues.
    type V = nat;

    closed spec fn view(&self) -> nat {
        self.0 as nat
    }
}

impl TimestampAssigner {
    /// A fresh assigner, whose first time is 0.
    pub fn new() -> (r: TimestampAssigner)
        ensures
            r@ == 0,
    {
        TimestampAssigner(0)
    }

    /// The time that the next call of `assign` will issue.
    pub fn next_time(&self) -> (r: u64)
        ensures
            r == self@,
    {
        self.0
    }

    /// Issues the next time on the origin path: 0 first, then one more on
    /// every call.
    pub fn assign(&mut self) -> (r: TimeComponent)
        requires
            old(self)@ < u64::MAX,
        ensures
            r.time.0 == old(self)@,
            r.path.0 == ORIGIN_PATH,
            final(self)@ == old(self)@ + 1,
    {
        let t = self.0;
        self.0 = t + 1;
        TimeComponent { path: Path(ORIGIN_PATH), time: Time(t) }
    }

    /// Stamps a batch of `k` writes: the times issued are the next `k` in
    /// order, without gaps, all on the origin path.
    pub fn assign_batch(&mut self, k: u64) -> (r: Vec<TimeComponent>)
        requires
            old(self)@ + k < u64::MAX,
        ensures
            r@.len() == k,
            forall|i: int|
                0 <= i < k ==> (#[trigger] r@[i]).time.0 == old(self)@ + i && r@[i].path.0
                    == ORIGIN_PATH,
            final(self)@ == old(self)@ + k,
    {
        let mut r: Vec<TimeComponent> = Vec::new();
        let mut i: u64 = 0;
        while i < k
            invariant
                i <= k,
                self@ == old(self)@ + i,
                old(self)@ + k < u64::MAX,
                r@.len() == i,
                forall|j: int|
                    0 <= j < i ==> (#[trigger] r@[j]).time.0 == old(self)@ + j && r@[j].path.0
                        == ORIGIN_PATH,
            decreases k - i,
        {
            let c = self.assign();
            r.push(c);
            i = i + 1;
        }
        r
    }

    /// Duplicates an assigner that has issued nothing yet; one that has
    /// issued a time may have only one owner.
    pub fn try_clone(&self) -> (r: Result<TimestampAssigner, TimeError>)
        ensures
            self@ == 0 <==> r is Ok,
            r matches Ok(c) ==> c@ == 0,
            r matches Err(e) ==> e == TimeError::DuplicateGeneratorInvariant,
    {
        if self.0 == 0 {
            Ok(TimestampAssigner(0))
        } else {
            Err(TimeError::DuplicateGeneratorInvariant)
        }
    }
}

impl Default for TimestampAssigner {
    fn default() -> (r: TimestampAssigner)
        ensures
            r@ == 0,
    {
        TimestampAssigner::new()
    }
}

} // verus!
