use vstd::prelude::*;

use crate::time::{Path, Time, TimeComponent, TimeError};

verus! {

/// The latest time a node has observed on each of its paths, indexed by
/// path id. Paths are registered densely, in increasing order.
#[derive(Clone, Debug)]
pub struct VectorTime {
    components: Vec<Time>,
}

impl View for VectorTime {
    /// The time of each path, by path id.
    type V = Seq<u64>;

    closed spec fn view(&self) -> Seq<u64> {
        self.components@.map_values(|t: Time| t.0)
    }
}

/// Whether `advance(c)` succeeds on a vector time whose view is `v`.
pub open spec fn advance_ok(v: Seq<u64>, c: TimeComponent) -> bool {
    c.path.0 < v.len() && c.time.0 == v[c.path.0 as int] + 1
}

/// The error that `advance(c)` reports where it fails on a vector time
/// whose view is `v`.
pub open spec fn advance_error(v: Seq<u64>, c: TimeComponent) -> TimeError {
    if c.path.0 >= v.len() {
        TimeError::TopologyMismatch
    } else {
        TimeError::SequenceGapOrDuplicate
    }
}

impl VectorTime {
    /// A vector time that knows no path.
    pub fn new() -> (r: VectorTime)
        ensures
            r@ == Seq::<u64>::empty(),
    {
        VectorTime { components: Vec::new() }
    }

    /// A vector time with paths `0 .. len`, each at time 0.
    pub fn with_length(len: usize) -> (r: VectorTime)
        ensures
            r@ == Seq::new(len as nat, |i: int| 0u64),
    {
        let mut components: Vec<Time> = Vec::new();
        let mut i: usize = 0;
        while i < len
            invariant
                i <= len,
                components@.len() == i,
                forall|k: int| 0 <= k < i ==> #[trigger] components@[k].0 == 0,
            decreases len - i,
        {
            components.push(Time(0));
            i = i + 1;
        }
        let r = VectorTime { components };
        assert(r@ =~= Seq::new(len as nat, |i: int| 0u64));
        r
    }

    /// The number of known paths.
    pub fn len(&self) -> (r: usize)
        ensures
            r == self@.len(),
    {
        self.components.len()
    }

    /// The time recorded for `path`, if the path is known.
    pub fn get(&self, path: Path) -> (r: Option<Time>)
        ensures
            path.0 < self@.len() <==> r is Some,
            r matches Some(t) ==> t.0 == self@[path.0 as int],
    {
        if path.0 < self.components.len() as u64 {
            Some(self.components[path.0 as usize])
        } else {
            None
        }
    }

    /// Registers a new path with its time. The path id must be the number
    /// of paths known so far; otherwise nothing changes and the error says
    /// that the order was broken.
    pub fn extend(&mut self, component: TimeComponent) -> (r: Result<(), TimeError>)
        ensures
            (component.path.0 == old(self)@.len()) <==> r is Ok,
            r is Ok ==> final(self)@ == old(self)@.push(component.time.0),
            r is Err ==> final(self)@ == old(self)@ && r == Err::<(), TimeError>(
                TimeError::OrderingInvariantViolation,
            ),
    {
        if component.path.0 == self.components.len() as u64 {
            self.components.push(component.time);
            proof {
                assert(self@ =~= old(self)@.push(component.time.0));
            }
            Ok(())
        } else {
            Err(TimeError::OrderingInvariantViolation)
        }
    }

    /// Moves the time of `component.path` to `component.time`, which must
    /// be its exact successor. An unknown path is a topology mismatch; any
    /// other time is a gap or a duplicate. On an error nothing changes.
    pub fn advance(&mut self, component: TimeComponent) -> (r: Result<(), TimeError>)
        ensures
            advance_ok(old(self)@, component) <==> r is Ok,
            r is Ok ==> final(self)@ == old(self)@.update(
                component.path.0 as int,
                component.time.0,
            ),
            r is Err ==> final(self)@ == old(self)@ && r == Err::<(), TimeError>(
                advance_error(old(self)@, component),
            ),
    {
        if component.path.0 >= self.components.len() as u64 {
            return Err(TimeError::TopologyMismatch);
        }
        let index = component.path.0 as usize;
        let current = self.components[index].0;
        if current < u64::MAX && current + 1 == component.time.0 {
            self.components.set(index, component.time);
            proof {
                assert(self@ =~= old(self)@.update(component.path.0 as int, component.time.0));
            }
            Ok(())
        } else {
            Err(TimeError::SequenceGapOrDuplicate)
        }
    }
}

impl PartialEq for VectorTime {
    /// Two vector times are equal when they know the same paths at the
    /// same times.
    fn eq(&self, other: &VectorTime) -> (r: bool) {
        let n = self.components.len();
        if n != other.components.len() {
            return false;
        }
        let mut i: usize = 0;
        while i < n
            invariant
                n == self@.len(),
                n == other@.len(),
                i <= n,
                forall|k: int| 0 <= k < i ==> #[trigger] self@[k] == other@[k],
            decreases n - i,
        {
            if self.components[i].0 != other.components[i].0 {
                assert(self@[i as int] != other@[i as int]);
                return false;
            }
            i = i + 1;
        }
        assert(self@ =~= other@);
        true
    }
}

impl vstd::std_specs::cmp::PartialEqSpecImpl for VectorTime {
    open spec fn obeys_eq_spec() -> bool {
        true
    }

    open spec fn eq_spec(&self, other: &VectorTime) -> bool {
        self@ == other@
    }
}

impl Eq for VectorTime {

}

} // verus!
