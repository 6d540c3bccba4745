use vstd::prelude::*;

use crate::path_map::{copy_row, lookup_spec, path_ids, PathMap};
use crate::time::{Path, Time, TimeComponent, TimeError};
use crate::vector_time::{advance_error, advance_ok, VectorTime};

verus! {

/// A dense index of a node of the dataflow graph.
#[derive(Copy, Clone, Debug, PartialEq, Eq, Structural, PartialOrd, Ord, Hash)]
pub struct NodeIndex(pub u32);

/// The paths of a node that all descend from one origin, a shard of a base
/// table.
#[derive(Clone, Debug)]
pub struct BasePathGroup {
    pub origin: NodeIndex,
    pub shard: usize,
    pub paths: Vec<Path>,
}

/// The path ids of each group.
pub open spec fn group_ids(groups: Seq<BasePathGroup>) -> Seq<Seq<u64>> {
    groups.map_values(|g: BasePathGroup| path_ids(g.paths@))
}

/// The origin of each group: the base table's node index and shard.
pub open spec fn group_keys(groups: Seq<BasePathGroup>) -> Seq<(u32, usize)> {
    groups.map_values(|g: BasePathGroup| (g.origin.0, g.shard))
}

/// Every path of every group is one of the `width` known paths.
pub open spec fn groups_within(groups: Seq<Seq<u64>>, width: nat) -> bool {
    forall|g: int, i: int|
        0 <= g < groups.len() && 0 <= i < groups[g].len() ==> #[trigger] groups[g][i] < width
}

/// No group shows two different times on its paths: no update has been
/// applied through some of its copies and not through the others.
pub open spec fn consistent_spec(times: Seq<u64>, groups: Seq<Seq<u64>>) -> bool {
    forall|g: int, i: int, j: int|
        0 <= g < groups.len() && 0 <= i < groups[g].len() && 0 <= j < groups[g].len() ==> times[
        #[trigger] groups[g][i] as int] == times[#[trigger] groups[g][j] as int]
}

/// Whether every path of every group is below `width`.
pub fn groups_fit(base_paths: &Vec<BasePathGroup>, width: u64) -> (r: bool)
    ensures
        r == groups_within(group_ids(base_paths@), width as nat),
{
    let mut g: usize = 0;
    while g < base_paths.len()
        invariant
            g <= base_paths.len(),
            forall|h: int, i: int|
                0 <= h < g && 0 <= i < group_ids(base_paths@)[h].len() ==> #[trigger] group_ids(
                    base_paths@,
                )[h][i] < width,
        decreases base_paths.len() - g,
    {
        let members = &base_paths[g].paths;
        let mut i: usize = 0;
        while i < members.len()
            invariant
                g < base_paths.len(),
                members == &base_paths@[g as int].paths,
                i <= members.len(),
                forall|k: int| 0 <= k < i ==> #[trigger] members@[k].0 < width,
            decreases members.len() - i,
        {
            if members[i].0 >= width {
                assert(group_ids(base_paths@)[g as int] == path_ids(members@));
                assert(group_ids(base_paths@)[g as int][i as int] >= width);
                return false;
            }
            i = i + 1;
        }
        g = g + 1;
    }
    true
}

/// Whether no two groups share an origin.
pub fn keys_distinct(base_paths: &Vec<BasePathGroup>) -> (r: bool)
    ensures
        r == group_keys(base_paths@).no_duplicates(),
{
    let n = base_paths.len();
    let mut i: usize = 0;
    while i < n
        invariant
            n == base_paths@.len(),
            i <= n,
            forall|a: int, b: int|
                0 <= a < i && 0 <= b < n && a != b ==> #[trigger] group_keys(base_paths@)[a]
                    != #[trigger] group_keys(base_paths@)[b],
        decreases n - i,
    {
        let mut j: usize = 0;
        while j < n
            invariant
                n == base_paths@.len(),
                i < n,
                j <= n,
                forall|a: int, b: int|
                    0 <= a < i && 0 <= b < n && a != b ==> #[trigger] group_keys(base_paths@)[a]
                        != #[trigger] group_keys(base_paths@)[b],
                forall|b: int|
                    0 <= b < j && b != i ==> group_keys(base_paths@)[i as int] != #[trigger] group_keys(
                        base_paths@,
                    )[b],
            decreases n - j,
        {
            if j != i && base_paths[i].origin.0 == base_paths[j].origin.0 && base_paths[i].shard
                == base_paths[j].shard {
                assert(group_keys(base_paths@)[i as int] == group_keys(base_paths@)[j as int]);
                return false;
            }
            j = j + 1;
        }
        i = i + 1;
    }
    true
}

/// An equal copy of a list of groups.
pub fn copy_groups(base_paths: &Vec<BasePathGroup>) -> (r: Vec<BasePathGroup>)
    ensures
        group_ids(r@) == group_ids(base_paths@),
        group_keys(r@) == group_keys(base_paths@),
{
    let mut r: Vec<BasePathGroup> = Vec::new();
    let mut g: usize = 0;
    while g < base_paths.len()
        invariant
            g <= base_paths.len(),
            r@.len() == g,
            forall|h: int| 0 <= h < g ==> #[trigger] r@[h].paths@ == base_paths@[h].paths@,
            forall|h: int|
                0 <= h < g ==> #[trigger] r@[h].origin == base_paths@[h].origin && r@[h].shard
                    == base_paths@[h].shard,
        decreases base_paths.len() - g,
    {
        let group = &base_paths[g];
        r.push(BasePathGroup { origin: group.origin, shard: group.shard, paths: copy_row(&group.paths) });
        g = g + 1;
    }
    assert(group_ids(r@) =~= group_ids(base_paths@));
    assert(group_keys(r@) =~= group_keys(base_paths@));
    r
}

/// All the time-related state of one shard of one node.
#[derive(Clone, Debug)]
pub struct NodeTimeState {
    time: VectorTime,
    paths: PathMap,
    base_paths: Vec<BasePathGroup>,
}

impl NodeTimeState {
    /// The time observed on each path.
    pub closed spec fn times(&self) -> Seq<u64> {
        self.time@
    }

    /// The view of the path map.
    pub closed spec fn path_map(&self) -> Option<Seq<Seq<u64>>> {
        self.paths@
    }

    /// The path ids of each base-path group.
    pub closed spec fn groups(&self) -> Seq<Seq<u64>> {
        group_ids(self.base_paths@)
    }

    /// The origin of each base-path group.
    pub closed spec fn origins(&self) -> Seq<(u32, usize)> {
        group_keys(self.base_paths@)
    }

    /// Every group names known paths only, and no two groups share an
    /// origin.
    pub open spec fn wf(&self) -> bool {
        &&& groups_within(self.groups(), self.times().len())
        &&& self.origins().no_duplicates()
    }

    /// The state made of `time`, `paths` and `base_paths`; a topology
    /// mismatch where a group names a path that `time` does not know, or
    /// where two groups have the same origin.
    pub fn new(time: VectorTime, paths: PathMap, base_paths: Vec<BasePathGroup>) -> (r: Result<
        NodeTimeState,
        TimeError,
    >)
        ensures
            (groups_within(group_ids(base_paths@), time@.len()) && group_keys(
                base_paths@,
            ).no_duplicates()) <==> r is Ok,
            r matches Ok(s) ==> s.wf() && s.times() == time@ && s.path_map() == paths@
                && s.groups() == group_ids(base_paths@) && s.origins() == group_keys(base_paths@),
            r matches Err(e) ==> e == TimeError::TopologyMismatch,
    {
        if groups_fit(&base_paths, time.len() as u64) && keys_distinct(&base_paths) {
            Ok(NodeTimeState { time, paths, base_paths })
        } else {
            Err(TimeError::TopologyMismatch)
        }
    }

    /// The vector time of this node.
    pub fn vector_time(&self) -> (r: &VectorTime)
        ensures
            r@ == self.times(),
    {
        &self.time
    }

    /// Whether every base-path group shows one time on all its paths; a
    /// node that is not consistent may hold torn updates.
    pub fn is_consistent(&self) -> (r: bool)
        requires
            self.wf(),
        ensures
            r == consistent_spec(self.times(), self.groups()),
    {
        let mut g: usize = 0;
        while g < self.base_paths.len()
            invariant
                self.wf(),
                g <= self.base_paths.len(),
                forall|h: int, i: int, j: int|
                    0 <= h < g && 0 <= i < self.groups()[h].len() && 0 <= j < self.groups()[h].len()
                        ==> self.times()[#[trigger] self.groups()[h][i] as int] == self.times()[
                    #[trigger] self.groups()[h][j] as int],
            decreases self.base_paths.len() - g,
        {
            let members = &self.base_paths[g].paths;
            assert(self.groups()[g as int] == path_ids(members@));
            if members.len() > 0 {
                let first = self.time.get(members[0]);
                let mut i: usize = 1;
                while i < members.len()
                    invariant
                        self.wf(),
                        g < self.base_paths.len(),
                        members == &self.base_paths@[g as int].paths,
                        self.groups()[g as int] == path_ids(members@),
                        1 <= i <= members.len(),
                        first == Some(Time(self.times()[self.groups()[g as int][0] as int])),
                        forall|k: int|
                            0 <= k < i ==> self.times()[#[trigger] self.groups()[g as int][k] as int]
                                == self.times()[self.groups()[g as int][0] as int],
                    decreases members.len() - i,
                {
                    if self.time.get(members[i]) != first {
                        assert(self.groups()[g as int][i as int] == members@[i as int].0);
                        assert(self.times()[self.groups()[g as int][i as int] as int]
                            != self.times()[self.groups()[g as int][0] as int]);
                        return false;
                    }
                    i = i + 1;
                }
            }
            g = g + 1;
        }
        true
    }

    /// Applies an update that came from `ancestor` with `time_component`:
    /// advances that path's time, and returns the component to forward,
    /// with the same time on this node's outgoing path. On an error nothing
    /// changes.
    pub fn process_update(&mut self, ancestor: usize, time_component: TimeComponent) -> (r: Result<
        TimeComponent,
        TimeError,
    >)
        requires
            old(self).wf(),
        ensures
            final(self).wf(),
            final(self).path_map() == old(self).path_map(),
            final(self).groups() == old(self).groups(),
            final(self).origins() == old(self).origins(),
            (advance_ok(old(self).times(), time_component) && lookup_spec(
                old(self).path_map(),
                ancestor as int,
                time_component.path.0,
            ) is Some) <==> r is Ok,
            r matches Ok(out) ==> out.time == time_component.time && Some(out.path.0) == lookup_spec(
                old(self).path_map(),
                ancestor as int,
                time_component.path.0,
            ) && final(self).times() == old(self).times().update(
                time_component.path.0 as int,
                time_component.time.0,
            ),
            r is Err ==> final(self).times() == old(self).times(),
            lookup_spec(old(self).path_map(), ancestor as int, time_component.path.0) is None ==> r
                == Err::<TimeComponent, TimeError>(TimeError::TopologyMismatch),
            lookup_spec(old(self).path_map(), ancestor as int, time_component.path.0) is Some
                && !advance_ok(old(self).times(), time_component) ==> r == Err::<
                TimeComponent,
                TimeError,
            >(advance_error(old(self).times(), time_component)),
    {
        let outgoing = match self.paths.lookup(ancestor, time_component.path) {
            Ok(p) => p,
            Err(e) => {
                return Err(e);
            },
        };
        match self.time.advance(time_component) {
            Ok(()) => Ok(TimeComponent { path: outgoing, time: time_component.time }),
            Err(e) => Err(e),
        }
    }
}

} // verus!
