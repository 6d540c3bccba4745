use std::collections::BTreeMap;

use vstd::prelude::*;

use crate::node_state::{
    copy_groups, group_ids, group_keys, groups_within, BasePathGroup, NodeIndex, NodeTimeState,
};
use crate::path_map::PathMap;
use crate::time::TimeError;
use crate::vector_time::VectorTime;

verus! {

broadcast use vstd::laws_cmp::group_laws_cmp;

/// What the graph compiler decided for one shard of one node: its path map,
/// how many incoming paths it tracks, and its base-path groups.
#[derive(Debug)]
pub struct ShardAssignment {
    pub paths: PathMap,
    pub incoming_paths: usize,
    pub base_paths: Vec<BasePathGroup>,
}

/// The mathematical content of a `ShardAssignment`.
pub struct ShardAssignmentView {
    pub map: Option<Seq<Seq<u64>>>,
    pub incoming_paths: nat,
    pub groups: Seq<Seq<u64>>,
    pub origins: Seq<(u32, usize)>,
}

impl View for ShardAssignment {
    type V = ShardAssignmentView;

    open spec fn view(&self) -> ShardAssignmentView {
        ShardAssignmentView {
            map: self.paths@,
            incoming_paths: self.incoming_paths as nat,
            groups: group_ids(self.base_paths@),
            origins: group_keys(self.base_paths@),
        }
    }
}

/// The assignment of shard `shard` of node `node`, if one was recorded.
pub open spec fn shard_at(m: Map<u32, Seq<ShardAssignmentView>>, node: u32, shard: int) -> Option<
    ShardAssignmentView,
> {
    if m.contains_key(node) && 0 <= shard < m[node].len() {
        Some(m[node][shard])
    } else {
        None
    }
}

/// The path assignment of the whole graph: for each node, one
/// `ShardAssignment` per shard. Workers read it to build node states.
#[derive(Debug)]
pub struct PathAssignments {
    assignments: BTreeMap<u32, Vec<ShardAssignment>>,
}

impl View for PathAssignments {
    /// Per node index, the assignment of each of its shards.
    type V = Map<u32, Seq<ShardAssignmentView>>;

    closed spec fn view(&self) -> Map<u32, Seq<ShardAssignmentView>> {
        self.assignments@.map_values(|v: Vec<ShardAssignment>| v@.map_values(|s: ShardAssignment| s@))
    }
}

impl PathAssignments {
    /// An assignment that knows no node.
    pub fn new() -> (r: PathAssignments)
        ensures
            r@ == Map::<u32, Seq<ShardAssignmentView>>::empty(),
    {
        let r = PathAssignments { assignments: BTreeMap::new() };
        assert(r@ =~= Map::<u32, Seq<ShardAssignmentView>>::empty());
        r
    }

    /// Records the assignment of each shard of `node`, in shard order,
    /// replacing what was recorded for it before.
    pub fn add_node(&mut self, node: NodeIndex, shards: Vec<ShardAssignment>)
        ensures
            final(self)@ == old(self)@.insert(node.0, shards@.map_values(|s: ShardAssignment| s@)),
    {
        self.assignments.insert(node.0, shards);
        assert(self@ =~= old(self)@.insert(node.0, shards@.map_values(|s: ShardAssignment| s@)));
    }

    /// Builds the state of shard `shard` of `node`: its recorded path map
    /// and groups, and a vector time with each incoming path at time 0. A
    /// topology mismatch where nothing is recorded for that shard, where a
    /// group names a path beyond the incoming ones, or where two groups
    /// have the same origin.
    pub fn make_node_state(&self, node: NodeIndex, shard: usize) -> (r: Result<
        NodeTimeState,
        TimeError,
    >)
        ensures
            r is Err ==> r == Err::<NodeTimeState, TimeError>(TimeError::TopologyMismatch),
            match shard_at(self@, node.0, shard as int) {
                None => r is Err,
                Some(a) => ((groups_within(a.groups, a.incoming_paths) && a.origins.no_duplicates())
                    <==> r is Ok) && (r matches Ok(s) ==> s.wf() && s.times() == Seq::new(
                    a.incoming_paths,
                    |i: int| 0u64,
                ) && s.path_map() == a.map && s.groups() == a.groups && s.origins() == a.origins),
            },
    {
        match self.assignments.get(&node.0) {
            None => Err(TimeError::TopologyMismatch),
            Some(shards) => {
                if shard < shards.len() {
                    let a = &shards[shard];
                    NodeTimeState::new(
                        VectorTime::with_length(a.incoming_paths),
                        a.paths.copy(),
                        copy_groups(&a.base_paths),
                    )
                } else {
                    Err(TimeError::TopologyMismatch)
                }
            },
        }
    }
}

impl Default for PathAssignments {
    fn default() -> (r: PathAssignments)
        ensures
            r@ == Map::<u32, Seq<ShardAssignmentView>>::empty(),
    {
        PathAssignments::new()
    }
}

} // verus!
