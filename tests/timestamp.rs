use dataflow::assignments::{PathAssignments, ShardAssignment};
use dataflow::node_state::{BasePathGroup, NodeIndex, NodeTimeState};
use dataflow::path_map::PathMap;
use dataflow::time::{Path, Time, TimeComponent, TimeError, TimestampAssigner, ORIGIN_PATH};
use dataflow::vector_time::VectorTime;

fn tc(path: u64, time: u64) -> TimeComponent {
    TimeComponent { path: Path(path), time: Time(time) }
}

fn group(origin: u32, shard: usize, paths: &[u64]) -> BasePathGroup {
    BasePathGroup { origin: NodeIndex(origin), shard, paths: paths.iter().map(|p| Path(*p)).collect() }
}

fn table(rows: &[&[u64]]) -> PathMap {
    PathMap::from_table(rows.iter().map(|r| r.iter().map(|p| Path(*p)).collect()).collect())
}

#[test]
fn assign_counts_up_from_zero_on_origin_path() {
    let mut a = TimestampAssigner::new();
    for expected in 0..5u64 {
        let c = a.assign();
        assert_eq!(c.time, Time(expected));
        assert_eq!(c.path, Path(ORIGIN_PATH));
    }
    assert_eq!(a.next_time(), 5);
}

#[test]
fn default_assigner_starts_at_zero() {
    let mut a = TimestampAssigner::default();
    assert_eq!(a.assign(), tc(0, 0));
}

#[test]
fn clone_before_use_is_independent() {
    let mut a = TimestampAssigner::new();
    let mut b = a.try_clone().unwrap();
    assert_eq!(a.assign().time, Time(0));
    assert_eq!(a.assign().time, Time(1));
    assert_eq!(b.assign().time, Time(0));
}

#[test]
fn clone_after_use_fails() {
    let mut a = TimestampAssigner::new();
    a.assign();
    assert_eq!(a.try_clone().err(), Some(TimeError::DuplicateGeneratorInvariant));
}

#[test]
fn extend_accepts_only_next_path() {
    let mut v = VectorTime::new();
    assert_eq!(v.extend(tc(0, 3)), Ok(()));
    assert_eq!(v.extend(tc(1, 0)), Ok(()));
    assert_eq!(v.len(), 2);
    assert_eq!(v.get(Path(0)), Some(Time(3)));
    assert_eq!(v.extend(tc(3, 0)), Err(TimeError::OrderingInvariantViolation));
    assert_eq!(v.extend(tc(1, 0)), Err(TimeError::OrderingInvariantViolation));
    assert_eq!(v.len(), 2);
    assert_eq!(v.extend(tc(2, 0)), Ok(()));
}

#[test]
fn advance_accepts_only_successor() {
    let mut v = VectorTime::with_length(2);
    assert_eq!(v.advance(tc(1, 1)), Ok(()));
    assert_eq!(v.get(Path(1)), Some(Time(1)));
    assert_eq!(v.advance(tc(1, 1)), Err(TimeError::SequenceGapOrDuplicate));
    assert_eq!(v.advance(tc(1, 3)), Err(TimeError::SequenceGapOrDuplicate));
    assert_eq!(v.advance(tc(0, 0)), Err(TimeError::SequenceGapOrDuplicate));
    assert_eq!(v.get(Path(1)), Some(Time(1)));
    assert_eq!(v.get(Path(0)), Some(Time(0)));
    assert_eq!(v.advance(tc(2, 1)), Err(TimeError::TopologyMismatch));
    assert_eq!(v.get(Path(2)), None);
}

#[test]
fn advance_at_largest_time_fails() {
    let mut v = VectorTime::new();
    v.extend(tc(0, u64::MAX)).unwrap();
    assert_eq!(v.advance(tc(0, 0)), Err(TimeError::SequenceGapOrDuplicate));
    assert_eq!(v.get(Path(0)), Some(Time(u64::MAX)));
}

#[test]
fn identity_map_keeps_path() {
    let m = PathMap::identity();
    for ancestor in [0usize, 1, 7, usize::MAX] {
        for p in [0u64, 3, u64::MAX] {
            assert_eq!(m.lookup(ancestor, Path(p)), Ok(Path(p)));
        }
    }
}

#[test]
fn table_map_looks_up_and_rejects_out_of_range() {
    let m = table(&[&[4, 2], &[0, 1, 5]]);
    assert_eq!(m.lookup(0, Path(1)), Ok(Path(2)));
    assert_eq!(m.lookup(1, Path(2)), Ok(Path(5)));
    assert_eq!(m.lookup(0, Path(2)), Err(TimeError::TopologyMismatch));
    assert_eq!(m.lookup(2, Path(0)), Err(TimeError::TopologyMismatch));
    let c = m.copy();
    assert_eq!(c.lookup(1, Path(2)), Ok(Path(5)));
}

#[test]
fn consistency_of_two_groups() {
    let groups = vec![group(1, 0, &[0, 1]), group(2, 0, &[2, 3])];
    let mut s = NodeTimeState::new(VectorTime::with_length(4), PathMap::identity(), groups).unwrap();
    assert!(s.is_consistent());
    s.process_update(0, tc(0, 1)).unwrap();
    s.process_update(0, tc(1, 1)).unwrap();
    s.process_update(0, tc(2, 1)).unwrap();
    assert!(!s.is_consistent());
    s.process_update(0, tc(3, 1)).unwrap();
    assert!(s.is_consistent());
}

#[test]
fn empty_group_is_consistent() {
    let groups = vec![group(1, 0, &[]), group(1, 1, &[0])];
    let s = NodeTimeState::new(VectorTime::with_length(1), PathMap::identity(), groups).unwrap();
    assert!(s.is_consistent());
}

#[test]
fn group_beyond_known_paths_is_rejected() {
    let groups = vec![group(1, 0, &[0, 2])];
    let r = NodeTimeState::new(VectorTime::with_length(2), PathMap::identity(), groups);
    assert_eq!(r.err(), Some(TimeError::TopologyMismatch));
}

#[test]
fn process_update_advances_and_remaps() {
    let mut v = VectorTime::with_length(3);
    for t in 1..=6u64 {
        v.advance(tc(2, t)).unwrap();
    }
    let mut s = NodeTimeState::new(v, table(&[&[0, 1, 5]]), Vec::new()).unwrap();
    assert_eq!(s.process_update(0, tc(2, 7)), Ok(tc(5, 7)));
    assert_eq!(s.vector_time().get(Path(2)), Some(Time(7)));
}

#[test]
fn process_update_errors_leave_state() {
    let mut s = NodeTimeState::new(VectorTime::with_length(2), table(&[&[0, 1]]), Vec::new()).unwrap();
    assert_eq!(s.process_update(0, tc(0, 2)), Err(TimeError::SequenceGapOrDuplicate));
    assert_eq!(s.process_update(1, tc(0, 1)), Err(TimeError::TopologyMismatch));
    assert_eq!(s.process_update(0, tc(4, 1)), Err(TimeError::TopologyMismatch));
    assert_eq!(s.vector_time().get(Path(0)), Some(Time(0)));
    assert_eq!(s.process_update(0, tc(0, 1)), Ok(tc(0, 1)));
}

#[test]
fn fan_out_and_merge_scenario() {
    let mut base = TimestampAssigner::new();
    let updates: Vec<TimeComponent> = base.assign_batch(3);
    assert_eq!(updates.iter().map(|u| u.time.0).collect::<Vec<u64>>(), vec![0, 1, 2]);

    // The two redundant copies: one relabels the origin path as A = 0, the
    // other as B = 1.
    let copy_state = |out: u64| {
        let mut v = VectorTime::new();
        v.extend(updates[0]).unwrap();
        NodeTimeState::new(v, table(&[&[out]]), Vec::new()).unwrap()
    };
    let mut copy_a = copy_state(0);
    let mut copy_b = copy_state(1);
    let a1 = copy_a.process_update(0, updates[1]).unwrap();
    let a2 = copy_a.process_update(0, updates[2]).unwrap();
    let b1 = copy_b.process_update(0, updates[1]).unwrap();
    let b2 = copy_b.process_update(0, updates[2]).unwrap();
    assert_eq!((a1, a2, b1, b2), (tc(0, 1), tc(0, 2), tc(1, 1), tc(1, 2)));

    // The merge node saw update 0 on both paths, which registered them.
    let mut v = VectorTime::new();
    v.extend(tc(0, 0)).unwrap();
    v.extend(tc(1, 0)).unwrap();
    let mut merge = NodeTimeState::new(v, PathMap::identity(), vec![group(0, 0, &[0, 1])]).unwrap();
    assert_eq!(merge.process_update(0, a1), Ok(a1));
    assert_eq!(merge.process_update(0, a2), Ok(a2));
    assert_eq!(merge.process_update(1, b1), Ok(b1));
    assert!(!merge.is_consistent());
    assert_eq!(merge.process_update(1, b2), Ok(b2));
    assert!(merge.is_consistent());
}

#[test]
fn assignments_build_node_states() {
    let mut pa = PathAssignments::new();
    pa.add_node(
        NodeIndex(3),
        vec![
            ShardAssignment { paths: table(&[&[1, 0]]), incoming_paths: 2, base_paths: vec![group(0, 0, &[0, 1])] },
            ShardAssignment { paths: PathMap::identity(), incoming_paths: 1, base_paths: vec![group(0, 1, &[4])] },
        ],
    );
    let mut s = pa.make_node_state(NodeIndex(3), 0).unwrap();
    assert_eq!(s.vector_time().len(), 2);
    assert_eq!(s.vector_time().get(Path(1)), Some(Time(0)));
    assert!(s.is_consistent());
    assert_eq!(s.process_update(0, tc(0, 1)), Ok(tc(1, 1)));
    assert!(!s.is_consistent());
    assert_eq!(pa.make_node_state(NodeIndex(3), 1).err(), Some(TimeError::TopologyMismatch));
    assert_eq!(pa.make_node_state(NodeIndex(3), 2).err(), Some(TimeError::TopologyMismatch));
    assert_eq!(pa.make_node_state(NodeIndex(4), 0).err(), Some(TimeError::TopologyMismatch));
    let d = PathAssignments::default();
    assert_eq!(d.make_node_state(NodeIndex(3), 0).err(), Some(TimeError::TopologyMismatch));
}

#[test]
fn assign_batch_continues_the_sequence() {
    let mut a = TimestampAssigner::new();
    a.assign();
    let batch = a.assign_batch(4);
    assert_eq!(batch, vec![tc(0, 1), tc(0, 2), tc(0, 3), tc(0, 4)]);
    assert_eq!(a.next_time(), 5);
    assert_eq!(a.assign_batch(0), Vec::new());
    assert_eq!(a.assign().time, Time(5));
}

#[test]
fn groups_with_same_origin_are_rejected() {
    let groups = vec![group(1, 0, &[0]), group(1, 0, &[1])];
    let r = NodeTimeState::new(VectorTime::with_length(2), PathMap::identity(), groups);
    assert_eq!(r.err(), Some(TimeError::TopologyMismatch));
    let groups = vec![group(1, 0, &[0]), group(1, 1, &[1])];
    assert!(NodeTimeState::new(VectorTime::with_length(2), PathMap::identity(), groups).is_ok());
}

#[test]
fn assignment_with_same_origin_twice_is_rejected() {
    let mut pa = PathAssignments::new();
    pa.add_node(
        NodeIndex(1),
        vec![ShardAssignment {
            paths: PathMap::identity(),
            incoming_paths: 2,
            base_paths: vec![group(0, 0, &[0]), group(0, 0, &[1])],
        }],
    );
    assert_eq!(pa.make_node_state(NodeIndex(1), 0).err(), Some(TimeError::TopologyMismatch));
}

#[test]
fn vector_times_compare_by_paths_and_times() {
    let mut a = VectorTime::with_length(2);
    let b = a.clone();
    assert!(a == b);
    a.advance(tc(1, 1)).unwrap();
    assert!(a != b);
    assert!(a != VectorTime::with_length(3));
    let mut c = VectorTime::new();
    c.extend(tc(0, 0)).unwrap();
    c.extend(tc(1, 1)).unwrap();
    assert!(a == c);
}

#[test]
fn cloned_node_state_is_independent() {
    let groups = vec![group(1, 0, &[0, 1])];
    let mut s = NodeTimeState::new(VectorTime::with_length(2), PathMap::identity(), groups).unwrap();
    let t = s.clone();
    s.process_update(0, tc(0, 1)).unwrap();
    assert!(!s.is_consistent());
    assert!(t.is_consistent());
    assert_eq!(t.vector_time().get(Path(0)), Some(Time(0)));
}
