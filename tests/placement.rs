use dataflow::placement::{
    DomainIndex, DomainPlacementStrategy, RoundRobinPlacer, ShardIdPlacer, WorkerIdentifier,
};

fn workers(ids: &[u64]) -> Vec<WorkerIdentifier> {
    ids.iter().map(|i| WorkerIdentifier(*i)).collect()
}

#[test]
fn round_robin_cycles_through_workers() {
    let mut p = RoundRobinPlacer::new(&workers(&[7, 8, 9]));
    let d = DomainIndex(0);
    let got: Vec<u64> = (0..7).map(|s| p.place_domain(&d, s).unwrap().0).collect();
    assert_eq!(got, vec![7, 8, 9, 7, 8, 9, 7]);
}

#[test]
fn round_robin_without_workers_places_nothing() {
    let mut p = RoundRobinPlacer::new(&Vec::new());
    assert_eq!(p.place_domain(&DomainIndex(1), 0), None);
}

#[test]
fn shard_id_placer_uses_shard_modulo() {
    let mut p = ShardIdPlacer::new(&workers(&[10, 20, 30]));
    let d = DomainIndex(2);
    assert_eq!(p.place_domain(&d, 0), Some(WorkerIdentifier(10)));
    assert_eq!(p.place_domain(&d, 4), Some(WorkerIdentifier(20)));
    assert_eq!(p.place_domain(&d, 5), Some(WorkerIdentifier(30)));
    assert_eq!(p.place(4), Some(WorkerIdentifier(20)));
}

#[test]
fn shard_id_placer_without_workers_places_nothing() {
    let mut p = ShardIdPlacer::new(&Vec::new());
    assert_eq!(p.place_domain(&DomainIndex(0), 3), None);
}

#[test]
fn round_robin_window_holds_each_worker_once() {
    let ids = [3u64, 1, 4, 5];
    let mut p = RoundRobinPlacer::new(&workers(&ids));
    let got: Vec<u64> = (0..12).map(|_| p.place().unwrap().0).collect();
    for start in 0..=8 {
        let mut window: Vec<u64> = got[start..start + 4].to_vec();
        window.sort();
        assert_eq!(window, vec![1, 3, 4, 5]);
    }
}

#[test]
fn shard_id_placer_ignores_domain_and_history() {
    let mut p = ShardIdPlacer::new(&workers(&[10, 20, 30]));
    let first = p.place_domain(&DomainIndex(0), 7);
    p.place_domain(&DomainIndex(5), 2);
    assert_eq!(p.place_domain(&DomainIndex(9), 7), first);
    assert_eq!(p.place_domain(&DomainIndex(0), 10), first);
    assert_eq!(first, Some(WorkerIdentifier(20)));
}
