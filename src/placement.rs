use vstd::prelude::*;

verus! {

/// The index of a domain of the dataflow graph.
#[derive(Copy, Clone, Debug, PartialEq, Eq, Structural, PartialOrd, Ord, Hash)]
pub struct DomainIndex(pub usize);

/// The identifier of a worker that can host domains.
#[derive(Copy, Clone, Debug, PartialEq, Eq, Structural, PartialOrd, Ord, Hash)]
pub struct WorkerIdentifier(pub u64);

/// The ids of a list of workers.
pub open spec fn worker_ids(ws: Seq<WorkerIdentifier>) -> Seq<u64> {
    ws.map_values(|w: WorkerIdentifier| w.0)
}

/// Chooses the worker that hosts a shard of a domain; `None` when no
/// worker is available.
pub trait DomainPlacementStrategy {
    fn place_domain(&mut self, d: &DomainIndex, s: usize) -> Option<WorkerIdentifier>;
}

/// Copies a list of worker identifiers.
fn copy_workers(workers: &Vec<WorkerIdentifier>) -> (r: Vec<WorkerIdentifier>)
    ensures
        r@ == workers@,
{
    let mut r: Vec<WorkerIdentifier> = Vec::new();
    let mut i: usize = 0;
    while i < workers.len()
        invariant
            i <= workers.len(),
            r@ == workers@.subrange(0, i as int),
        decreases workers.len() - i,
    {
        r.push(workers[i]);
        i = i + 1;
    }
    assert(r@ =~= workers@);
    r
}

/// Hands out the workers in turn, starting again after the last.
#[derive(Debug)]
pub struct RoundRobinPlacer {
    ids: Vec<WorkerIdentifier>,
    next: usize,
}

impl RoundRobinPlacer {
    /// The workers, in the order in which they are handed out.
    pub closed spec fn workers(&self) -> Seq<u64> {
        worker_ids(self.ids@)
    }

    /// The position, modulo the number of workers, of the next one.
    pub closed spec fn cursor(&self) -> nat {
        self.next as nat
    }

    /// A placer over `workers`, which are distinct, that starts with the
    /// first one.
    pub fn new(workers: &Vec<WorkerIdentifier>) -> (r: RoundRobinPlacer)
        requires
            worker_ids(workers@).no_duplicates(),
        ensures
            r.workers() == worker_ids(workers@),
            r.cursor() == 0,
    {
        RoundRobinPlacer { ids: copy_workers(workers), next: 0 }
    }

    /// The next worker in turn, whatever the domain and shard.
    pub fn place(&mut self) -> (r: Option<WorkerIdentifier>)
        ensures
            final(self).workers() == old(self).workers(),
            old(self).workers().len() == 0 <==> r is None,
            r is None ==> final(self).cursor() == old(self).cursor(),
            r matches Some(w) ==> {
                let n = old(self).workers().len();
                let k = old(self).cursor() % n;
                &&& w.0 == old(self).workers()[k as int]
                &&& final(self).cursor() == (k + 1) % n
            },
    {
        let n = self.ids.len();
        if n == 0 {
            return None;
        }
        let k = self.next % n;
        let w = self.ids[k];
        assert(old(self).workers()[k as int] == w.0);
        if k + 1 == n {
            self.next = 0;
            assert((k + 1) as nat % n as nat == 0) by (nonlinear_arith)
                requires
                    k + 1 == n,
                    n > 0,
            ;
        } else {
            self.next = k + 1;
            assert((k + 1) as nat % n as nat == k + 1) by (nonlinear_arith)
                requires
                    k + 1 < n,
            ;
        }
        Some(w)
    }
}

impl DomainPlacementStrategy for RoundRobinPlacer {
    /// The next worker in turn, whatever the domain and shard.
    fn place_domain(&mut self, _d: &DomainIndex, _s: usize) -> (r: Option<WorkerIdentifier>)
        ensures
            final(self).workers() == old(self).workers(),
            old(self).workers().len() == 0 <==> r is None,
            r is None ==> final(self).cursor() == old(self).cursor(),
            r matches Some(w) ==> {
                let n = old(self).workers().len();
                let k = old(self).cursor() % n;
                &&& w.0 == old(self).workers()[k as int]
                &&& final(self).cursor() == (k + 1) % n
            },
    {
        self.place()
    }
}

/// Places shard `s` on worker `s` modulo the number of workers.
#[derive(Debug)]
pub struct ShardIdPlacer {
    ids: Vec<WorkerIdentifier>,
}

impl ShardIdPlacer {
    /// The workers, by position.
    pub closed spec fn workers(&self) -> Seq<u64> {
        worker_ids(self.ids@)
    }

    /// A placer over `workers`, which are distinct.
    pub fn new(workers: &Vec<WorkerIdentifier>) -> (r: ShardIdPlacer)
        requires
            worker_ids(workers@).no_duplicates(),
        ensures
            r.workers() == worker_ids(workers@),
    {
        ShardIdPlacer { ids: copy_workers(workers) }
    }

    /// The worker for shard `s`, whatever the domain.
    pub fn place(&self, s: usize) -> (r: Option<WorkerIdentifier>)
        ensures
            self.workers().len() == 0 <==> r is None,
            r matches Some(w) ==> w.0 == self.workers()[s as int % self.workers().len() as int],
    {
        let n = self.ids.len();
        if n == 0 {
            None
        } else {
            Some(self.ids[s % n])
        }
    }
}

impl DomainPlacementStrategy for ShardIdPlacer {
    /// The worker at position `s` modulo the number of workers, whatever
    /// the domain; the placer does not change.
    fn place_domain(&mut self, _d: &DomainIndex, s: usize) -> (r: Option<WorkerIdentifier>)
        ensures
            final(self).workers() == old(self).workers(),
            old(self).workers().len() == 0 <==> r is None,
            r matches Some(w) ==> w.0 == old(self).workers()[s as int % old(self).workers().len() as int],
    {
        self.place(s)
    }
}

} // verus!
