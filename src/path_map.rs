use vstd::prelude::*;

use crate::time::{Path, TimeError};

verus! {

/// The ids of a row of paths.
pub open spec fn path_ids(row: Seq<Path>) -> Seq<u64> {
    row.map_values(|p: Path| p.0)
}

/// What `lookup(ancestor, incoming)` gives on a map whose view is `m`:
/// `None` when the ancestor or the incoming path lies outside the table.
pub open spec fn lookup_spec(m: Option<Seq<Seq<u64>>>, ancestor: int, incoming: u64) -> Option<u64> {
    match m {
        None => Some(incoming),
        Some(t) => if 0 <= ancestor < t.len() && incoming < t[ancestor].len() {
            Some(t[ancestor][incoming as int])
        } else {
            None
        },
    }
}

/// Translates, at one node and shard, an ancestor's outgoing path into this
/// node's outgoing path. Without a table every path is kept as it is.
#[derive(Clone, Debug)]
pub struct PathMap(Option<Vec<Vec<Path>>>);

impl View for PathMap {
    /// `None` for the identity; else, per ancestor, the outgoing path id
    /// for each incoming path id.
    type V = Option<Seq<Seq<u64>>>;

    closed spec fn view(&self) -> Option<Seq<Seq<u64>>> {
        match self.0 {
            None => None,
            Some(t) => Some(t@.map_values(|row: Vec<Path>| path_ids(row@))),
        }
    }
}

/// Copies a row of paths.
pub(crate) fn copy_row(row: &Vec<Path>) -> (r: Vec<Path>)
    ensures
        r@ == row@,
{
    let mut r: Vec<Path> = Vec::new();
    let mut i: usize = 0;
    while i < row.len()
        invariant
            i <= row.len(),
            r@ == row@.subrange(0, i as int),
        decreases row.len() - i,
    {
        r.push(row[i]);
        i = i + 1;
    }
    assert(r@ =~= row@);
    r
}

impl PathMap {
    /// The map of a node that neither splits nor merges paths.
    pub fn identity() -> (r: PathMap)
        ensures
            r@ is None,
    {
        PathMap(None)
    }

    /// The map that sends path `p` from ancestor `a` to `table[a][p]`.
    pub fn from_table(table: Vec<Vec<Path>>) -> (r: PathMap)
        ensures
            r@ == Some(table@.map_values(|row: Vec<Path>| path_ids(row@))),
    {
        PathMap(Some(table))
    }

    /// The outgoing path for an update that came from `ancestor` on
    /// `incoming`; an error where the table has no such entry.
    pub fn lookup(&self, ancestor: usize, incoming: Path) -> (r: Result<Path, TimeError>)
        ensures
            match lookup_spec(self@, ancestor as int, incoming.0) {
                Some(p) => r == Ok::<Path, TimeError>(Path(p)),
                None => r == Err::<Path, TimeError>(TimeError::TopologyMismatch),
            },
    {
        match &self.0 {
            None => Ok(incoming),
            Some(t) => {
                if ancestor < t.len() && incoming.0 < t[ancestor].len() as u64 {
                    Ok(t[ancestor][incoming.0 as usize])
                } else {
                    Err(TimeError::TopologyMismatch)
                }
            },
        }
    }

    /// An equal copy of this map.
    pub fn copy(&self) -> (r: PathMap)
        ensures
            r@ == self@,
    {
        match &self.0 {
            None => PathMap(None),
            Some(t) => {
                let mut c: Vec<Vec<Path>> = Vec::new();
                let mut i: usize = 0;
                while i < t.len()
                    invariant
                        i <= t.len(),
                        c@.len() == i,
                        forall|k: int| 0 <= k < i ==> #[trigger] c@[k]@ == t@[k]@,
                    decreases t.len() - i,
                {
                    let row = copy_row(&t[i]);
                    c.push(row);
                    i = i + 1;
                }
                let r = PathMap(Some(c));
                assert(c@.map_values(|row: Vec<Path>| path_ids(row@)) =~= t@.map_values(
                    |row: Vec<Path>| path_ids(row@),
                ));
                r
            },
        }
    }
}

} // verus!
