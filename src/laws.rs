use vstd::prelude::*;

use crate::path_map::lookup_spec;
use crate::time::{Path, Time, TimeComponent};
use crate::vector_time::advance_ok;

verus! {

/// A path map without a table sends every incoming path to itself, for
/// every ancestor.
pub proof fn lemma_identity_lookup(ancestor: int, incoming: u64)
    ensures
        lookup_spec(None, ancestor, incoming) == Some(incoming),
{
}

/// Where path `p` holds time `t`, advancing it succeeds with `t + 1` and
/// with no other time.
pub proof fn lemma_advance_exact_successor(v: Seq<u64>, p: u64, u: u64)
    requires
        p < v.len(),
    ensures
        advance_ok(v, TimeComponent { path: Path(p), time: Time(u) }) <==> u == v[p as int] + 1,
{
}

} // verus!
