//! Building flag tables from listed entries.
//!
//! Tables are handed to this library as a list of `(name, value)` pairs and
//! stored as hash maps keyed by the flag name. A later entry for the same
//! name replaces an earlier one, exactly as inserting the pairs in order
//! would.

use vstd::prelude::*;
use vstd::hash_map::StringHashMap;

verus! {

/// The map that inserting the listed entries in order produces: a later
/// entry for the same name wins.
pub open spec fn map_of<V>(entries: Seq<(String, V)>) -> Map<Seq<char>, V>
    decreases entries.len(),
{
    if entries.len() == 0 {
        Map::<Seq<char>, V>::empty()
    } else {
        map_of(entries.drop_last()).insert(entries.last().0@, entries.last().1)
    }
}

/// Builds a hash table from the listed entries, inserting them in order.
pub fn build_table<V>(entries: Vec<(String, V)>) -> (r: StringHashMap<V>)
    ensures
        r@ == map_of(entries@),
{
    let ghost all = entries@;
    let total: usize = entries.len();
    let mut entries = entries;
    let mut table = StringHashMap::<V>::new();
    let mut done: usize = 0;
    while entries.len() > 0
        invariant
            all.len() == total,
            done + entries.len() == all.len(),
            entries@ == all.subrange(done as int, all.len() as int),
            table@ == map_of(all.take(done as int)),
        decreases entries.len(),
    {
        let (name, value) = entries.remove(0);
        proof {
            assert(all.subrange(done as int, all.len() as int).remove(0)
                =~= all.subrange(done + 1, all.len() as int));
            assert(all.take(done + 1).drop_last() =~= all.take(done as int));
        }
        table.insert(name, value);
        done = done + 1;
    }
    proof {
        assert(all.take(done as int) =~= all);
    }
    table
}

} // verus!
