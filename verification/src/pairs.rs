//! Lists of name/value string pairs read as maps: a later pair replaces an
//! earlier one with the same name.
use vstd::prelude::*;

verus! {

/// Names to values.
pub type StringMap = Map<Seq<char>, Seq<char>>;

/// The map that a list of pairs stands for.
pub open spec fn pairs_map(pairs: Seq<(String, String)>) -> StringMap
    decreases pairs.len(),
{
    if pairs.len() == 0 {
        StringMap::empty()
    } else {
        pairs_map(pairs.drop_last()).insert(pairs.last().0@, pairs.last().1@)
    }
}

/// No name occurs twice.
pub open spec fn distinct_names(pairs: Seq<(String, String)>) -> bool {
    forall|i: int, j: int|
        0 <= i < pairs.len() && 0 <= j < pairs.len() && i != j ==> #[trigger] pairs[i].0@
            != #[trigger] pairs[j].0@
}

/// Where names are distinct, each pair's value is the map's value.
pub proof fn lemma_pairs_map_entry(pairs: Seq<(String, String)>, i: int)
    requires
        distinct_names(pairs),
        0 <= i < pairs.len(),
    ensures
        pairs_map(pairs).contains_key(pairs[i].0@),
        pairs_map(pairs)[pairs[i].0@] == pairs[i].1@,
    decreases pairs.len(),
{
    if i < pairs.len() - 1 {
        let rest = pairs.drop_last();
        assert(rest[i] == pairs[i]);
        assert(distinct_names(rest)) by {
            assert forall|a: int, b: int|
                0 <= a < rest.len() && 0 <= b < rest.len() && a != b implies #[trigger] rest[a].0@
                != #[trigger] rest[b].0@ by {
                assert(rest[a] == pairs[a] && rest[b] == pairs[b]);
            }
        }
        lemma_pairs_map_entry(rest, i);
        assert(pairs[i].0@ != pairs.last().0@);
    }
}

/// A name that no pair has is not in the map; one that some pair has is.
pub proof fn lemma_pairs_map_domain(pairs: Seq<(String, String)>, name: Seq<char>)
    ensures
        pairs_map(pairs).contains_key(name) <==> exists|i: int|
            0 <= i < pairs.len() && #[trigger] pairs[i].0@ == name,
    decreases pairs.len(),
{
    if pairs.len() > 0 {
        let rest = pairs.drop_last();
        lemma_pairs_map_domain(rest, name);
        if pairs_map(pairs).contains_key(name) {
            if name == pairs.last().0@ {
                assert(pairs[pairs.len() - 1].0@ == name);
            } else {
                let i = choose|i: int| 0 <= i < rest.len() && #[trigger] rest[i].0@ == name;
                assert(pairs[i] == rest[i]);
            }
        }
        if exists|i: int| 0 <= i < pairs.len() && #[trigger] pairs[i].0@ == name {
            let i = choose|i: int| 0 <= i < pairs.len() && #[trigger] pairs[i].0@ == name;
            if i < pairs.len() - 1 {
                assert(rest[i] == pairs[i]);
            }
        }
    }
}

/// Replacing the value of the pair that holds `name`, in a list with
/// distinct names, replaces the map's value of `name`.
pub proof fn lemma_pairs_map_update(pairs: Seq<(String, String)>, i: int, p: (String, String))
    requires
        distinct_names(pairs),
        0 <= i < pairs.len(),
        p.0@ == pairs[i].0@,
    ensures
        pairs_map(pairs.update(i, p)) == pairs_map(pairs).insert(p.0@, p.1@),
        distinct_names(pairs.update(i, p)),
    decreases pairs.len(),
{
    let upd = pairs.update(i, p);
    assert(distinct_names(upd)) by {
        assert forall|a: int, b: int|
            0 <= a < upd.len() && 0 <= b < upd.len() && a != b implies #[trigger] upd[a].0@
            != #[trigger] upd[b].0@ by {
            assert(upd[a].0@ == pairs[a].0@ && upd[b].0@ == pairs[b].0@);
        }
    }
    let rest = pairs.drop_last();
    if i == pairs.len() - 1 {
        assert(upd.drop_last() =~= rest);
        assert(pairs_map(upd) =~= pairs_map(pairs).insert(p.0@, p.1@));
    } else {
        assert(distinct_names(rest)) by {
            assert forall|a: int, b: int|
                0 <= a < rest.len() && 0 <= b < rest.len() && a != b implies #[trigger] rest[a].0@
                != #[trigger] rest[b].0@ by {
                assert(rest[a] == pairs[a] && rest[b] == pairs[b]);
            }
        }
        assert(upd.drop_last() =~= rest.update(i, p));
        lemma_pairs_map_update(rest, i, p);
        assert(pairs[i].0@ != pairs.last().0@);
        assert(upd.last() == pairs.last());
        assert(pairs_map(upd) =~= pairs_map(pairs).insert(p.0@, p.1@));
    }
}

/// Appending a pair with a new name keeps the names distinct.
pub proof fn lemma_distinct_push(pairs: Seq<(String, String)>, p: (String, String))
    requires
        distinct_names(pairs),
        forall|i: int| 0 <= i < pairs.len() ==> #[trigger] pairs[i].0@ != p.0@,
    ensures
        distinct_names(pairs.push(p)),
{
    let q = pairs.push(p);
    assert forall|a: int, b: int|
        0 <= a < q.len() && 0 <= b < q.len() && a != b implies #[trigger] q[a].0@
        != #[trigger] q[b].0@ by {
        if a < pairs.len() && b < pairs.len() {
            assert(q[a] == pairs[a] && q[b] == pairs[b]);
        } else if a < pairs.len() {
            assert(q[a] == pairs[a]);
        } else {
            assert(q[b] == pairs[b]);
        }
    }
}

} // verus!
