//! A relational semantics for the query tree: which entity set each tree
//! denotes over a given database state, and the guarantee that presence and
//! absence filters on the same marker split a query's entities exactly in
//! two.

use vstd::prelude::*;

use crate::cte::CommonTableExpression;
use crate::value::Value;

verus! {

/// A database state, as far as entity membership goes: each table name maps
/// to the set of entities that have a row in that table.
pub type TableEntities = Map<Seq<char>, Set<Value>>;

/// The entities a tree's query yields over the given database state.
///
/// A leaf yields its table's entities; a merge keeps the entities present
/// in every non-optional child (an optional child is left-joined and drops
/// nothing); an include keeps the base's entities that the required tree
/// also has, and an exclude keeps those that the excluded tree does not
/// have.
pub open spec fn spec_entities(t: CommonTableExpression, db: TableEntities) -> Set<Value>
    decreases t, 1int,
    via spec_entities_dec
{
    match t {
        CommonTableExpression::Extract(e) => if db.dom().contains(e.table@) {
            db[e.table@]
        } else {
            Set::empty()
        },
        CommonTableExpression::Optional(o) => spec_entities(*o.inner, db),
        CommonTableExpression::Merge(m) => spec_entities_merge(m.tables@, db),
        CommonTableExpression::Include(i) => spec_entities(*i.base, db).intersect(
            spec_entities(*i.required, db),
        ),
        CommonTableExpression::Exclude(x) => spec_entities(*x.base, db).difference(
            spec_entities(*x.excluded, db),
        ),
    }
}

/// The entities of a merge: those of the first child, narrowed by each
/// later non-optional child.
pub open spec fn spec_entities_merge(ts: Seq<CommonTableExpression>, db: TableEntities) -> Set<
    Value,
>
    decreases ts, 0int,
    via spec_entities_merge_dec
{
    if ts.len() == 0 {
        Set::empty()
    } else if ts.len() == 1 {
        spec_entities(ts[0], db)
    } else if ts.last() is Optional {
        spec_entities_merge(ts.drop_last(), db)
    } else {
        spec_entities_merge(ts.drop_last(), db).intersect(spec_entities(ts.last(), db))
    }
}

#[via_fn]
proof fn spec_entities_dec(t: CommonTableExpression, db: TableEntities) {
    broadcast use vstd::std_specs::vec::axiom_vec_decreases_to_view;

    match t {
        CommonTableExpression::Merge(m) => {
            assert(decreases_to!(t => m.tables));
            assert(decreases_to!(m.tables => m.tables@));
        },
        _ => {
        },
    }
}

#[via_fn]
proof fn spec_entities_merge_dec(ts: Seq<CommonTableExpression>, db: TableEntities) {
    broadcast use vstd::seq::axiom_seq_index_decreases;

    if ts.len() > 0 {
        assert(decreases_to!(ts => ts[0]));
        assert(ts.drop_last() == ts.subrange(0, ts.len() - 1));
        assert(decreases_to!(ts => ts.subrange(0, ts.len() - 1)));
        assert(ts.last() == ts[ts.len() - 1]);
        assert(decreases_to!(ts => ts[ts.len() - 1]));
    }
}

/// A disjoint union's size is the sum of its parts' sizes.
proof fn lemma_disjoint_union_len<A>(a: Set<A>, b: Set<A>)
    requires
        a.finite(),
        b.finite(),
        a.disjoint(b),
    ensures
        a.union(b).len() == a.len() + b.len(),
    decreases a.len(),
{
    if a.is_empty() {
        assert(a.union(b) =~= b);
    } else {
        let x = a.choose();
        assert(a.contains(x));
        assert(a.union(b).remove(x) =~= a.remove(x).union(b));
        lemma_disjoint_union_len(a.remove(x), b);
        assert(a.union(b) == a.union(b).remove(x).insert(x));
    }
}

/// Filtering a query by the presence of a marker and by its absence splits
/// the query's entities exactly in two: the presence filter yields the
/// entities that the marker's tree also has, the absence filter yields the
/// complementary ones, nothing is yielded twice and nothing is lost; over a
/// finite entity set the two result sizes add up to the unfiltered size.
pub proof fn lemma_with_without_partition(
    with_tree: CommonTableExpression,
    without_tree: CommonTableExpression,
    base: CommonTableExpression,
    marker: CommonTableExpression,
    db: TableEntities,
)
    requires
        (with_tree matches CommonTableExpression::Include(i) && *i.base == base && *i.required
            == marker),
        (without_tree matches CommonTableExpression::Exclude(x) && *x.base == base && *x.excluded
            == marker),
    ensures
        spec_entities(with_tree, db) == spec_entities(base, db).intersect(
            spec_entities(marker, db),
        ),
        spec_entities(without_tree, db) == spec_entities(base, db).difference(
            spec_entities(marker, db),
        ),
        spec_entities(with_tree, db).disjoint(spec_entities(without_tree, db)),
        spec_entities(with_tree, db).union(spec_entities(without_tree, db)) == spec_entities(
            base,
            db,
        ),
        spec_entities(base, db).finite() ==> spec_entities(with_tree, db).len() + spec_entities(
            without_tree,
            db,
        ).len() == spec_entities(base, db).len(),
{
    let b = spec_entities(base, db);
    let m = spec_entities(marker, db);
    let w = spec_entities(with_tree, db);
    let wo = spec_entities(without_tree, db);
    assert(w == b.intersect(m));
    assert(wo == b.difference(m));
    assert(w.disjoint(wo));
    assert(w.union(wo) =~= b);
    if b.finite() {
        vstd::set_lib::lemma_len_subset(w, b);
        vstd::set_lib::lemma_len_subset(wo, b);
        lemma_disjoint_union_len(w, wo);
    }
}

} // verus!
