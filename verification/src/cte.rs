//! The query tree: a closed algebra of relational operators (extract,
//! merge/inner-join, include, exclude, optional) that composes into one final
//! query with deterministic naming, deduplication and text serialization.
//!
//! Every node deterministically computes a name, a projected column list and
//! a `select` body; the full statement is one `with` clause per distinct node
//! name, dependencies first, followed by `select * from` the root's name.

use vstd::prelude::*;

verus! {

/// Leaf select: projects its own columns from its own table.
pub struct Extract {
    /// The table the component is stored in.
    pub table: String,
    /// The component's declared columns, in declaration order.
    pub columns: Vec<String>,
}

/// Marks a branch as nullable when left-joined: projection and joins are the
/// inner node's, but downstream decoders treat the projected segment as
/// possibly entirely null.
pub struct Optional {
    /// The node whose projection may be entirely null.
    pub inner: Box<CommonTableExpression>,
}

/// Inner-join of all children on equal entity values; projects the
/// concatenation of each child's columns in order.
pub struct Merge {
    /// The joined children; the first is the join's base.
    pub tables: Vec<CommonTableExpression>,
}

/// Existence-only filter: inner-join `required` to `base` on entity
/// equality, keeping only `base`'s projected columns.
pub struct Include {
    /// The node whose rows and columns are kept.
    pub base: Box<CommonTableExpression>,
    /// The node whose entities must also be present.
    pub required: Box<CommonTableExpression>,
}

/// Anti-join: left-join `excluded` to `base` on entity equality and keep only
/// the rows where the joined side's entity is null, with `base`'s columns.
pub struct Exclude {
    /// The node whose rows and columns are kept.
    pub base: Box<CommonTableExpression>,
    /// The node whose entities must be absent.
    pub excluded: Box<CommonTableExpression>,
}

/// One node of the query-composition tree.
///
/// The tree is acyclic and strictly owned top-down; two structurally equal
/// trees serialize to byte-identical SQL text, which makes the text safe to
/// cache.
pub enum CommonTableExpression {
    /// Leaf select from one table.
    Extract(Extract),
    /// Nullable branch.
    Optional(Optional),
    /// Inner-join of several children.
    Merge(Merge),
    /// Existence filter.
    Include(Include),
    /// Non-existence (anti-join) filter.
    Exclude(Exclude),
}

/// Well-formedness: every merge joins at least one child. The serializer
/// needs a first child to use as the join base.
pub open spec fn spec_wf(t: CommonTableExpression) -> bool
    decreases t, 1int,
    via spec_wf_dec
{
    match t {
        CommonTableExpression::Extract(_) => true,
        CommonTableExpression::Optional(o) => spec_wf(*o.inner),
        CommonTableExpression::Merge(m) => m.tables@.len() >= 1 && spec_wf_list(m.tables@),
        CommonTableExpression::Include(i) => spec_wf(*i.base) && spec_wf(*i.required),
        CommonTableExpression::Exclude(x) => spec_wf(*x.base) && spec_wf(*x.excluded),
    }
}

/// Well-formedness of a list of children.
pub open spec fn spec_wf_list(ts: Seq<CommonTableExpression>) -> bool
    decreases ts, 0int,
    via spec_wf_list_dec
{
    if ts.len() == 0 {
        true
    } else {
        spec_wf_list(ts.drop_last()) && spec_wf(ts.last())
    }
}

#[via_fn]
proof fn spec_wf_dec(t: CommonTableExpression) {
    broadcast use vstd::std_specs::vec::axiom_vec_decreases_to_view;

    match t {
        CommonTableExpression::Merge(m) => {
            assert(decreases_to!(t => m.tables));
            assert(decreases_to!(m.tables => m.tables@));
        },
        _ => {
        },
    }
}

#[via_fn]
proof fn spec_wf_list_dec(ts: Seq<CommonTableExpression>) {
    broadcast use vstd::seq::axiom_seq_index_decreases;

    if ts.len() > 0 {
        assert(ts.drop_last() == ts.subrange(0, ts.len() - 1));
        assert(decreases_to!(ts => ts.subrange(0, ts.len() - 1)));
        assert(ts.last() == ts[ts.len() - 1]);
        assert(decreases_to!(ts => ts[ts.len() - 1]));
    }
}

/// Every well-formed list has well-formed members.
pub proof fn lemma_wf_list_index(ts: Seq<CommonTableExpression>, i: int)
    requires
        spec_wf_list(ts),
        0 <= i < ts.len(),
    ensures
        spec_wf(ts[i]),
    decreases ts.len(),
{
    if i == ts.len() - 1 {
        assert(ts.last() == ts[i]);
    } else {
        assert(ts.drop_last()[i] == ts[i]);
        lemma_wf_list_index(ts.drop_last(), i);
    }
}

/// The node's deterministic name: the underlying table for a leaf, children
/// names joined with `_` for a merge, and `_including_`/`_excluding_` pairs
/// for the filters.
pub open spec fn spec_name(t: CommonTableExpression) -> Seq<char>
    decreases t, 1int,
    via spec_name_dec
{
    match t {
        CommonTableExpression::Extract(e) => e.table@,
        CommonTableExpression::Optional(o) => spec_name(*o.inner),
        CommonTableExpression::Merge(m) => spec_merge_name(m.tables@),
        CommonTableExpression::Include(i) => spec_name(*i.base) + "_including_"@ + spec_name(
            *i.required,
        ),
        CommonTableExpression::Exclude(x) => spec_name(*x.base) + "_excluding_"@ + spec_name(
            *x.excluded,
        ),
    }
}

/// The name of a merge over the given children: their names joined with `_`.
pub open spec fn spec_merge_name(ts: Seq<CommonTableExpression>) -> Seq<char>
    decreases ts, 0int,
    via spec_merge_name_dec
{
    if ts.len() == 0 {
        Seq::empty()
    } else if ts.len() == 1 {
        spec_name(ts[0])
    } else {
        spec_merge_name(ts.drop_last()) + "_"@ + spec_name(ts.last())
    }
}

#[via_fn]
proof fn spec_name_dec(t: CommonTableExpression) {
    broadcast use vstd::std_specs::vec::axiom_vec_decreases_to_view;

    match t {
        CommonTableExpression::Merge(m) => {
            assert(decreases_to!(t => m.tables));
            assert(decreases_to!(m.tables => m.tables@));
        },
        _ => {
        },
    }
}

#[via_fn]
proof fn spec_merge_name_dec(ts: Seq<CommonTableExpression>) {
    broadcast use vstd::seq::axiom_seq_index_decreases;

    if ts.len() > 0 {
        assert(decreases_to!(ts => ts[0]));
        assert(ts.drop_last() == ts.subrange(0, ts.len() - 1));
        assert(decreases_to!(ts => ts.subrange(0, ts.len() - 1)));
        assert(ts.last() == ts[ts.len() - 1]);
        assert(decreases_to!(ts => ts[ts.len() - 1]));
    }
}

/// Whether a left join of this node may leave its projected segment null.
pub open spec fn spec_optional(t: CommonTableExpression) -> bool {
    t is Optional
}

impl CommonTableExpression {
    /// Appends the node's deterministic name to `out`.
    pub fn table_name(&self, out: &mut String)
        requires
            spec_wf(*self),
        ensures
            final(out)@ == old(out)@ + spec_name(*self),
        decreases *self,
    {
        match self {
            CommonTableExpression::Extract(e) => {
                out.append(e.table.as_str());
            },
            CommonTableExpression::Optional(o) => {
                o.inner.table_name(out);
            },
            CommonTableExpression::Merge(m) => {
                let ghost ts = m.tables@;
                proof {
                    broadcast use vstd::std_specs::vec::axiom_vec_decreases_to_view;
                    broadcast use vstd::seq::axiom_seq_index_decreases;

                    assert(decreases_to!(*self => m.tables));
                    lemma_wf_list_index(ts, 0);
                }
                m.tables[0].table_name(out);
                let ghost base = old(out)@;
                proof {
                    assert(ts.subrange(0, 1).drop_last() =~= Seq::<
                        CommonTableExpression,
                    >::empty());
                    assert(ts.subrange(0, 1).last() == ts[0]);
                    assert(out@ == base + spec_merge_name(ts.subrange(0, 1)));
                }
                let mut i: usize = 1;
                while i < m.tables.len()
                    invariant
                        1 <= i <= ts.len(),
                        m.tables@ == ts,
                        spec_wf(*self),
                        *self == CommonTableExpression::Merge(*m),
                        out@ == base + spec_merge_name(ts.subrange(0, i as int)),
                    decreases ts.len() - i,
                {
                    proof {
                        broadcast use vstd::std_specs::vec::axiom_vec_decreases_to_view;
                        broadcast use vstd::seq::axiom_seq_index_decreases;

                        assert(spec_wf_list(ts));
                        lemma_wf_list_index(ts, i as int);
                        assert(decreases_to!(*self => m.tables));
                    }
                    out.append("_");
                    m.tables[i].table_name(out);
                    proof {
                        let pre = ts.subrange(0, i as int);
                        let cur = ts.subrange(0, i + 1 as int);
                        assert(cur.drop_last() =~= pre);
                        assert(cur.last() == ts[i as int]);
                        assert(out@ == base + spec_merge_name(cur));
                    }
                    i = i + 1;
                }
                proof {
                    assert(ts.subrange(0, ts.len() as int) =~= ts);
                }
            },
            CommonTableExpression::Include(i) => {
                i.base.table_name(out);
                out.append("_including_");
                i.required.table_name(out);
            },
            CommonTableExpression::Exclude(x) => {
                x.base.table_name(out);
                out.append("_excluding_");
                x.excluded.table_name(out);
            },
        }
    }

    /// Whether the projected segment may be entirely null under a left join.
    pub fn optional(&self) -> (r: bool)
        ensures
            r == spec_optional(*self),
    {
        match self {
            CommonTableExpression::Optional(_) => true,
            _ => false,
        }
    }

    /// Appends the node's projected column list, one `,\n` separated
    /// reference per column, to `out`.
    pub fn columns(&self, out: &mut String)
        requires
            spec_wf(*self),
        ensures
            final(out)@ == old(out)@ + spec_cols_text(spec_columns(*self)),
        decreases *self,
    {
        match self {
            CommonTableExpression::Extract(e) => {
                let ghost pairs = spec_columns(*self);
                let ghost base = old(out)@;
                let mut i: usize = 0;
                while i < e.columns.len()
                    invariant
                        i <= e.columns@.len(),
                        *self == CommonTableExpression::Extract(*e),
                        pairs == spec_columns(*self),
                        out@ == base + spec_cols_text(pairs.subrange(0, i as int)),
                    decreases e.columns@.len() - i,
                {
                    out.append(",\n      __cte_");
                    out.append(e.table.as_str());
                    out.append("__");
                    out.append(e.columns[i].as_str());
                    proof {
                        let pre = pairs.subrange(0, i as int);
                        let cur = pairs.subrange(0, i + 1 as int);
                        assert(cur.drop_last() =~= pre);
                        assert(cur.last() == (e.table@, e.columns@[i as int]@));
                        assert(out@ =~= base + spec_cols_text(cur));
                    }
                    i = i + 1;
                }
                proof {
                    assert(pairs.subrange(0, pairs.len() as int) =~= pairs);
                }
            },
            CommonTableExpression::Optional(o) => {
                o.inner.columns(out);
            },
            CommonTableExpression::Merge(m) => {
                let ghost ts = m.tables@;
                let ghost base = old(out)@;
                let mut i: usize = 0;
                while i < m.tables.len()
                    invariant
                        i <= ts.len(),
                        m.tables@ == ts,
                        spec_wf(*self),
                        *self == CommonTableExpression::Merge(*m),
                        out@ == base + spec_cols_text(spec_columns_list(ts.subrange(0, i as int))),
                    decreases ts.len() - i,
                {
                    proof {
                        broadcast use vstd::std_specs::vec::axiom_vec_decreases_to_view;
                        broadcast use vstd::seq::axiom_seq_index_decreases;

                        assert(spec_wf_list(ts));
                        lemma_wf_list_index(ts, i as int);
                        assert(decreases_to!(*self => m.tables));
                    }
                    m.tables[i].columns(out);
                    proof {
                        let pre = ts.subrange(0, i as int);
                        let cur = ts.subrange(0, i + 1 as int);
                        assert(cur.drop_last() =~= pre);
                        assert(cur.last() == ts[i as int]);
                        lemma_cols_text_app(spec_columns_list(pre), spec_columns(ts[i as int]));
                    }
                    i = i + 1;
                }
                proof {
                    assert(ts.subrange(0, ts.len() as int) =~= ts);
                }
            },
            CommonTableExpression::Include(i) => {
                i.base.columns(out);
            },
            CommonTableExpression::Exclude(x) => {
                x.base.columns(out);
            },
        }
    }

    /// Appends the node's `select` body to `out`.
    pub fn serialize(&self, out: &mut String)
        requires
            spec_wf(*self),
        ensures
            final(out)@ == old(out)@ + spec_body(*self),
        decreases *self,
    {
        match self {
            CommonTableExpression::Extract(e) => {
                serialize_extract(e, out);
            },
            CommonTableExpression::Optional(o) => {
                o.inner.serialize(out);
            },
            CommonTableExpression::Merge(m) => {
                serialize_merge(self, m, out);
            },
            CommonTableExpression::Include(inc) => {
                serialize_include(inc, out);
            },
            CommonTableExpression::Exclude(x) => {
                serialize_exclude(x, out);
            },
        }
    }
}

/// The leaf arm of body serialization.
#[verifier::rlimit(60)]
fn serialize_extract(e: &Extract, out: &mut String)
    ensures
        final(out)@ == old(out)@ + spec_body(CommonTableExpression::Extract(*e)),
{
    let ghost t = CommonTableExpression::Extract(*e);
    let ghost base = old(out)@;
    out.append("    select\n      entity as __cte_");
    out.append(e.table.as_str());
    out.append("__entity");
    let ghost cs = e.columns@.map_values(|c: String| c@);
    let mut i: usize = 0;
    while i < e.columns.len()
        invariant
            i <= e.columns@.len(),
            t == CommonTableExpression::Extract(*e),
            cs == e.columns@.map_values(|c: String| c@),
            out@ == base + "    select\n      entity as __cte_"@ + e.table@ + "__entity"@
                + spec_extract_cols(e.table@, cs.subrange(0, i as int)),
        decreases e.columns@.len() - i,
    {
        out.append(",\n      ");
        out.append(e.columns[i].as_str());
        out.append(" as __cte_");
        out.append(e.table.as_str());
        out.append("__");
        out.append(e.columns[i].as_str());
        proof {
            let pre = cs.subrange(0, i as int);
            let cur = cs.subrange(0, i + 1 as int);
            assert(cur.drop_last() =~= pre);
            assert(cur.last() == e.columns@[i as int]@);
            assert(out@ =~= base + "    select\n      entity as __cte_"@ + e.table@ + "__entity"@
                + spec_extract_cols(e.table@, cur));
        }
        i = i + 1;
    }
    out.append("\n    from\n      ");
    out.append(e.table.as_str());
    proof {
        assert(cs.subrange(0, cs.len() as int) =~= cs);
        assert(out@ =~= base + spec_body(t));
    }
}

/// The merge arm of body serialization.
#[verifier::rlimit(60)]
fn serialize_merge(t: &CommonTableExpression, m: &Merge, out: &mut String)
    requires
        *t == CommonTableExpression::Merge(*m),
        spec_wf(*t),
    ensures
        final(out)@ == old(out)@ + spec_body(*t),
{
    let ghost ts = m.tables@;
    let ghost base = old(out)@;
    proof {
        lemma_wf_list_index(ts, 0);
    }
    out.append("    select\n      __cte_");
    m.tables[0].table_name(out);
    out.append("__entity as __cte_");
    t.table_name(out);
    out.append("__entity");
    t.columns(out);
    out.append("\n    from\n      __cte_");
    m.tables[0].table_name(out);
    let ghost mid = base + "    select\n      __cte_"@ + spec_name(ts[0]) + "__entity as __cte_"@
        + spec_merge_name(ts) + "__entity"@ + spec_cols_text(spec_columns_list(ts))
        + "\n    from\n      __cte_"@ + spec_name(ts[0]);
    proof {
        assert(out@ =~= mid);
        assert(ts.subrange(0, 1).drop_last() =~= Seq::<CommonTableExpression>::empty());
        assert(out@ == mid + spec_joins(spec_name(ts[0]), ts.subrange(0, 1)));
    }
    let mut i: usize = 1;
    while i < m.tables.len()
        invariant
            1 <= i <= ts.len(),
            m.tables@ == ts,
            ts.len() >= 1,
            spec_wf(*t),
            *t == CommonTableExpression::Merge(*m),
            out@ == mid + spec_joins(spec_name(ts[0]), ts.subrange(0, i as int)),
        decreases ts.len() - i,
    {
        proof {
            assert(spec_wf_list(ts));
            lemma_wf_list_index(ts, i as int);
            lemma_wf_list_index(ts, 0);
        }
        if m.tables[i].optional() {
            out.append("\n    left join\n      __cte_");
        } else {
            out.append("\n    inner join\n      __cte_");
        }
        m.tables[i].table_name(out);
        out.append("\n    on\n      __cte_");
        m.tables[0].table_name(out);
        out.append("__entity = __cte_");
        m.tables[i].table_name(out);
        out.append("__entity");
        proof {
            let pre = ts.subrange(0, i as int);
            let cur = ts.subrange(0, i + 1 as int);
            assert(cur.drop_last() =~= pre);
            assert(cur.last() == ts[i as int]);
            assert(cur.len() >= 2);
            assert(out@ =~= mid + spec_joins(spec_name(ts[0]), cur));
        }
        i = i + 1;
    }
    proof {
        assert(ts.subrange(0, ts.len() as int) =~= ts);
        assert(out@ =~= base + spec_body(*t));
    }
}

/// The existence-filter arm of body serialization.
#[verifier::rlimit(60)]
fn serialize_include(inc: &Include, out: &mut String)
    requires
        spec_wf(CommonTableExpression::Include(*inc)),
    ensures
        final(out)@ == old(out)@ + spec_body(CommonTableExpression::Include(*inc)),
{
    let ghost t = CommonTableExpression::Include(*inc);
    let ghost base = old(out)@;
    out.append("    select\n      __cte_");
    inc.base.table_name(out);
    out.append("__entity as __cte_");
    inc.base.table_name(out);
    out.append("_including_");
    inc.required.table_name(out);
    out.append("__entity");
    inc.base.columns(out);
    out.append("\n    from\n      __cte_");
    inc.base.table_name(out);
    out.append("\n    inner join\n      __cte_");
    inc.required.table_name(out);
    out.append("\n    on\n      __cte_");
    inc.base.table_name(out);
    out.append("__entity = __cte_");
    inc.required.table_name(out);
    out.append("__entity");
    proof {
        assert(out@ =~= base + spec_body(t));
    }
}

/// The anti-join arm of body serialization.
#[verifier::rlimit(60)]
fn serialize_exclude(x: &Exclude, out: &mut String)
    requires
        spec_wf(CommonTableExpression::Exclude(*x)),
    ensures
        final(out)@ == old(out)@ + spec_body(CommonTableExpression::Exclude(*x)),
{
    let ghost t = CommonTableExpression::Exclude(*x);
    let ghost base = old(out)@;
    out.append("    select\n      __cte_");
    x.base.table_name(out);
    out.append("__entity as __cte_");
    x.base.table_name(out);
    out.append("_excluding_");
    x.excluded.table_name(out);
    out.append("__entity");
    x.base.columns(out);
    out.append("\n    from\n      __cte_");
    x.base.table_name(out);
    out.append("\n    left join\n      __cte_");
    x.excluded.table_name(out);
    out.append("\n    on\n      __cte_");
    x.base.table_name(out);
    out.append("__entity = __cte_");
    x.excluded.table_name(out);
    out.append("__entity\n    where __cte_");
    x.excluded.table_name(out);
    out.append("__entity is null");
    proof {
        assert(out@ =~= base + spec_body(t));
    }
}

/// The projected column list of a node: (source table, column) pairs in the
/// order the node's children declare them.
pub open spec fn spec_columns(t: CommonTableExpression) -> Seq<(Seq<char>, Seq<char>)>
    decreases t, 1int,
    via spec_columns_dec
{
    match t {
        CommonTableExpression::Extract(e) => e.columns@.map_values(|c: String| (e.table@, c@)),
        CommonTableExpression::Optional(o) => spec_columns(*o.inner),
        CommonTableExpression::Merge(m) => spec_columns_list(m.tables@),
        CommonTableExpression::Include(i) => spec_columns(*i.base),
        CommonTableExpression::Exclude(x) => spec_columns(*x.base),
    }
}

/// The concatenation of the projected column lists of a list of children,
/// in order.
pub open spec fn spec_columns_list(ts: Seq<CommonTableExpression>) -> Seq<(Seq<char>, Seq<char>)>
    decreases ts, 0int,
    via spec_columns_list_dec
{
    if ts.len() == 0 {
        Seq::empty()
    } else {
        spec_columns_list(ts.drop_last()) + spec_columns(ts.last())
    }
}

#[via_fn]
proof fn spec_columns_dec(t: CommonTableExpression) {
    broadcast use vstd::std_specs::vec::axiom_vec_decreases_to_view;

    match t {
        CommonTableExpression::Merge(m) => {
            assert(decreases_to!(t => m.tables));
            assert(decreases_to!(m.tables => m.tables@));
        },
        _ => {
        },
    }
}

#[via_fn]
proof fn spec_columns_list_dec(ts: Seq<CommonTableExpression>) {
    broadcast use vstd::seq::axiom_seq_index_decreases;

    if ts.len() > 0 {
        assert(ts.drop_last() == ts.subrange(0, ts.len() - 1));
        assert(decreases_to!(ts => ts.subrange(0, ts.len() - 1)));
        assert(ts.last() == ts[ts.len() - 1]);
        assert(decreases_to!(ts => ts[ts.len() - 1]));
    }
}

/// The text a node's projection emits for one (table, column) pair.
pub open spec fn spec_col_item(p: (Seq<char>, Seq<char>)) -> Seq<char> {
    ",\n      __cte_"@ + p.0 + "__"@ + p.1
}

/// The text a node's projection emits for a whole column list.
pub open spec fn spec_cols_text(cols: Seq<(Seq<char>, Seq<char>)>) -> Seq<char>
    decreases cols.len(),
{
    if cols.len() == 0 {
        Seq::empty()
    } else {
        spec_cols_text(cols.drop_last()) + spec_col_item(cols.last())
    }
}

/// Column text distributes over concatenation of column lists.
pub proof fn lemma_cols_text_app(a: Seq<(Seq<char>, Seq<char>)>, b: Seq<(Seq<char>, Seq<char>)>)
    ensures
        spec_cols_text(a + b) == spec_cols_text(a) + spec_cols_text(b),
    decreases b.len(),
{
    if b.len() == 0 {
        assert(a + b =~= a);
        assert(spec_cols_text(a) + spec_cols_text(b) =~= spec_cols_text(a));
    } else {
        assert((a + b).drop_last() =~= a + b.drop_last());
        assert((a + b).last() == b.last());
        lemma_cols_text_app(a, b.drop_last());
        assert(spec_cols_text(a + b) =~= spec_cols_text(a) + spec_cols_text(b));
    }
}

/// The aliased select items an extract emits for its own columns.
pub open spec fn spec_extract_cols(table: Seq<char>, cs: Seq<Seq<char>>) -> Seq<char>
    decreases cs.len(),
{
    if cs.len() == 0 {
        Seq::empty()
    } else {
        spec_extract_cols(table, cs.drop_last()) + ",\n      "@ + cs.last() + " as __cte_"@ + table
            + "__"@ + cs.last()
    }
}

/// The join clause a merge emits for one non-first child: an inner join, or
/// a left join when the child is optional.
pub open spec fn spec_join_clause(first: Seq<char>, c: CommonTableExpression) -> Seq<char> {
    (if spec_optional(c) {
        "\n    left join\n      __cte_"@
    } else {
        "\n    inner join\n      __cte_"@
    }) + spec_name(c) + "\n    on\n      __cte_"@ + first + "__entity = __cte_"@ + spec_name(c)
        + "__entity"@
}

/// The join clauses a merge emits for all children after the first.
pub open spec fn spec_joins(first: Seq<char>, ts: Seq<CommonTableExpression>) -> Seq<char>
    decreases ts.len(),
{
    if ts.len() <= 1 {
        Seq::empty()
    } else {
        spec_joins(first, ts.drop_last()) + spec_join_clause(first, ts.last())
    }
}

/// The `select` body of a node: its projection, base table and join clauses.
///
/// Every node aliases its entity column to `__cte_<name>__entity`, so a
/// parent node can always reference a child's entity column through the
/// child's own name.
pub open spec fn spec_body(t: CommonTableExpression) -> Seq<char>
    decreases t,
{
    match t {
        CommonTableExpression::Extract(e) => "    select\n      entity as __cte_"@ + e.table@
            + "__entity"@ + spec_extract_cols(e.table@, e.columns@.map_values(|c: String| c@))
            + "\n    from\n      "@ + e.table@,
        CommonTableExpression::Optional(o) => spec_body(*o.inner),
        CommonTableExpression::Merge(m) => "    select\n      __cte_"@ + spec_name(m.tables@[0])
            + "__entity as __cte_"@ + spec_merge_name(m.tables@) + "__entity"@ + spec_cols_text(
            spec_columns_list(m.tables@),
        ) + "\n    from\n      __cte_"@ + spec_name(m.tables@[0]) + spec_joins(
            spec_name(m.tables@[0]),
            m.tables@,
        ),
        CommonTableExpression::Include(i) => "    select\n      __cte_"@ + spec_name(*i.base)
            + "__entity as __cte_"@ + spec_name(t) + "__entity"@ + spec_cols_text(
            spec_columns(*i.base),
        ) + "\n    from\n      __cte_"@ + spec_name(*i.base) + "\n    inner join\n      __cte_"@
            + spec_name(*i.required) + "\n    on\n      __cte_"@ + spec_name(*i.base)
            + "__entity = __cte_"@ + spec_name(*i.required) + "__entity"@,
        CommonTableExpression::Exclude(x) => "    select\n      __cte_"@ + spec_name(*x.base)
            + "__entity as __cte_"@ + spec_name(t) + "__entity"@ + spec_cols_text(
            spec_columns(*x.base),
        ) + "\n    from\n      __cte_"@ + spec_name(*x.base) + "\n    left join\n      __cte_"@
            + spec_name(*x.excluded) + "\n    on\n      __cte_"@ + spec_name(*x.base)
            + "__entity = __cte_"@ + spec_name(*x.excluded) + "__entity\n    where __cte_"@
            + spec_name(*x.excluded) + "__entity is null"@,
    }
}

/// The name of the entity column every node's projection exposes first.
pub open spec fn spec_entity_column(t: CommonTableExpression) -> Seq<char> {
    "__cte_"@ + spec_name(t) + "__entity"@
}

/// The `with`-clause definition one node contributes to the full statement.
pub open spec fn spec_def_text(t: CommonTableExpression) -> Seq<char> {
    "  __cte_"@ + spec_name(t) + " as (\n"@ + spec_body(t) + "\n  )"@
}

/// Whether a definition under the given name was already collected.
pub open spec fn spec_contains_def(defs: Seq<(Seq<char>, Seq<char>)>, name: Seq<char>) -> bool {
    exists|i: int| 0 <= i < defs.len() && defs[i].0 == name
}

/// The collected (name, definition) pairs viewed as sequences of characters.
pub open spec fn spec_defs_view(defs: Seq<(String, String)>) -> Seq<(Seq<char>, Seq<char>)> {
    defs.map_values(|p: (String, String)| (p.0@, p.1@))
}

/// Post-order collection of the tree's definitions, deduplicated by node
/// name: a subtree referenced twice is computed once, and every node's
/// dependencies are collected before the node itself.
pub open spec fn spec_add_defs(t: CommonTableExpression, defs: Seq<(Seq<char>, Seq<char>)>) -> Seq<
    (Seq<char>, Seq<char>),
>
    decreases t, 1int,
    via spec_add_defs_dec
{
    match t {
        CommonTableExpression::Optional(o) => spec_add_defs(*o.inner, defs),
        _ => {
            if spec_contains_def(defs, spec_name(t)) {
                defs
            } else {
                let with_children = match t {
                    CommonTableExpression::Extract(_) => defs,
                    CommonTableExpression::Optional(_) => defs,
                    CommonTableExpression::Merge(m) => spec_add_defs_list(m.tables@, defs),
                    CommonTableExpression::Include(i) => spec_add_defs(
                        *i.required,
                        spec_add_defs(*i.base, defs),
                    ),
                    CommonTableExpression::Exclude(x) => spec_add_defs(
                        *x.excluded,
                        spec_add_defs(*x.base, defs),
                    ),
                };
                if spec_contains_def(with_children, spec_name(t)) {
                    with_children
                } else {
                    with_children.push((spec_name(t), spec_def_text(t)))
                }
            }
        },
    }
}

/// Post-order collection over a list of children, left to right.
pub open spec fn spec_add_defs_list(
    ts: Seq<CommonTableExpression>,
    defs: Seq<(Seq<char>, Seq<char>)>,
) -> Seq<(Seq<char>, Seq<char>)>
    decreases ts, 0int,
    via spec_add_defs_list_dec
{
    if ts.len() == 0 {
        defs
    } else {
        spec_add_defs(ts.last(), spec_add_defs_list(ts.drop_last(), defs))
    }
}

#[via_fn]
proof fn spec_add_defs_dec(t: CommonTableExpression, defs: Seq<(Seq<char>, Seq<char>)>) {
    broadcast use vstd::std_specs::vec::axiom_vec_decreases_to_view;

    match t {
        CommonTableExpression::Merge(m) => {
            assert(decreases_to!(t => m.tables));
            assert(decreases_to!(m.tables => m.tables@));
        },
        _ => {
        },
    }
}

#[via_fn]
proof fn spec_add_defs_list_dec(ts: Seq<CommonTableExpression>, defs: Seq<(Seq<char>, Seq<char>)>) {
    broadcast use vstd::seq::axiom_seq_index_decreases;

    if ts.len() > 0 {
        assert(ts.drop_last() == ts.subrange(0, ts.len() - 1));
        assert(decreases_to!(ts => ts.subrange(0, ts.len() - 1)));
        assert(ts.last() == ts[ts.len() - 1]);
        assert(decreases_to!(ts => ts[ts.len() - 1]));
    }
}

/// Whether `defs` already holds a definition named `name`.
fn contains_name(defs: &Vec<(String, String)>, name: &String) -> (r: bool)
    ensures
        r == spec_contains_def(spec_defs_view(defs@), name@),
{
    let mut i: usize = 0;
    while i < defs.len()
        invariant
            i <= defs@.len(),
            forall|j: int| 0 <= j < i ==> spec_defs_view(defs@)[j].0 != name@,
        decreases defs@.len() - i,
    {
        if defs[i].0.eq(name) {
            proof {
                assert(spec_defs_view(defs@)[i as int] == (defs@[i as int].0@, defs@[i as int].1@));
            }
            return true;
        }
        proof {
            assert(spec_defs_view(defs@)[i as int] == (defs@[i as int].0@, defs@[i as int].1@));
        }
        i = i + 1;
    }
    false
}

impl CommonTableExpression {
    /// Collects this node's definition and, before it, those of every node
    /// it depends on, skipping names already collected.
    pub fn serialize_into(&self, defs: &mut Vec<(String, String)>)
        requires
            spec_wf(*self),
        ensures
            spec_defs_view(final(defs)@) == spec_add_defs(*self, spec_defs_view(old(defs)@)),
        decreases *self,
    {
        let ghost d0 = spec_defs_view(defs@);
        match self {
            CommonTableExpression::Optional(o) => {
                o.inner.serialize_into(defs);
                return ;
            },
            _ => {
            },
        }
        let mut name = String::new();
        self.table_name(&mut name);
        if !contains_name(defs, &name) {
            match self {
                CommonTableExpression::Extract(_) => {
                },
                CommonTableExpression::Optional(_) => {
                    proof {
                        assert(false);
                    }
                },
                CommonTableExpression::Merge(m) => {
                    let ghost ts = m.tables@;
                    let mut i: usize = 0;
                    while i < m.tables.len()
                        invariant
                            i <= ts.len(),
                            m.tables@ == ts,
                            spec_wf(*self),
                            *self == CommonTableExpression::Merge(*m),
                            spec_defs_view(defs@) == spec_add_defs_list(
                                ts.subrange(0, i as int),
                                d0,
                            ),
                        decreases ts.len() - i,
                    {
                        proof {
                            broadcast use vstd::std_specs::vec::axiom_vec_decreases_to_view;
                            broadcast use vstd::seq::axiom_seq_index_decreases;

                            assert(spec_wf_list(ts));
                            lemma_wf_list_index(ts, i as int);
                            assert(decreases_to!(*self => m.tables));
                        }
                        m.tables[i].serialize_into(defs);
                        proof {
                            let pre = ts.subrange(0, i as int);
                            let cur = ts.subrange(0, i + 1 as int);
                            assert(cur.drop_last() =~= pre);
                            assert(cur.last() == ts[i as int]);
                        }
                        i = i + 1;
                    }
                    proof {
                        assert(ts.subrange(0, ts.len() as int) =~= ts);
                    }
                },
                CommonTableExpression::Include(inc) => {
                    inc.base.serialize_into(defs);
                    inc.required.serialize_into(defs);
                },
                CommonTableExpression::Exclude(x) => {
                    x.base.serialize_into(defs);
                    x.excluded.serialize_into(defs);
                },
            }
            if !contains_name(defs, &name) {
                let mut contents = String::new();
                contents.append("  __cte_");
                contents.append(name.as_str());
                contents.append(" as (\n");
                self.serialize(&mut contents);
                contents.append("\n  )");
                let ghost dc = spec_defs_view(defs@);
                let ghost contents_view = contents@;
                defs.push((name, contents));
                proof {
                    assert(spec_defs_view(defs@) =~= dc.push(
                        (spec_name(*self), spec_def_text(*self)),
                    ));
                }
            }
        }
    }
}

/// A read-side filter that keeps only entities that also have a row in the
/// filter tree's tables, without projecting the filter's columns.
pub struct With {
    /// The tree whose entities must be present.
    pub filter: Box<CommonTableExpression>,
}

impl With {
    /// Wraps `base` in an existence filter on this marker's tree.
    pub fn cte(self, base: CommonTableExpression) -> (r: CommonTableExpression)
        ensures
            (r matches CommonTableExpression::Include(i) && *i.base == base && *i.required
                == *self.filter),
    {
        CommonTableExpression::Include(Include { base: Box::new(base), required: self.filter })
    }
}

/// A read-side filter that drops every entity that has a row in the filter
/// tree's tables.
pub struct Without {
    /// The tree whose entities must be absent.
    pub filter: Box<CommonTableExpression>,
}

impl Without {
    /// Wraps `base` in an anti-join filter on this marker's tree.
    pub fn cte(self, base: CommonTableExpression) -> (r: CommonTableExpression)
        ensures
            (r matches CommonTableExpression::Exclude(x) && *x.base == base && *x.excluded
                == *self.filter),
    {
        CommonTableExpression::Exclude(Exclude { base: Box::new(base), excluded: self.filter })
    }
}

/// The full SQL text of the query described by a tree: every distinct
/// definition as a `with` clause, dependencies first, then a `select *`
/// from the root's name.
pub open spec fn spec_sql(t: CommonTableExpression) -> Seq<char> {
    "with\n"@ + spec_join_defs(spec_add_defs(t, Seq::empty())) + "\nselect * from __cte_"@
        + spec_name(t) + "\n"@
}

/// The collected definitions joined with `,\n`.
pub open spec fn spec_join_defs(defs: Seq<(Seq<char>, Seq<char>)>) -> Seq<char>
    decreases defs.len(),
{
    if defs.len() == 0 {
        Seq::empty()
    } else if defs.len() == 1 {
        defs[0].1
    } else {
        spec_join_defs(defs.drop_last()) + ",\n"@ + defs.last().1
    }
}

/// Serializes a whole query tree to its SQL text.
///
/// The result is a pure function of the tree: two structurally equal trees,
/// built independently, produce byte-identical text, so the text of a given
/// (operation, type) pair may safely be computed once and cached.
pub fn serialize(cte: &CommonTableExpression) -> (r: String)
    requires
        spec_wf(*cte),
    ensures
        r@ == spec_sql(*cte),
{
    let mut defs: Vec<(String, String)> = Vec::new();
    cte.serialize_into(&mut defs);
    let ghost dv = spec_defs_view(defs@);
    proof {
        assert(spec_defs_view(Seq::<(String, String)>::empty()) =~= Seq::<
            (Seq<char>, Seq<char>),
        >::empty());
    }
    let mut statement = String::from_str("with\n");
    let mut i: usize = 0;
    while i < defs.len()
        invariant
            i <= dv.len(),
            spec_defs_view(defs@) == dv,
            defs@.len() == dv.len(),
            statement@ == "with\n"@ + spec_join_defs(dv.subrange(0, i as int)),
        decreases dv.len() - i,
    {
        if i != 0 {
            statement.append(",\n");
        }
        statement.append(defs[i].1.as_str());
        proof {
            let pre = dv.subrange(0, i as int);
            let cur = dv.subrange(0, i + 1 as int);
            assert(cur.drop_last() =~= pre);
            assert(cur.last() == dv[i as int]);
            assert(dv[i as int].1 == defs@[i as int].1@);
            assert(statement@ =~= "with\n"@ + spec_join_defs(cur));
        }
        i = i + 1;
    }
    proof {
        assert(dv.subrange(0, dv.len() as int) =~= dv);
    }
    statement.append("\nselect * from __cte_");
    cte.table_name(&mut statement);
    statement.append("\n");
    proof {
        assert(statement@ =~= spec_sql(*cte));
    }
    statement
}

/// Serialized SQL text is deterministic: structurally equal query trees,
/// however they were built, have the same text, which is what makes caching
/// the text per (operation, type) pair safe.
pub proof fn lemma_serialize_deterministic(a: CommonTableExpression, b: CommonTableExpression)
    requires
        a == b,
    ensures
        spec_sql(a) == spec_sql(b),
{
}

/// The projected column order of a merge is the concatenation of each
/// child's declared column order, in child order: child `i`'s columns appear
/// contiguously, exactly after those of the children before it.
pub proof fn lemma_projected_columns_order(ts: Seq<CommonTableExpression>, i: int)
    requires
        0 <= i < ts.len(),
    ensures
        spec_columns_list(ts) == spec_columns_list(ts.subrange(0, i)) + spec_columns(ts[i])
            + spec_columns_list(ts.subrange(i + 1, ts.len() as int)),
    decreases ts.len(),
{
    if i == ts.len() - 1 {
        assert(ts.drop_last() =~= ts.subrange(0, i));
        assert(ts.last() == ts[i]);
        assert(ts.subrange(i + 1, ts.len() as int) =~= Seq::<CommonTableExpression>::empty());
        assert(spec_columns_list(ts) =~= spec_columns_list(ts.subrange(0, i)) + spec_columns(
            ts[i],
        ) + spec_columns_list(ts.subrange(i + 1, ts.len() as int)));
    } else {
        let dl = ts.drop_last();
        lemma_projected_columns_order(dl, i);
        assert(dl.subrange(0, i) =~= ts.subrange(0, i));
        assert(dl[i] == ts[i]);
        let suf = ts.subrange(i + 1, ts.len() as int);
        assert(suf.drop_last() =~= dl.subrange(i + 1, dl.len() as int));
        assert(suf.last() == ts.last());
        assert(spec_columns_list(suf) == spec_columns_list(dl.subrange(i + 1, dl.len() as int))
            + spec_columns(ts.last()));
        assert(spec_columns_list(ts) =~= spec_columns_list(ts.subrange(0, i)) + spec_columns(
            ts[i],
        ) + spec_columns_list(ts.subrange(i + 1, ts.len() as int)));
    }
}

} // verus!
