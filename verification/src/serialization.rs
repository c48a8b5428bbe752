//! The serialization bridge: per-component encode (bind values into a
//! parameterized statement) and decode (consume columns of one result row),
//! generalized compositionally to optionals and tuples of components.

use vstd::prelude::*;

use crate::cte::{
    spec_columns, spec_columns_list, spec_merge_name, spec_name, spec_wf, spec_wf_list,
    CommonTableExpression, Merge, Optional,
};
use crate::entity::{spec_batch_view, EntityPrefixedQuery};
use crate::error::DecodeError;
use crate::row::{spec_is_null, Cell, OffsetRow};
use crate::value::Value;

verus! {

/// The given statements with the entity key bound before each statement's
/// own parameters.
pub open spec fn spec_prefixed(entity: Value, stmts: Seq<(Seq<char>, Seq<Value>)>) -> Seq<
    (Seq<char>, Seq<Value>),
> {
    stmts.map_values(|p: (Seq<char>, Seq<Value>)| (p.0, seq![entity] + p.1))
}

/// Write-side composition: how a value binds its fields into statements.
pub trait Serializable: Sized {
    /// The value's fields, flattened in declared component and column
    /// order; this is the order `serialize` binds them.
    spec fn spec_values(&self) -> Seq<Value>;

    /// The insert statements this value contributes, one per component in
    /// declared order; each statement's parameters exclude the shared
    /// entity key, which the batch builder binds first.
    spec fn spec_insert_statements(&self, character: char) -> Seq<(Seq<char>, Seq<Value>)>;

    /// The update statements this value contributes, one per component in
    /// declared order.
    spec fn spec_update_statements(&self, character: char) -> Seq<(Seq<char>, Seq<Value>)>;

    /// Appends the value's fields to a statement's parameter list, in
    /// declared order with no reordering.
    fn serialize(&self, query: &mut Vec<Value>)
        ensures
            final(query)@ == old(query)@ + self.spec_values(),
    ;

    /// Appends this value's insert statements to the batch, each keyed by
    /// the batch's shared entity.
    fn insert(&self, character: char, query: &mut EntityPrefixedQuery)
        ensures
            final(query).entity == old(query).entity,
            spec_batch_view(final(query).queries@) == spec_batch_view(old(query).queries@)
                + spec_prefixed(old(query).entity, self.spec_insert_statements(character)),
    ;

    /// Appends this value's update statements to the batch, each keyed by
    /// the batch's shared entity.
    fn update(&self, character: char, query: &mut EntityPrefixedQuery)
        ensures
            final(query).entity == old(query).entity,
            spec_batch_view(final(query).queries@) == spec_batch_view(old(query).queries@)
                + spec_prefixed(old(query).entity, self.spec_update_statements(character)),
    ;
}

/// Read-side composition: how a type builds its query tree and consumes a
/// result row.
pub trait Deserializeable: Sized {
    /// The (source table, column) pairs this type's query tree projects,
    /// in decode order.
    spec fn spec_proj() -> Seq<(Seq<char>, Seq<char>)>;

    /// The deterministic name of this type's query tree.
    spec fn spec_tree_name() -> Seq<char>;

    /// How many columns one decode pass consumes.
    spec fn spec_width() -> nat;

    /// Whether the segment of `row` starting at `at` decodes successfully.
    spec fn spec_accepts(row: Seq<Cell>, at: int) -> bool;

    /// The decode failure for a segment that does not decode; meaningful
    /// only when `spec_accepts` is false.
    spec fn spec_err(row: Seq<Cell>, at: int) -> DecodeError;

    /// Whether this value is exactly what the segment of `row` at `at`
    /// holds.
    spec fn spec_read_back(&self, row: Seq<Cell>, at: int) -> bool;

    /// A decode pass consumes exactly as many columns as the query tree
    /// projects.
    proof fn law_width()
        ensures
            Self::spec_width() == Self::spec_proj().len(),
    ;

    /// The query tree that selects this type's columns, entity first; its
    /// projected column list is exactly what decode consumes, in order.
    fn cte() -> (r: CommonTableExpression)
        ensures
            spec_wf(r),
            spec_name(r) == Self::spec_tree_name(),
            spec_columns(r) == Self::spec_proj(),
    ;

    /// The number of columns one decode pass consumes, clamped to the
    /// machine word.
    fn width() -> (r: usize)
        ensures
            Self::spec_width() <= usize::MAX ==> r as nat == Self::spec_width(),
            Self::spec_width() > usize::MAX ==> r == usize::MAX,
    ;

    /// Decodes one value from the cursor, consuming exactly
    /// `spec_width()` columns whether or not decoding succeeds, so that
    /// later segments stay aligned.
    fn deserialize(row: &mut OffsetRow) -> (r: Result<Self, DecodeError>)
        requires
            old(row).offset + Self::spec_width() <= usize::MAX,
        ensures
            final(row).row@ == old(row).row@,
            final(row).offset == old(row).offset + Self::spec_width(),
            (r is Ok) == Self::spec_accepts(old(row).row@, old(row).offset as int),
            (match r {
                Ok(v) => v.spec_read_back(old(row).row@, old(row).offset as int),
                Err(e) => e == Self::spec_err(old(row).row@, old(row).offset as int),
            }),
    ;
}

/// A left-joined branch: the segment may be entirely null, in which case it
/// decodes to "absent" without error.
impl<T: Deserializeable> Deserializeable for Option<T> {
    open spec fn spec_proj() -> Seq<(Seq<char>, Seq<char>)> {
        T::spec_proj()
    }

    open spec fn spec_tree_name() -> Seq<char> {
        T::spec_tree_name()
    }

    open spec fn spec_width() -> nat {
        T::spec_width()
    }

    open spec fn spec_accepts(row: Seq<Cell>, at: int) -> bool {
        spec_is_null(row, at) || T::spec_accepts(row, at)
    }

    open spec fn spec_err(row: Seq<Cell>, at: int) -> DecodeError {
        T::spec_err(row, at)
    }

    open spec fn spec_read_back(&self, row: Seq<Cell>, at: int) -> bool {
        match self {
            None => spec_is_null(row, at),
            Some(v) => !spec_is_null(row, at) && v.spec_read_back(row, at),
        }
    }

    proof fn law_width() {
        T::law_width();
    }

    fn cte() -> (r: CommonTableExpression) {
        CommonTableExpression::Optional(Optional { inner: Box::new(T::cte()) })
    }

    fn width() -> (r: usize) {
        T::width()
    }

    fn deserialize(row: &mut OffsetRow) -> (r: Result<Self, DecodeError>) {
        if row.is_null() {
            // The whole segment counts as absent; decode and discard so the
            // cursor still advances by exactly this branch's width.
            match T::deserialize(row) {
                _ => Ok(None),
            }
        } else {
            match T::deserialize(row) {
                Ok(v) => Ok(Some(v)),
                Err(e) => Err(e),
            }
        }
    }
}

/// A saturating sum, used to clamp composed widths to the machine word.
fn saturating_add(a: usize, b: usize) -> (r: usize)
    ensures
        a + b <= usize::MAX ==> r == a + b,
        a + b > usize::MAX ==> r == usize::MAX,
{
    if a <= usize::MAX - b {
        a + b
    } else {
        usize::MAX
    }
}

impl<A: Serializable, B: Serializable> Serializable for (A, B) {
    open spec fn spec_values(&self) -> Seq<Value> {
        self.0.spec_values() + self.1.spec_values()
    }

    open spec fn spec_insert_statements(&self, character: char) -> Seq<(Seq<char>, Seq<Value>)> {
        self.0.spec_insert_statements(character) + self.1.spec_insert_statements(character)
    }

    open spec fn spec_update_statements(&self, character: char) -> Seq<(Seq<char>, Seq<Value>)> {
        self.0.spec_update_statements(character) + self.1.spec_update_statements(character)
    }

    fn serialize(&self, query: &mut Vec<Value>) {
        self.0.serialize(query);
        self.1.serialize(query);
        proof {
            assert(query@ =~= old(query)@ + self.spec_values());
        }
    }

    fn insert(&self, character: char, query: &mut EntityPrefixedQuery) {
        self.0.insert(character, query);
        self.1.insert(character, query);
        proof {
            assert(spec_prefixed(old(query).entity, self.spec_insert_statements(character)) =~= spec_prefixed(
                old(query).entity,
                self.0.spec_insert_statements(character),
            ) + spec_prefixed(old(query).entity, self.1.spec_insert_statements(character)));
            assert(spec_batch_view(query.queries@) =~= spec_batch_view(old(query).queries@)
                + spec_prefixed(old(query).entity, self.spec_insert_statements(character)));
        }
    }

    fn update(&self, character: char, query: &mut EntityPrefixedQuery) {
        self.0.update(character, query);
        self.1.update(character, query);
        proof {
            assert(spec_prefixed(old(query).entity, self.spec_update_statements(character)) =~= spec_prefixed(
                old(query).entity,
                self.0.spec_update_statements(character),
            ) + spec_prefixed(old(query).entity, self.1.spec_update_statements(character)));
            assert(spec_batch_view(query.queries@) =~= spec_batch_view(old(query).queries@)
                + spec_prefixed(old(query).entity, self.spec_update_statements(character)));
        }
    }
}

impl<A: Deserializeable, B: Deserializeable> Deserializeable for (A, B) {
    open spec fn spec_proj() -> Seq<(Seq<char>, Seq<char>)> {
        A::spec_proj() + B::spec_proj()
    }

    open spec fn spec_tree_name() -> Seq<char> {
        A::spec_tree_name() + "_"@ + B::spec_tree_name()
    }

    open spec fn spec_width() -> nat {
        A::spec_width() + B::spec_width()
    }

    open spec fn spec_accepts(row: Seq<Cell>, at: int) -> bool {
        A::spec_accepts(row, at) && B::spec_accepts(row, at + A::spec_width())
    }

    open spec fn spec_err(row: Seq<Cell>, at: int) -> DecodeError {
        if !A::spec_accepts(row, at) {
            A::spec_err(row, at)
        } else {
            B::spec_err(row, at + A::spec_width())
        }
    }

    open spec fn spec_read_back(&self, row: Seq<Cell>, at: int) -> bool {
        self.0.spec_read_back(row, at) && self.1.spec_read_back(row, at + A::spec_width())
    }

    proof fn law_width() {
        A::law_width();
        B::law_width();
    }

    fn cte() -> (r: CommonTableExpression) {
        let a = A::cte();
        let b = B::cte();
        let ghost ga = a;
        let ghost gb = b;
        let mut tables: Vec<CommonTableExpression> = Vec::new();
        tables.push(a);
        tables.push(b);
        let ghost ts = tables@;
        proof {
            let single = seq![ga];
            assert(ts =~= seq![ga, gb]);
            assert(single.drop_last() =~= Seq::<CommonTableExpression>::empty());
            assert(single.last() == ga);
            assert(spec_wf_list(Seq::<CommonTableExpression>::empty()));
            assert(spec_wf_list(single));
            assert(ts.drop_last() =~= single);
            assert(ts.last() == gb);
            assert(spec_wf_list(ts));
            assert(spec_columns_list(Seq::<CommonTableExpression>::empty()) =~= Seq::<
                (Seq<char>, Seq<char>),
            >::empty());
            assert(spec_columns_list(single) =~= spec_columns(ga));
            assert(spec_columns_list(ts) =~= spec_columns(ga) + spec_columns(gb));
            assert(spec_columns_list(ts) =~= A::spec_proj() + B::spec_proj());
            assert(spec_merge_name(single) == spec_name(ga));
            assert(spec_merge_name(ts) =~= A::spec_tree_name() + "_"@ + B::spec_tree_name());
        }
        CommonTableExpression::Merge(Merge { tables })
    }

    fn width() -> (r: usize) {
        saturating_add(A::width(), B::width())
    }

    fn deserialize(row: &mut OffsetRow) -> (r: Result<Self, DecodeError>) {
        let a = match A::deserialize(row) {
            Ok(a) => a,
            Err(e) => {
                row.skip(B::width());
                return Err(e);
            },
        };
        match B::deserialize(row) {
            Ok(b) => Ok((a, b)),
            Err(e) => Err(e),
        }
    }
}

impl<A: Serializable, B: Serializable, C: Serializable> Serializable for (A, B, C) {
    open spec fn spec_values(&self) -> Seq<Value> {
        self.0.spec_values() + self.1.spec_values() + self.2.spec_values()
    }

    open spec fn spec_insert_statements(&self, character: char) -> Seq<(Seq<char>, Seq<Value>)> {
        self.0.spec_insert_statements(character) + self.1.spec_insert_statements(character)
            + self.2.spec_insert_statements(character)
    }

    open spec fn spec_update_statements(&self, character: char) -> Seq<(Seq<char>, Seq<Value>)> {
        self.0.spec_update_statements(character) + self.1.spec_update_statements(character)
            + self.2.spec_update_statements(character)
    }

    fn serialize(&self, query: &mut Vec<Value>) {
        self.0.serialize(query);
        self.1.serialize(query);
        self.2.serialize(query);
        proof {
            assert(query@ =~= old(query)@ + self.spec_values());
        }
    }

    fn insert(&self, character: char, query: &mut EntityPrefixedQuery) {
        self.0.insert(character, query);
        self.1.insert(character, query);
        self.2.insert(character, query);
        proof {
            assert(spec_prefixed(old(query).entity, self.spec_insert_statements(character)) =~= spec_prefixed(
                old(query).entity,
                self.0.spec_insert_statements(character),
            ) + spec_prefixed(old(query).entity, self.1.spec_insert_statements(character))
                + spec_prefixed(old(query).entity, self.2.spec_insert_statements(character)));
            assert(spec_batch_view(query.queries@) =~= spec_batch_view(old(query).queries@)
                + spec_prefixed(old(query).entity, self.spec_insert_statements(character)));
        }
    }

    fn update(&self, character: char, query: &mut EntityPrefixedQuery) {
        self.0.update(character, query);
        self.1.update(character, query);
        self.2.update(character, query);
        proof {
            assert(spec_prefixed(old(query).entity, self.spec_update_statements(character)) =~= spec_prefixed(
                old(query).entity,
                self.0.spec_update_statements(character),
            ) + spec_prefixed(old(query).entity, self.1.spec_update_statements(character))
                + spec_prefixed(old(query).entity, self.2.spec_update_statements(character)));
            assert(spec_batch_view(query.queries@) =~= spec_batch_view(old(query).queries@)
                + spec_prefixed(old(query).entity, self.spec_update_statements(character)));
        }
    }
}

impl<A: Deserializeable, B: Deserializeable, C: Deserializeable> Deserializeable for (A, B, C) {
    open spec fn spec_proj() -> Seq<(Seq<char>, Seq<char>)> {
        A::spec_proj() + B::spec_proj() + C::spec_proj()
    }

    open spec fn spec_tree_name() -> Seq<char> {
        A::spec_tree_name() + "_"@ + B::spec_tree_name() + "_"@ + C::spec_tree_name()
    }

    open spec fn spec_width() -> nat {
        A::spec_width() + B::spec_width() + C::spec_width()
    }

    open spec fn spec_accepts(row: Seq<Cell>, at: int) -> bool {
        A::spec_accepts(row, at) && B::spec_accepts(row, at + A::spec_width())
            && C::spec_accepts(row, at + A::spec_width() + B::spec_width())
    }

    open spec fn spec_err(row: Seq<Cell>, at: int) -> DecodeError {
        if !A::spec_accepts(row, at) {
            A::spec_err(row, at)
        } else if !B::spec_accepts(row, at + A::spec_width()) {
            B::spec_err(row, at + A::spec_width())
        } else {
            C::spec_err(row, at + A::spec_width() + B::spec_width())
        }
    }

    open spec fn spec_read_back(&self, row: Seq<Cell>, at: int) -> bool {
        self.0.spec_read_back(row, at) && self.1.spec_read_back(row, at + A::spec_width())
            && self.2.spec_read_back(row, at + A::spec_width() + B::spec_width())
    }

    proof fn law_width() {
        A::law_width();
        B::law_width();
        C::law_width();
    }

    fn cte() -> (r: CommonTableExpression) {
        let a = A::cte();
        let b = B::cte();
        let c = C::cte();
        let ghost ga = a;
        let ghost gb = b;
        let ghost gc = c;
        let mut tables: Vec<CommonTableExpression> = Vec::new();
        tables.push(a);
        tables.push(b);
        tables.push(c);
        let ghost ts = tables@;
        proof {
            let single = seq![ga];
            let pair = seq![ga, gb];
            assert(ts =~= seq![ga, gb, gc]);
            assert(single.drop_last() =~= Seq::<CommonTableExpression>::empty());
            assert(single.last() == ga);
            assert(pair.drop_last() =~= single);
            assert(pair.last() == gb);
            assert(spec_wf_list(Seq::<CommonTableExpression>::empty()));
            assert(spec_wf_list(single));
            assert(spec_wf_list(pair));
            assert(ts.drop_last() =~= pair);
            assert(ts.last() == gc);
            assert(spec_wf_list(ts));
            assert(spec_columns_list(Seq::<CommonTableExpression>::empty()) =~= Seq::<
                (Seq<char>, Seq<char>),
            >::empty());
            assert(spec_columns_list(single) =~= spec_columns(ga));
            assert(spec_columns_list(pair) =~= spec_columns(ga) + spec_columns(gb));
            assert(spec_columns_list(ts) =~= spec_columns(ga) + spec_columns(gb) + spec_columns(
                gc,
            ));
            assert(spec_columns_list(ts) =~= A::spec_proj() + B::spec_proj() + C::spec_proj());
            assert(spec_merge_name(single) == spec_name(ga));
            assert(spec_merge_name(pair) =~= spec_name(ga) + "_"@ + spec_name(gb));
            assert(spec_merge_name(ts) =~= A::spec_tree_name() + "_"@ + B::spec_tree_name() + "_"@
                + C::spec_tree_name());
        }
        CommonTableExpression::Merge(Merge { tables })
    }

    fn width() -> (r: usize) {
        saturating_add(saturating_add(A::width(), B::width()), C::width())
    }

    fn deserialize(row: &mut OffsetRow) -> (r: Result<Self, DecodeError>) {
        let a = match A::deserialize(row) {
            Ok(a) => a,
            Err(e) => {
                row.skip(saturating_add(B::width(), C::width()));
                return Err(e);
            },
        };
        let b = match B::deserialize(row) {
            Ok(b) => b,
            Err(e) => {
                row.skip(C::width());
                return Err(e);
            },
        };
        match C::deserialize(row) {
            Ok(c) => Ok((a, b, c)),
            Err(e) => Err(e),
        }
    }
}

} // verus!
