//! The condition DSL: a composable predicate tree whose textual placeholder
//! order exactly matches its value-binding order.
//!
//! `serialize` emits exactly one placeholder token per comparison leaf it
//! visits, in the same left-to-right order in which `bind` consumes the
//! leaves' values; `law_placeholders_match_leaves` states and proves this
//! correspondence for every implementation.

use vstd::prelude::*;

use crate::dialect::{append_placeholder, spec_placeholder_token, Dialect};
use crate::value::Value;

verus! {

/// The value components of a leaf sequence, in leaf order.
pub open spec fn spec_leaf_values(leaves: Seq<(Seq<char>, Seq<char>, Value)>) -> Seq<Value> {
    leaves.map_values(|l: (Seq<char>, Seq<char>, Value)| l.2)
}

/// A predicate over component columns that can be rendered to SQL text and
/// bound to a statement's parameter list.
pub trait Condition: Sized {
    /// The comparison leaves, as (column, operator, value) triples, in the
    /// order serialization visits them; `bind` consumes their values in the
    /// same order.
    spec fn leaves(&self) -> Seq<(Seq<char>, Seq<char>, Value)>;

    /// The predicate text, with bound parameters numbered upward from
    /// `start + 1`.
    spec fn spec_text(&self, dialect: Dialect, start: nat) -> Seq<char>;

    /// The placeholder tokens the predicate text contains, in emission
    /// order.
    spec fn spec_placeholders(&self, dialect: Dialect, start: nat) -> Seq<Seq<char>>;

    /// Serialization emits exactly one placeholder per leaf, and the k-th
    /// emitted placeholder is the token of parameter `start + k + 1`.
    /// Together with `bind`'s contract this says that the k-th placeholder
    /// of the text stands for exactly the k-th value bound.
    proof fn law_placeholders_match_leaves(&self, dialect: Dialect, start: nat)
        ensures
            self.spec_placeholders(dialect, start).len() == self.leaves().len(),
            forall|k: int|
                0 <= k < self.leaves().len() ==> self.spec_placeholders(dialect, start)[k]
                    == spec_placeholder_token(dialect, (start + k + 1) as nat),
    ;

    /// Appends the predicate text to `out`, advancing the shared parameter
    /// counter once per leaf.
    fn serialize(&self, dialect: Dialect, counter: &mut usize, out: &mut String)
        requires
            *old(counter) + self.leaves().len() <= usize::MAX,
        ensures
            final(out)@ == old(out)@ + self.spec_text(dialect, *old(counter) as nat),
            *final(counter) == *old(counter) + self.leaves().len(),
    ;

    /// Appends the leaves' values to the statement's parameter list, left
    /// to right, matching the serialize traversal exactly.
    fn bind(&self, params: &mut Vec<Value>)
        ensures
            final(params)@ == old(params)@ + spec_leaf_values(self.leaves()),
    ;
}

/// The tautology: serializes to an always-true predicate and binds nothing.
pub struct All;

impl Condition for All {
    open spec fn leaves(&self) -> Seq<(Seq<char>, Seq<char>, Value)> {
        Seq::empty()
    }

    open spec fn spec_text(&self, dialect: Dialect, start: nat) -> Seq<char> {
        "1 = 1"@
    }

    open spec fn spec_placeholders(&self, dialect: Dialect, start: nat) -> Seq<Seq<char>> {
        Seq::empty()
    }

    proof fn law_placeholders_match_leaves(&self, dialect: Dialect, start: nat) {
    }

    fn serialize(&self, dialect: Dialect, counter: &mut usize, out: &mut String) {
        out.append("1 = 1");
    }

    fn bind(&self, params: &mut Vec<Value>) {
        proof {
            assert(params@ =~= old(params)@ + spec_leaf_values(self.leaves()));
        }
    }
}

/// A equality comparison of one column against one bound value.
pub struct Equality {
    /// The column compared.
    pub column: String,
    /// The value the column is compared against.
    pub parameter: Value,
}

impl Equality {
    /// A equality condition on `column`.
    pub fn new(column: &str, value: Value) -> (r: Equality)
        ensures
            r.column@ == column@,
            r.parameter == value,
    {
        Equality { column: String::from_str(column), parameter: value }
    }
}

impl Condition for Equality {
    open spec fn leaves(&self) -> Seq<(Seq<char>, Seq<char>, Value)> {
        seq![(self.column@, " == "@, self.parameter)]
    }

    open spec fn spec_text(&self, dialect: Dialect, start: nat) -> Seq<char> {
        self.column@ + " == "@ + spec_placeholder_token(dialect, start + 1)
    }

    open spec fn spec_placeholders(&self, dialect: Dialect, start: nat) -> Seq<Seq<char>> {
        seq![spec_placeholder_token(dialect, start + 1)]
    }

    proof fn law_placeholders_match_leaves(&self, dialect: Dialect, start: nat) {
        assert(self.spec_placeholders(dialect, start)[0] == spec_placeholder_token(
            dialect,
            start + 1,
        ));
    }

    fn serialize(&self, dialect: Dialect, counter: &mut usize, out: &mut String) {
        out.append(self.column.as_str());
        out.append(" == ");
        *counter = *counter + 1;
        append_placeholder(dialect, *counter, out);
        proof {
            assert(out@ =~= old(out)@ + self.spec_text(dialect, *old(counter) as nat));
        }
    }

    fn bind(&self, params: &mut Vec<Value>) {
        params.push(self.parameter.duplicate());
        proof {
            assert(params@ =~= old(params)@ + spec_leaf_values(self.leaves()));
        }
    }
}

/// A inequality comparison of one column against one bound value.
pub struct Inequality {
    /// The column compared.
    pub column: String,
    /// The value the column is compared against.
    pub parameter: Value,
}

impl Inequality {
    /// A inequality condition on `column`.
    pub fn new(column: &str, value: Value) -> (r: Inequality)
        ensures
            r.column@ == column@,
            r.parameter == value,
    {
        Inequality { column: String::from_str(column), parameter: value }
    }
}

impl Condition for Inequality {
    open spec fn leaves(&self) -> Seq<(Seq<char>, Seq<char>, Value)> {
        seq![(self.column@, " <> "@, self.parameter)]
    }

    open spec fn spec_text(&self, dialect: Dialect, start: nat) -> Seq<char> {
        self.column@ + " <> "@ + spec_placeholder_token(dialect, start + 1)
    }

    open spec fn spec_placeholders(&self, dialect: Dialect, start: nat) -> Seq<Seq<char>> {
        seq![spec_placeholder_token(dialect, start + 1)]
    }

    proof fn law_placeholders_match_leaves(&self, dialect: Dialect, start: nat) {
        assert(self.spec_placeholders(dialect, start)[0] == spec_placeholder_token(
            dialect,
            start + 1,
        ));
    }

    fn serialize(&self, dialect: Dialect, counter: &mut usize, out: &mut String) {
        out.append(self.column.as_str());
        out.append(" <> ");
        *counter = *counter + 1;
        append_placeholder(dialect, *counter, out);
        proof {
            assert(out@ =~= old(out)@ + self.spec_text(dialect, *old(counter) as nat));
        }
    }

    fn bind(&self, params: &mut Vec<Value>) {
        params.push(self.parameter.duplicate());
        proof {
            assert(params@ =~= old(params)@ + spec_leaf_values(self.leaves()));
        }
    }
}

/// A strict greater-than comparison of one column against one bound value.
pub struct GreaterThan {
    /// The column compared.
    pub column: String,
    /// The value the column is compared against.
    pub parameter: Value,
}

impl GreaterThan {
    /// A strict greater-than condition on `column`.
    pub fn new(column: &str, value: Value) -> (r: GreaterThan)
        ensures
            r.column@ == column@,
            r.parameter == value,
    {
        GreaterThan { column: String::from_str(column), parameter: value }
    }
}

impl Condition for GreaterThan {
    open spec fn leaves(&self) -> Seq<(Seq<char>, Seq<char>, Value)> {
        seq![(self.column@, " > "@, self.parameter)]
    }

    open spec fn spec_text(&self, dialect: Dialect, start: nat) -> Seq<char> {
        self.column@ + " > "@ + spec_placeholder_token(dialect, start + 1)
    }

    open spec fn spec_placeholders(&self, dialect: Dialect, start: nat) -> Seq<Seq<char>> {
        seq![spec_placeholder_token(dialect, start + 1)]
    }

    proof fn law_placeholders_match_leaves(&self, dialect: Dialect, start: nat) {
        assert(self.spec_placeholders(dialect, start)[0] == spec_placeholder_token(
            dialect,
            start + 1,
        ));
    }

    fn serialize(&self, dialect: Dialect, counter: &mut usize, out: &mut String) {
        out.append(self.column.as_str());
        out.append(" > ");
        *counter = *counter + 1;
        append_placeholder(dialect, *counter, out);
        proof {
            assert(out@ =~= old(out)@ + self.spec_text(dialect, *old(counter) as nat));
        }
    }

    fn bind(&self, params: &mut Vec<Value>) {
        params.push(self.parameter.duplicate());
        proof {
            assert(params@ =~= old(params)@ + spec_leaf_values(self.leaves()));
        }
    }
}

/// A strict less-than comparison of one column against one bound value.
pub struct LessThan {
    /// The column compared.
    pub column: String,
    /// The value the column is compared against.
    pub parameter: Value,
}

impl LessThan {
    /// A strict less-than condition on `column`.
    pub fn new(column: &str, value: Value) -> (r: LessThan)
        ensures
            r.column@ == column@,
            r.parameter == value,
    {
        LessThan { column: String::from_str(column), parameter: value }
    }
}

impl Condition for LessThan {
    open spec fn leaves(&self) -> Seq<(Seq<char>, Seq<char>, Value)> {
        seq![(self.column@, " < "@, self.parameter)]
    }

    open spec fn spec_text(&self, dialect: Dialect, start: nat) -> Seq<char> {
        self.column@ + " < "@ + spec_placeholder_token(dialect, start + 1)
    }

    open spec fn spec_placeholders(&self, dialect: Dialect, start: nat) -> Seq<Seq<char>> {
        seq![spec_placeholder_token(dialect, start + 1)]
    }

    proof fn law_placeholders_match_leaves(&self, dialect: Dialect, start: nat) {
        assert(self.spec_placeholders(dialect, start)[0] == spec_placeholder_token(
            dialect,
            start + 1,
        ));
    }

    fn serialize(&self, dialect: Dialect, counter: &mut usize, out: &mut String) {
        out.append(self.column.as_str());
        out.append(" < ");
        *counter = *counter + 1;
        append_placeholder(dialect, *counter, out);
        proof {
            assert(out@ =~= old(out)@ + self.spec_text(dialect, *old(counter) as nat));
        }
    }

    fn bind(&self, params: &mut Vec<Value>) {
        params.push(self.parameter.duplicate());
        proof {
            assert(params@ =~= old(params)@ + spec_leaf_values(self.leaves()));
        }
    }
}

/// A greater-than-or-equal comparison of one column against one bound value.
pub struct GreaterThanOrEqual {
    /// The column compared.
    pub column: String,
    /// The value the column is compared against.
    pub parameter: Value,
}

impl GreaterThanOrEqual {
    /// A greater-than-or-equal condition on `column`.
    pub fn new(column: &str, value: Value) -> (r: GreaterThanOrEqual)
        ensures
            r.column@ == column@,
            r.parameter == value,
    {
        GreaterThanOrEqual { column: String::from_str(column), parameter: value }
    }
}

impl Condition for GreaterThanOrEqual {
    open spec fn leaves(&self) -> Seq<(Seq<char>, Seq<char>, Value)> {
        seq![(self.column@, " >= "@, self.parameter)]
    }

    open spec fn spec_text(&self, dialect: Dialect, start: nat) -> Seq<char> {
        self.column@ + " >= "@ + spec_placeholder_token(dialect, start + 1)
    }

    open spec fn spec_placeholders(&self, dialect: Dialect, start: nat) -> Seq<Seq<char>> {
        seq![spec_placeholder_token(dialect, start + 1)]
    }

    proof fn law_placeholders_match_leaves(&self, dialect: Dialect, start: nat) {
        assert(self.spec_placeholders(dialect, start)[0] == spec_placeholder_token(
            dialect,
            start + 1,
        ));
    }

    fn serialize(&self, dialect: Dialect, counter: &mut usize, out: &mut String) {
        out.append(self.column.as_str());
        out.append(" >= ");
        *counter = *counter + 1;
        append_placeholder(dialect, *counter, out);
        proof {
            assert(out@ =~= old(out)@ + self.spec_text(dialect, *old(counter) as nat));
        }
    }

    fn bind(&self, params: &mut Vec<Value>) {
        params.push(self.parameter.duplicate());
        proof {
            assert(params@ =~= old(params)@ + spec_leaf_values(self.leaves()));
        }
    }
}

/// A less-than-or-equal comparison of one column against one bound value.
pub struct LessThanOrEqual {
    /// The column compared.
    pub column: String,
    /// The value the column is compared against.
    pub parameter: Value,
}

impl LessThanOrEqual {
    /// A less-than-or-equal condition on `column`.
    pub fn new(column: &str, value: Value) -> (r: LessThanOrEqual)
        ensures
            r.column@ == column@,
            r.parameter == value,
    {
        LessThanOrEqual { column: String::from_str(column), parameter: value }
    }
}

impl Condition for LessThanOrEqual {
    open spec fn leaves(&self) -> Seq<(Seq<char>, Seq<char>, Value)> {
        seq![(self.column@, " <= "@, self.parameter)]
    }

    open spec fn spec_text(&self, dialect: Dialect, start: nat) -> Seq<char> {
        self.column@ + " <= "@ + spec_placeholder_token(dialect, start + 1)
    }

    open spec fn spec_placeholders(&self, dialect: Dialect, start: nat) -> Seq<Seq<char>> {
        seq![spec_placeholder_token(dialect, start + 1)]
    }

    proof fn law_placeholders_match_leaves(&self, dialect: Dialect, start: nat) {
        assert(self.spec_placeholders(dialect, start)[0] == spec_placeholder_token(
            dialect,
            start + 1,
        ));
    }

    fn serialize(&self, dialect: Dialect, counter: &mut usize, out: &mut String) {
        out.append(self.column.as_str());
        out.append(" <= ");
        *counter = *counter + 1;
        append_placeholder(dialect, *counter, out);
        proof {
            assert(out@ =~= old(out)@ + self.spec_text(dialect, *old(counter) as nat));
        }
    }

    fn bind(&self, params: &mut Vec<Value>) {
        params.push(self.parameter.duplicate());
        proof {
            assert(params@ =~= old(params)@ + spec_leaf_values(self.leaves()));
        }
    }
}

/// The conjunction of two conditions.
pub struct And<A, B> {
    /// The left operand, serialized and bound first.
    pub a: A,
    /// The right operand, serialized and bound second.
    pub b: B,
}

impl<A, B> And<A, B> {
    /// Combines two conditions; neither side's leaves are reordered.
    pub fn new(a: A, b: B) -> (r: And<A, B>)
        ensures
            r.a == a,
            r.b == b,
    {
        And { a, b }
    }
}

impl<A: Condition, B: Condition> Condition for And<A, B> {
    open spec fn leaves(&self) -> Seq<(Seq<char>, Seq<char>, Value)> {
        self.a.leaves() + self.b.leaves()
    }

    open spec fn spec_text(&self, dialect: Dialect, start: nat) -> Seq<char> {
        "("@ + self.a.spec_text(dialect, start) + " and "@ + self.b.spec_text(
            dialect,
            start + self.a.leaves().len(),
        ) + ")"@
    }

    open spec fn spec_placeholders(&self, dialect: Dialect, start: nat) -> Seq<Seq<char>> {
        self.a.spec_placeholders(dialect, start) + self.b.spec_placeholders(
            dialect,
            start + self.a.leaves().len(),
        )
    }

    proof fn law_placeholders_match_leaves(&self, dialect: Dialect, start: nat) {
        let la = self.a.leaves();
        let pa = self.a.spec_placeholders(dialect, start);
        let pb = self.b.spec_placeholders(dialect, start + la.len());
        self.a.law_placeholders_match_leaves(dialect, start);
        self.b.law_placeholders_match_leaves(dialect, start + la.len());
        assert forall|k: int| 0 <= k < self.leaves().len() implies self.spec_placeholders(
            dialect,
            start,
        )[k] == spec_placeholder_token(dialect, (start + k + 1) as nat) by {
            if k < la.len() {
                assert((pa + pb)[k] == pa[k]);
            } else {
                assert((pa + pb)[k] == pb[k - la.len()]);
                assert(pb[k - la.len()] == spec_placeholder_token(
                    dialect,
                    (start + la.len() + (k - la.len()) + 1) as nat,
                ));
            }
        }
    }

    fn serialize(&self, dialect: Dialect, counter: &mut usize, out: &mut String) {
        out.append("(");
        self.a.serialize(dialect, counter, out);
        out.append(" and ");
        self.b.serialize(dialect, counter, out);
        out.append(")");
        proof {
            assert(out@ =~= old(out)@ + self.spec_text(dialect, *old(counter) as nat));
        }
    }

    fn bind(&self, params: &mut Vec<Value>) {
        self.a.bind(params);
        self.b.bind(params);
        proof {
            assert(spec_leaf_values(self.leaves()) =~= spec_leaf_values(self.a.leaves())
                + spec_leaf_values(self.b.leaves()));
            assert(params@ =~= old(params)@ + spec_leaf_values(self.leaves()));
        }
    }
}

/// The disjunction of two conditions.
pub struct Or<A, B> {
    /// The left operand, serialized and bound first.
    pub a: A,
    /// The right operand, serialized and bound second.
    pub b: B,
}

impl<A, B> Or<A, B> {
    /// Combines two conditions; neither side's leaves are reordered.
    pub fn new(a: A, b: B) -> (r: Or<A, B>)
        ensures
            r.a == a,
            r.b == b,
    {
        Or { a, b }
    }
}

impl<A: Condition, B: Condition> Condition for Or<A, B> {
    open spec fn leaves(&self) -> Seq<(Seq<char>, Seq<char>, Value)> {
        self.a.leaves() + self.b.leaves()
    }

    open spec fn spec_text(&self, dialect: Dialect, start: nat) -> Seq<char> {
        "("@ + self.a.spec_text(dialect, start) + " or "@ + self.b.spec_text(
            dialect,
            start + self.a.leaves().len(),
        ) + ")"@
    }

    open spec fn spec_placeholders(&self, dialect: Dialect, start: nat) -> Seq<Seq<char>> {
        self.a.spec_placeholders(dialect, start) + self.b.spec_placeholders(
            dialect,
            start + self.a.leaves().len(),
        )
    }

    proof fn law_placeholders_match_leaves(&self, dialect: Dialect, start: nat) {
        let la = self.a.leaves();
        let pa = self.a.spec_placeholders(dialect, start);
        let pb = self.b.spec_placeholders(dialect, start + la.len());
        self.a.law_placeholders_match_leaves(dialect, start);
        self.b.law_placeholders_match_leaves(dialect, start + la.len());
        assert forall|k: int| 0 <= k < self.leaves().len() implies self.spec_placeholders(
            dialect,
            start,
        )[k] == spec_placeholder_token(dialect, (start + k + 1) as nat) by {
            if k < la.len() {
                assert((pa + pb)[k] == pa[k]);
            } else {
                assert((pa + pb)[k] == pb[k - la.len()]);
                assert(pb[k - la.len()] == spec_placeholder_token(
                    dialect,
                    (start + la.len() + (k - la.len()) + 1) as nat,
                ));
            }
        }
    }

    fn serialize(&self, dialect: Dialect, counter: &mut usize, out: &mut String) {
        out.append("(");
        self.a.serialize(dialect, counter, out);
        out.append(" or ");
        self.b.serialize(dialect, counter, out);
        out.append(")");
        proof {
            assert(out@ =~= old(out)@ + self.spec_text(dialect, *old(counter) as nat));
        }
    }

    fn bind(&self, params: &mut Vec<Value>) {
        self.a.bind(params);
        self.b.bind(params);
        proof {
            assert(spec_leaf_values(self.leaves()) =~= spec_leaf_values(self.a.leaves())
                + spec_leaf_values(self.b.leaves()));
            assert(params@ =~= old(params)@ + spec_leaf_values(self.leaves()));
        }
    }
}

impl All {
    /// Wraps this condition and `other` in a conjunction, without
    /// reordering either side's internal leaves.
    pub fn and<B>(self, other: B) -> (r: And<All, B>)
        ensures
            r.a == self,
            r.b == other,
    {
        And { a: self, b: other }
    }

    /// Wraps this condition and `other` in a disjunction, without
    /// reordering either side's internal leaves.
    pub fn or<B>(self, other: B) -> (r: Or<All, B>)
        ensures
            r.a == self,
            r.b == other,
    {
        Or { a: self, b: other }
    }
}

impl Equality {
    /// Wraps this condition and `other` in a conjunction, without
    /// reordering either side's internal leaves.
    pub fn and<B>(self, other: B) -> (r: And<Equality, B>)
        ensures
            r.a == self,
            r.b == other,
    {
        And { a: self, b: other }
    }

    /// Wraps this condition and `other` in a disjunction, without
    /// reordering either side's internal leaves.
    pub fn or<B>(self, other: B) -> (r: Or<Equality, B>)
        ensures
            r.a == self,
            r.b == other,
    {
        Or { a: self, b: other }
    }
}

impl Inequality {
    /// Wraps this condition and `other` in a conjunction, without
    /// reordering either side's internal leaves.
    pub fn and<B>(self, other: B) -> (r: And<Inequality, B>)
        ensures
            r.a == self,
            r.b == other,
    {
        And { a: self, b: other }
    }

    /// Wraps this condition and `other` in a disjunction, without
    /// reordering either side's internal leaves.
    pub fn or<B>(self, other: B) -> (r: Or<Inequality, B>)
        ensures
            r.a == self,
            r.b == other,
    {
        Or { a: self, b: other }
    }
}

impl GreaterThan {
    /// Wraps this condition and `other` in a conjunction, without
    /// reordering either side's internal leaves.
    pub fn and<B>(self, other: B) -> (r: And<GreaterThan, B>)
        ensures
            r.a == self,
            r.b == other,
    {
        And { a: self, b: other }
    }

    /// Wraps this condition and `other` in a disjunction, without
    /// reordering either side's internal leaves.
    pub fn or<B>(self, other: B) -> (r: Or<GreaterThan, B>)
        ensures
            r.a == self,
            r.b == other,
    {
        Or { a: self, b: other }
    }
}

impl LessThan {
    /// Wraps this condition and `other` in a conjunction, without
    /// reordering either side's internal leaves.
    pub fn and<B>(self, other: B) -> (r: And<LessThan, B>)
        ensures
            r.a == self,
            r.b == other,
    {
        And { a: self, b: other }
    }

    /// Wraps this condition and `other` in a disjunction, without
    /// reordering either side's internal leaves.
    pub fn or<B>(self, other: B) -> (r: Or<LessThan, B>)
        ensures
            r.a == self,
            r.b == other,
    {
        Or { a: self, b: other }
    }
}

impl GreaterThanOrEqual {
    /// Wraps this condition and `other` in a conjunction, without
    /// reordering either side's internal leaves.
    pub fn and<B>(self, other: B) -> (r: And<GreaterThanOrEqual, B>)
        ensures
            r.a == self,
            r.b == other,
    {
        And { a: self, b: other }
    }

    /// Wraps this condition and `other` in a disjunction, without
    /// reordering either side's internal leaves.
    pub fn or<B>(self, other: B) -> (r: Or<GreaterThanOrEqual, B>)
        ensures
            r.a == self,
            r.b == other,
    {
        Or { a: self, b: other }
    }
}

impl LessThanOrEqual {
    /// Wraps this condition and `other` in a conjunction, without
    /// reordering either side's internal leaves.
    pub fn and<B>(self, other: B) -> (r: And<LessThanOrEqual, B>)
        ensures
            r.a == self,
            r.b == other,
    {
        And { a: self, b: other }
    }

    /// Wraps this condition and `other` in a disjunction, without
    /// reordering either side's internal leaves.
    pub fn or<B>(self, other: B) -> (r: Or<LessThanOrEqual, B>)
        ensures
            r.a == self,
            r.b == other,
    {
        Or { a: self, b: other }
    }
}

impl<A, B> And<A, B> {
    /// Wraps this condition and `other` in a conjunction, without
    /// reordering either side's internal leaves.
    pub fn and<C>(self, other: C) -> (r: And<And<A, B>, C>)
        ensures
            r.a == self,
            r.b == other,
    {
        And { a: self, b: other }
    }

    /// Wraps this condition and `other` in a disjunction, without
    /// reordering either side's internal leaves.
    pub fn or<C>(self, other: C) -> (r: Or<And<A, B>, C>)
        ensures
            r.a == self,
            r.b == other,
    {
        Or { a: self, b: other }
    }
}

impl<A, B> Or<A, B> {
    /// Wraps this condition and `other` in a conjunction, without
    /// reordering either side's internal leaves.
    pub fn and<C>(self, other: C) -> (r: And<Or<A, B>, C>)
        ensures
            r.a == self,
            r.b == other,
    {
        And { a: self, b: other }
    }

    /// Wraps this condition and `other` in a disjunction, without
    /// reordering either side's internal leaves.
    pub fn or<C>(self, other: C) -> (r: Or<Or<A, B>, C>)
        ensures
            r.a == self,
            r.b == other,
    {
        Or { a: self, b: other }
    }
}

} // verus!
