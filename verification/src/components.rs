//! A handful of concrete components, as the code generator would emit them
//! for plain data types: each maps one-to-one to a table keyed by `entity`,
//! and carries the encode/decode round-trip law.
//!
//! They double as the component set the examples and the test suite use.

use vstd::prelude::*;

use crate::archetype::Archetype;
use crate::component::{spec_column_def_view, ColumnDefinition, Component};
use crate::cte::{spec_columns, CommonTableExpression, Extract};
use crate::entity::{spec_batch_view, EntityPrefixedQuery};
use crate::error::DecodeError;
use crate::queries::{
    delete_component, insert_component, spec_delete_sql, spec_insert_sql, spec_update_sql,
    update_component,
};
use crate::row::{
    spec_get_int_error, spec_get_text_error, spec_try_get, Cell, OffsetRow,
};
use crate::serialization::{spec_prefixed, Deserializeable, Serializable};
use crate::tables::Removable;
use crate::value::Value;

verus! {

/// A person's name, stored in its own component table.
#[derive(Debug, Clone, PartialEq, Eq)]
pub struct RealName {
    /// The stored name.
    pub real_name: String,
}

impl Serializable for RealName {
    open spec fn spec_values(&self) -> Seq<Value> {
        seq![Value::Text(self.real_name)]
    }

    open spec fn spec_insert_statements(&self, character: char) -> Seq<(Seq<char>, Seq<Value>)> {
        seq![(spec_insert_sql("real_names"@, character, seq!["real_name"@]), self.spec_values())]
    }

    open spec fn spec_update_statements(&self, character: char) -> Seq<(Seq<char>, Seq<Value>)> {
        seq![(spec_update_sql("real_names"@, character, seq!["real_name"@]), self.spec_values())]
    }

    fn serialize(&self, query: &mut Vec<Value>) {
        query.push(Value::Text(self.real_name.clone()));
        proof {
            assert(query@ =~= old(query)@ + self.spec_values());
        }
    }

    fn insert(&self, character: char, query: &mut EntityPrefixedQuery) {
        let mut cols: Vec<String> = Vec::new();
        cols.push(String::from_str("real_name"));
        let sql = insert_component("real_names", character, &cols);
        let ghost gsql = sql@;
        let mut vals: Vec<Value> = Vec::new();
        self.serialize(&mut vals);
        let ghost gvals = vals@;
        proof {
            assert(cols@.map_values(|c: String| c@) =~= seq!["real_name"@]);
            assert(gsql == spec_insert_sql("real_names"@, character, seq!["real_name"@]));
            assert(gvals =~= self.spec_values());
        }
        query.query(sql, vals);
        proof {
            assert(spec_prefixed(old(query).entity, self.spec_insert_statements(character)) =~= seq![
                (gsql, seq![old(query).entity] + gvals),
            ]);
            assert(spec_batch_view(query.queries@) =~= spec_batch_view(old(query).queries@)
                + spec_prefixed(old(query).entity, self.spec_insert_statements(character)));
        }
    }

    fn update(&self, character: char, query: &mut EntityPrefixedQuery) {
        let mut cols: Vec<String> = Vec::new();
        cols.push(String::from_str("real_name"));
        let sql = update_component("real_names", character, &cols);
        let ghost gsql = sql@;
        let mut vals: Vec<Value> = Vec::new();
        self.serialize(&mut vals);
        let ghost gvals = vals@;
        proof {
            assert(cols@.map_values(|c: String| c@) =~= seq!["real_name"@]);
            assert(gsql == spec_update_sql("real_names"@, character, seq!["real_name"@]));
            assert(gvals =~= self.spec_values());
        }
        query.query(sql, vals);
        proof {
            assert(spec_prefixed(old(query).entity, self.spec_update_statements(character)) =~= seq![
                (gsql, seq![old(query).entity] + gvals),
            ]);
            assert(spec_batch_view(query.queries@) =~= spec_batch_view(old(query).queries@)
                + spec_prefixed(old(query).entity, self.spec_update_statements(character)));
        }
    }
}

impl Deserializeable for RealName {
    open spec fn spec_proj() -> Seq<(Seq<char>, Seq<char>)> {
        seq![("real_names"@, "real_name"@)]
    }

    open spec fn spec_tree_name() -> Seq<char> {
        "real_names"@
    }

    open spec fn spec_width() -> nat {
        1
    }

    open spec fn spec_accepts(row: Seq<Cell>, at: int) -> bool {
        spec_get_text_error(row, at) is None
    }

    open spec fn spec_err(row: Seq<Cell>, at: int) -> DecodeError {
        match spec_get_text_error(row, at) {
            Some(e) => e,
            None => DecodeError::TypeMismatch,
        }
    }

    open spec fn spec_read_back(&self, row: Seq<Cell>, at: int) -> bool {
        spec_try_get(row, at) == Ok::<Value, DecodeError>(Value::Text(self.real_name))
    }

    proof fn law_width() {
    }

    fn cte() -> (r: CommonTableExpression) {
        let mut columns: Vec<String> = Vec::new();
        columns.push(String::from_str("real_name"));
        let e = Extract { table: String::from_str("real_names"), columns };
        let r = CommonTableExpression::Extract(e);
        proof {
            assert(spec_columns(r) =~= Self::spec_proj());
        }
        r
    }

    fn width() -> (r: usize) {
        1
    }

    fn deserialize(row: &mut OffsetRow) -> (r: Result<Self, DecodeError>) {
        match row.try_get_text() {
            Ok(v) => Ok(RealName { real_name: v }),
            Err(e) => Err(e),
        }
    }
}

impl Component for RealName {
    open spec fn spec_table() -> Seq<char> {
        "real_names"@
    }

    open spec fn spec_columns() -> Seq<(Seq<char>, Seq<char>)> {
        seq![("real_name"@, "text"@)]
    }

    fn table() -> (r: String) {
        String::from_str("real_names")
    }

    fn columns() -> (r: Vec<ColumnDefinition>) {
        let mut out: Vec<ColumnDefinition> = Vec::new();
        out.push(
            ColumnDefinition {
                name: String::from_str("real_name"),
                type_info: String::from_str("text"),
            },
        );
        proof {
            assert(out@.map_values(|c: ColumnDefinition| spec_column_def_view(c))
                =~= Self::spec_columns());
        }
        out
    }

    proof fn law_projection() {
        assert(Self::spec_columns().map_values(
            |c: (Seq<char>, Seq<char>)| (Self::spec_table(), c.0),
        ) =~= Self::spec_proj());
    }
}

impl Archetype for RealName {
    proof fn law_values_width(&self) {
    }

    proof fn law_round_trip(&self, other: Self, row: Seq<Cell>, at: int) {
        assert(row[at] == Some(self.spec_values()[0]));
        assert(spec_try_get(row, at) == Ok::<Value, DecodeError>(Value::Text(self.real_name)));
    }
}

impl Removable for RealName {
    open spec fn spec_delete_statements(character: char) -> Seq<(Seq<char>, Seq<Value>)> {
        seq![(spec_delete_sql("real_names"@, character), Seq::empty())]
    }

    fn remove(character: char, query: &mut EntityPrefixedQuery) {
        let sql = delete_component("real_names", character);
        let ghost gsql = sql@;
        query.query(sql, Vec::new());
        proof {
            assert(spec_prefixed(old(query).entity, Self::spec_delete_statements(character)) =~= seq![
                (gsql, seq![old(query).entity] + Seq::<Value>::empty()),
            ]);
            assert(seq![old(query).entity] + Seq::<Value>::empty() =~= seq![old(query).entity]);
            assert(spec_batch_view(query.queries@) =~= spec_batch_view(old(query).queries@)
                + spec_prefixed(old(query).entity, Self::spec_delete_statements(character)));
        }
    }
}

/// A display name component.
#[derive(Debug, Clone, PartialEq, Eq)]
pub struct Name(pub String);

impl Serializable for Name {
    open spec fn spec_values(&self) -> Seq<Value> {
        seq![Value::Text(self.0)]
    }

    open spec fn spec_insert_statements(&self, character: char) -> Seq<(Seq<char>, Seq<Value>)> {
        seq![(spec_insert_sql("names"@, character, seq!["name"@]), self.spec_values())]
    }

    open spec fn spec_update_statements(&self, character: char) -> Seq<(Seq<char>, Seq<Value>)> {
        seq![(spec_update_sql("names"@, character, seq!["name"@]), self.spec_values())]
    }

    fn serialize(&self, query: &mut Vec<Value>) {
        query.push(Value::Text(self.0.clone()));
        proof {
            assert(query@ =~= old(query)@ + self.spec_values());
        }
    }

    fn insert(&self, character: char, query: &mut EntityPrefixedQuery) {
        let mut cols: Vec<String> = Vec::new();
        cols.push(String::from_str("name"));
        let sql = insert_component("names", character, &cols);
        let ghost gsql = sql@;
        let mut vals: Vec<Value> = Vec::new();
        self.serialize(&mut vals);
        let ghost gvals = vals@;
        proof {
            assert(cols@.map_values(|c: String| c@) =~= seq!["name"@]);
            assert(gsql == spec_insert_sql("names"@, character, seq!["name"@]));
            assert(gvals =~= self.spec_values());
        }
        query.query(sql, vals);
        proof {
            assert(spec_prefixed(old(query).entity, self.spec_insert_statements(character)) =~= seq![
                (gsql, seq![old(query).entity] + gvals),
            ]);
            assert(spec_batch_view(query.queries@) =~= spec_batch_view(old(query).queries@)
                + spec_prefixed(old(query).entity, self.spec_insert_statements(character)));
        }
    }

    fn update(&self, character: char, query: &mut EntityPrefixedQuery) {
        let mut cols: Vec<String> = Vec::new();
        cols.push(String::from_str("name"));
        let sql = update_component("names", character, &cols);
        let ghost gsql = sql@;
        let mut vals: Vec<Value> = Vec::new();
        self.serialize(&mut vals);
        let ghost gvals = vals@;
        proof {
            assert(cols@.map_values(|c: String| c@) =~= seq!["name"@]);
            assert(gsql == spec_update_sql("names"@, character, seq!["name"@]));
            assert(gvals =~= self.spec_values());
        }
        query.query(sql, vals);
        proof {
            assert(spec_prefixed(old(query).entity, self.spec_update_statements(character)) =~= seq![
                (gsql, seq![old(query).entity] + gvals),
            ]);
            assert(spec_batch_view(query.queries@) =~= spec_batch_view(old(query).queries@)
                + spec_prefixed(old(query).entity, self.spec_update_statements(character)));
        }
    }
}

impl Deserializeable for Name {
    open spec fn spec_proj() -> Seq<(Seq<char>, Seq<char>)> {
        seq![("names"@, "name"@)]
    }

    open spec fn spec_tree_name() -> Seq<char> {
        "names"@
    }

    open spec fn spec_width() -> nat {
        1
    }

    open spec fn spec_accepts(row: Seq<Cell>, at: int) -> bool {
        spec_get_text_error(row, at) is None
    }

    open spec fn spec_err(row: Seq<Cell>, at: int) -> DecodeError {
        match spec_get_text_error(row, at) {
            Some(e) => e,
            None => DecodeError::TypeMismatch,
        }
    }

    open spec fn spec_read_back(&self, row: Seq<Cell>, at: int) -> bool {
        spec_try_get(row, at) == Ok::<Value, DecodeError>(Value::Text(self.0))
    }

    proof fn law_width() {
    }

    fn cte() -> (r: CommonTableExpression) {
        let mut columns: Vec<String> = Vec::new();
        columns.push(String::from_str("name"));
        let e = Extract { table: String::from_str("names"), columns };
        let r = CommonTableExpression::Extract(e);
        proof {
            assert(spec_columns(r) =~= Self::spec_proj());
        }
        r
    }

    fn width() -> (r: usize) {
        1
    }

    fn deserialize(row: &mut OffsetRow) -> (r: Result<Self, DecodeError>) {
        match row.try_get_text() {
            Ok(v) => Ok(Name(v)),
            Err(e) => Err(e),
        }
    }
}

impl Component for Name {
    open spec fn spec_table() -> Seq<char> {
        "names"@
    }

    open spec fn spec_columns() -> Seq<(Seq<char>, Seq<char>)> {
        seq![("name"@, "text"@)]
    }

    fn table() -> (r: String) {
        String::from_str("names")
    }

    fn columns() -> (r: Vec<ColumnDefinition>) {
        let mut out: Vec<ColumnDefinition> = Vec::new();
        out.push(
            ColumnDefinition {
                name: String::from_str("name"),
                type_info: String::from_str("text"),
            },
        );
        proof {
            assert(out@.map_values(|c: ColumnDefinition| spec_column_def_view(c))
                =~= Self::spec_columns());
        }
        out
    }

    proof fn law_projection() {
        assert(Self::spec_columns().map_values(
            |c: (Seq<char>, Seq<char>)| (Self::spec_table(), c.0),
        ) =~= Self::spec_proj());
    }
}

impl Archetype for Name {
    proof fn law_values_width(&self) {
    }

    proof fn law_round_trip(&self, other: Self, row: Seq<Cell>, at: int) {
        assert(row[at] == Some(self.spec_values()[0]));
        assert(spec_try_get(row, at) == Ok::<Value, DecodeError>(Value::Text(self.0)));
    }
}

impl Removable for Name {
    open spec fn spec_delete_statements(character: char) -> Seq<(Seq<char>, Seq<Value>)> {
        seq![(spec_delete_sql("names"@, character), Seq::empty())]
    }

    fn remove(character: char, query: &mut EntityPrefixedQuery) {
        let sql = delete_component("names", character);
        let ghost gsql = sql@;
        query.query(sql, Vec::new());
        proof {
            assert(spec_prefixed(old(query).entity, Self::spec_delete_statements(character)) =~= seq![
                (gsql, seq![old(query).entity] + Seq::<Value>::empty()),
            ]);
            assert(seq![old(query).entity] + Seq::<Value>::empty() =~= seq![old(query).entity]);
            assert(spec_batch_view(query.queries@) =~= spec_batch_view(old(query).queries@)
                + spec_prefixed(old(query).entity, Self::spec_delete_statements(character)));
        }
    }
}

/// An age in whole years.
#[derive(Debug, Clone, PartialEq, Eq)]
pub struct Age(pub i64);

impl Serializable for Age {
    open spec fn spec_values(&self) -> Seq<Value> {
        seq![Value::Int(self.0)]
    }

    open spec fn spec_insert_statements(&self, character: char) -> Seq<(Seq<char>, Seq<Value>)> {
        seq![(spec_insert_sql("ages"@, character, seq!["age"@]), self.spec_values())]
    }

    open spec fn spec_update_statements(&self, character: char) -> Seq<(Seq<char>, Seq<Value>)> {
        seq![(spec_update_sql("ages"@, character, seq!["age"@]), self.spec_values())]
    }

    fn serialize(&self, query: &mut Vec<Value>) {
        query.push(Value::Int(self.0));
        proof {
            assert(query@ =~= old(query)@ + self.spec_values());
        }
    }

    fn insert(&self, character: char, query: &mut EntityPrefixedQuery) {
        let mut cols: Vec<String> = Vec::new();
        cols.push(String::from_str("age"));
        let sql = insert_component("ages", character, &cols);
        let ghost gsql = sql@;
        let mut vals: Vec<Value> = Vec::new();
        self.serialize(&mut vals);
        let ghost gvals = vals@;
        proof {
            assert(cols@.map_values(|c: String| c@) =~= seq!["age"@]);
            assert(gsql == spec_insert_sql("ages"@, character, seq!["age"@]));
            assert(gvals =~= self.spec_values());
        }
        query.query(sql, vals);
        proof {
            assert(spec_prefixed(old(query).entity, self.spec_insert_statements(character)) =~= seq![
                (gsql, seq![old(query).entity] + gvals),
            ]);
            assert(spec_batch_view(query.queries@) =~= spec_batch_view(old(query).queries@)
                + spec_prefixed(old(query).entity, self.spec_insert_statements(character)));
        }
    }

    fn update(&self, character: char, query: &mut EntityPrefixedQuery) {
        let mut cols: Vec<String> = Vec::new();
        cols.push(String::from_str("age"));
        let sql = update_component("ages", character, &cols);
        let ghost gsql = sql@;
        let mut vals: Vec<Value> = Vec::new();
        self.serialize(&mut vals);
        let ghost gvals = vals@;
        proof {
            assert(cols@.map_values(|c: String| c@) =~= seq!["age"@]);
            assert(gsql == spec_update_sql("ages"@, character, seq!["age"@]));
            assert(gvals =~= self.spec_values());
        }
        query.query(sql, vals);
        proof {
            assert(spec_prefixed(old(query).entity, self.spec_update_statements(character)) =~= seq![
                (gsql, seq![old(query).entity] + gvals),
            ]);
            assert(spec_batch_view(query.queries@) =~= spec_batch_view(old(query).queries@)
                + spec_prefixed(old(query).entity, self.spec_update_statements(character)));
        }
    }
}

impl Deserializeable for Age {
    open spec fn spec_proj() -> Seq<(Seq<char>, Seq<char>)> {
        seq![("ages"@, "age"@)]
    }

    open spec fn spec_tree_name() -> Seq<char> {
        "ages"@
    }

    open spec fn spec_width() -> nat {
        1
    }

    open spec fn spec_accepts(row: Seq<Cell>, at: int) -> bool {
        spec_get_int_error(row, at) is None
    }

    open spec fn spec_err(row: Seq<Cell>, at: int) -> DecodeError {
        match spec_get_int_error(row, at) {
            Some(e) => e,
            None => DecodeError::TypeMismatch,
        }
    }

    open spec fn spec_read_back(&self, row: Seq<Cell>, at: int) -> bool {
        spec_try_get(row, at) == Ok::<Value, DecodeError>(Value::Int(self.0))
    }

    proof fn law_width() {
    }

    fn cte() -> (r: CommonTableExpression) {
        let mut columns: Vec<String> = Vec::new();
        columns.push(String::from_str("age"));
        let e = Extract { table: String::from_str("ages"), columns };
        let r = CommonTableExpression::Extract(e);
        proof {
            assert(spec_columns(r) =~= Self::spec_proj());
        }
        r
    }

    fn width() -> (r: usize) {
        1
    }

    fn deserialize(row: &mut OffsetRow) -> (r: Result<Self, DecodeError>) {
        match row.try_get_int() {
            Ok(v) => Ok(Age(v)),
            Err(e) => Err(e),
        }
    }
}

impl Component for Age {
    open spec fn spec_table() -> Seq<char> {
        "ages"@
    }

    open spec fn spec_columns() -> Seq<(Seq<char>, Seq<char>)> {
        seq![("age"@, "integer"@)]
    }

    fn table() -> (r: String) {
        String::from_str("ages")
    }

    fn columns() -> (r: Vec<ColumnDefinition>) {
        let mut out: Vec<ColumnDefinition> = Vec::new();
        out.push(
            ColumnDefinition {
                name: String::from_str("age"),
                type_info: String::from_str("integer"),
            },
        );
        proof {
            assert(out@.map_values(|c: ColumnDefinition| spec_column_def_view(c))
                =~= Self::spec_columns());
        }
        out
    }

    proof fn law_projection() {
        assert(Self::spec_columns().map_values(
            |c: (Seq<char>, Seq<char>)| (Self::spec_table(), c.0),
        ) =~= Self::spec_proj());
    }
}

impl Archetype for Age {
    proof fn law_values_width(&self) {
    }

    proof fn law_round_trip(&self, other: Self, row: Seq<Cell>, at: int) {
        assert(row[at] == Some(self.spec_values()[0]));
        assert(spec_try_get(row, at) == Ok::<Value, DecodeError>(Value::Int(self.0)));
    }
}

impl Removable for Age {
    open spec fn spec_delete_statements(character: char) -> Seq<(Seq<char>, Seq<Value>)> {
        seq![(spec_delete_sql("ages"@, character), Seq::empty())]
    }

    fn remove(character: char, query: &mut EntityPrefixedQuery) {
        let sql = delete_component("ages", character);
        let ghost gsql = sql@;
        query.query(sql, Vec::new());
        proof {
            assert(spec_prefixed(old(query).entity, Self::spec_delete_statements(character)) =~= seq![
                (gsql, seq![old(query).entity] + Seq::<Value>::empty()),
            ]);
            assert(seq![old(query).entity] + Seq::<Value>::empty() =~= seq![old(query).entity]);
            assert(spec_batch_view(query.queries@) =~= spec_batch_view(old(query).queries@)
                + spec_prefixed(old(query).entity, Self::spec_delete_statements(character)));
        }
    }
}

/// An order's public identifier.
#[derive(Debug, Clone, PartialEq, Eq)]
pub struct OrderId(pub String);

impl Serializable for OrderId {
    open spec fn spec_values(&self) -> Seq<Value> {
        seq![Value::Text(self.0)]
    }

    open spec fn spec_insert_statements(&self, character: char) -> Seq<(Seq<char>, Seq<Value>)> {
        seq![(spec_insert_sql("order_ids"@, character, seq!["order_id"@]), self.spec_values())]
    }

    open spec fn spec_update_statements(&self, character: char) -> Seq<(Seq<char>, Seq<Value>)> {
        seq![(spec_update_sql("order_ids"@, character, seq!["order_id"@]), self.spec_values())]
    }

    fn serialize(&self, query: &mut Vec<Value>) {
        query.push(Value::Text(self.0.clone()));
        proof {
            assert(query@ =~= old(query)@ + self.spec_values());
        }
    }

    fn insert(&self, character: char, query: &mut EntityPrefixedQuery) {
        let mut cols: Vec<String> = Vec::new();
        cols.push(String::from_str("order_id"));
        let sql = insert_component("order_ids", character, &cols);
        let ghost gsql = sql@;
        let mut vals: Vec<Value> = Vec::new();
        self.serialize(&mut vals);
        let ghost gvals = vals@;
        proof {
            assert(cols@.map_values(|c: String| c@) =~= seq!["order_id"@]);
            assert(gsql == spec_insert_sql("order_ids"@, character, seq!["order_id"@]));
            assert(gvals =~= self.spec_values());
        }
        query.query(sql, vals);
        proof {
            assert(spec_prefixed(old(query).entity, self.spec_insert_statements(character)) =~= seq![
                (gsql, seq![old(query).entity] + gvals),
            ]);
            assert(spec_batch_view(query.queries@) =~= spec_batch_view(old(query).queries@)
                + spec_prefixed(old(query).entity, self.spec_insert_statements(character)));
        }
    }

    fn update(&self, character: char, query: &mut EntityPrefixedQuery) {
        let mut cols: Vec<String> = Vec::new();
        cols.push(String::from_str("order_id"));
        let sql = update_component("order_ids", character, &cols);
        let ghost gsql = sql@;
        let mut vals: Vec<Value> = Vec::new();
        self.serialize(&mut vals);
        let ghost gvals = vals@;
        proof {
            assert(cols@.map_values(|c: String| c@) =~= seq!["order_id"@]);
            assert(gsql == spec_update_sql("order_ids"@, character, seq!["order_id"@]));
            assert(gvals =~= self.spec_values());
        }
        query.query(sql, vals);
        proof {
            assert(spec_prefixed(old(query).entity, self.spec_update_statements(character)) =~= seq![
                (gsql, seq![old(query).entity] + gvals),
            ]);
            assert(spec_batch_view(query.queries@) =~= spec_batch_view(old(query).queries@)
                + spec_prefixed(old(query).entity, self.spec_update_statements(character)));
        }
    }
}

impl Deserializeable for OrderId {
    open spec fn spec_proj() -> Seq<(Seq<char>, Seq<char>)> {
        seq![("order_ids"@, "order_id"@)]
    }

    open spec fn spec_tree_name() -> Seq<char> {
        "order_ids"@
    }

    open spec fn spec_width() -> nat {
        1
    }

    open spec fn spec_accepts(row: Seq<Cell>, at: int) -> bool {
        spec_get_text_error(row, at) is None
    }

    open spec fn spec_err(row: Seq<Cell>, at: int) -> DecodeError {
        match spec_get_text_error(row, at) {
            Some(e) => e,
            None => DecodeError::TypeMismatch,
        }
    }

    open spec fn spec_read_back(&self, row: Seq<Cell>, at: int) -> bool {
        spec_try_get(row, at) == Ok::<Value, DecodeError>(Value::Text(self.0))
    }

    proof fn law_width() {
    }

    fn cte() -> (r: CommonTableExpression) {
        let mut columns: Vec<String> = Vec::new();
        columns.push(String::from_str("order_id"));
        let e = Extract { table: String::from_str("order_ids"), columns };
        let r = CommonTableExpression::Extract(e);
        proof {
            assert(spec_columns(r) =~= Self::spec_proj());
        }
        r
    }

    fn width() -> (r: usize) {
        1
    }

    fn deserialize(row: &mut OffsetRow) -> (r: Result<Self, DecodeError>) {
        match row.try_get_text() {
            Ok(v) => Ok(OrderId(v)),
            Err(e) => Err(e),
        }
    }
}

impl Component for OrderId {
    open spec fn spec_table() -> Seq<char> {
        "order_ids"@
    }

    open spec fn spec_columns() -> Seq<(Seq<char>, Seq<char>)> {
        seq![("order_id"@, "text"@)]
    }

    fn table() -> (r: String) {
        String::from_str("order_ids")
    }

    fn columns() -> (r: Vec<ColumnDefinition>) {
        let mut out: Vec<ColumnDefinition> = Vec::new();
        out.push(
            ColumnDefinition {
                name: String::from_str("order_id"),
                type_info: String::from_str("text"),
            },
        );
        proof {
            assert(out@.map_values(|c: ColumnDefinition| spec_column_def_view(c))
                =~= Self::spec_columns());
        }
        out
    }

    proof fn law_projection() {
        assert(Self::spec_columns().map_values(
            |c: (Seq<char>, Seq<char>)| (Self::spec_table(), c.0),
        ) =~= Self::spec_proj());
    }
}

impl Archetype for OrderId {
    proof fn law_values_width(&self) {
    }

    proof fn law_round_trip(&self, other: Self, row: Seq<Cell>, at: int) {
        assert(row[at] == Some(self.spec_values()[0]));
        assert(spec_try_get(row, at) == Ok::<Value, DecodeError>(Value::Text(self.0)));
    }
}

impl Removable for OrderId {
    open spec fn spec_delete_statements(character: char) -> Seq<(Seq<char>, Seq<Value>)> {
        seq![(spec_delete_sql("order_ids"@, character), Seq::empty())]
    }

    fn remove(character: char, query: &mut EntityPrefixedQuery) {
        let sql = delete_component("order_ids", character);
        let ghost gsql = sql@;
        query.query(sql, Vec::new());
        proof {
            assert(spec_prefixed(old(query).entity, Self::spec_delete_statements(character)) =~= seq![
                (gsql, seq![old(query).entity] + Seq::<Value>::empty()),
            ]);
            assert(seq![old(query).entity] + Seq::<Value>::empty() =~= seq![old(query).entity]);
            assert(spec_batch_view(query.queries@) =~= spec_batch_view(old(query).queries@)
                + spec_prefixed(old(query).entity, Self::spec_delete_statements(character)));
        }
    }
}

/// The payment recorded for an order; present only once the order is paid.
#[derive(Debug, Clone, PartialEq, Eq)]
pub struct Payment {
    /// The paying account.
    pub account_id: String,
}

impl Serializable for Payment {
    open spec fn spec_values(&self) -> Seq<Value> {
        seq![Value::Text(self.account_id)]
    }

    open spec fn spec_insert_statements(&self, character: char) -> Seq<(Seq<char>, Seq<Value>)> {
        seq![(spec_insert_sql("payments"@, character, seq!["account_id"@]), self.spec_values())]
    }

    open spec fn spec_update_statements(&self, character: char) -> Seq<(Seq<char>, Seq<Value>)> {
        seq![(spec_update_sql("payments"@, character, seq!["account_id"@]), self.spec_values())]
    }

    fn serialize(&self, query: &mut Vec<Value>) {
        query.push(Value::Text(self.account_id.clone()));
        proof {
            assert(query@ =~= old(query)@ + self.spec_values());
        }
    }

    fn insert(&self, character: char, query: &mut EntityPrefixedQuery) {
        let mut cols: Vec<String> = Vec::new();
        cols.push(String::from_str("account_id"));
        let sql = insert_component("payments", character, &cols);
        let ghost gsql = sql@;
        let mut vals: Vec<Value> = Vec::new();
        self.serialize(&mut vals);
        let ghost gvals = vals@;
        proof {
            assert(cols@.map_values(|c: String| c@) =~= seq!["account_id"@]);
            assert(gsql == spec_insert_sql("payments"@, character, seq!["account_id"@]));
            assert(gvals =~= self.spec_values());
        }
        query.query(sql, vals);
        proof {
            assert(spec_prefixed(old(query).entity, self.spec_insert_statements(character)) =~= seq![
                (gsql, seq![old(query).entity] + gvals),
            ]);
            assert(spec_batch_view(query.queries@) =~= spec_batch_view(old(query).queries@)
                + spec_prefixed(old(query).entity, self.spec_insert_statements(character)));
        }
    }

    fn update(&self, character: char, query: &mut EntityPrefixedQuery) {
        let mut cols: Vec<String> = Vec::new();
        cols.push(String::from_str("account_id"));
        let sql = update_component("payments", character, &cols);
        let ghost gsql = sql@;
        let mut vals: Vec<Value> = Vec::new();
        self.serialize(&mut vals);
        let ghost gvals = vals@;
        proof {
            assert(cols@.map_values(|c: String| c@) =~= seq!["account_id"@]);
            assert(gsql == spec_update_sql("payments"@, character, seq!["account_id"@]));
            assert(gvals =~= self.spec_values());
        }
        query.query(sql, vals);
        proof {
            assert(spec_prefixed(old(query).entity, self.spec_update_statements(character)) =~= seq![
                (gsql, seq![old(query).entity] + gvals),
            ]);
            assert(spec_batch_view(query.queries@) =~= spec_batch_view(old(query).queries@)
                + spec_prefixed(old(query).entity, self.spec_update_statements(character)));
        }
    }
}

impl Deserializeable for Payment {
    open spec fn spec_proj() -> Seq<(Seq<char>, Seq<char>)> {
        seq![("payments"@, "account_id"@)]
    }

    open spec fn spec_tree_name() -> Seq<char> {
        "payments"@
    }

    open spec fn spec_width() -> nat {
        1
    }

    open spec fn spec_accepts(row: Seq<Cell>, at: int) -> bool {
        spec_get_text_error(row, at) is None
    }

    open spec fn spec_err(row: Seq<Cell>, at: int) -> DecodeError {
        match spec_get_text_error(row, at) {
            Some(e) => e,
            None => DecodeError::TypeMismatch,
        }
    }

    open spec fn spec_read_back(&self, row: Seq<Cell>, at: int) -> bool {
        spec_try_get(row, at) == Ok::<Value, DecodeError>(Value::Text(self.account_id))
    }

    proof fn law_width() {
    }

    fn cte() -> (r: CommonTableExpression) {
        let mut columns: Vec<String> = Vec::new();
        columns.push(String::from_str("account_id"));
        let e = Extract { table: String::from_str("payments"), columns };
        let r = CommonTableExpression::Extract(e);
        proof {
            assert(spec_columns(r) =~= Self::spec_proj());
        }
        r
    }

    fn width() -> (r: usize) {
        1
    }

    fn deserialize(row: &mut OffsetRow) -> (r: Result<Self, DecodeError>) {
        match row.try_get_text() {
            Ok(v) => Ok(Payment { account_id: v }),
            Err(e) => Err(e),
        }
    }
}

impl Component for Payment {
    open spec fn spec_table() -> Seq<char> {
        "payments"@
    }

    open spec fn spec_columns() -> Seq<(Seq<char>, Seq<char>)> {
        seq![("account_id"@, "text"@)]
    }

    fn table() -> (r: String) {
        String::from_str("payments")
    }

    fn columns() -> (r: Vec<ColumnDefinition>) {
        let mut out: Vec<ColumnDefinition> = Vec::new();
        out.push(
            ColumnDefinition {
                name: String::from_str("account_id"),
                type_info: String::from_str("text"),
            },
        );
        proof {
            assert(out@.map_values(|c: ColumnDefinition| spec_column_def_view(c))
                =~= Self::spec_columns());
        }
        out
    }

    proof fn law_projection() {
        assert(Self::spec_columns().map_values(
            |c: (Seq<char>, Seq<char>)| (Self::spec_table(), c.0),
        ) =~= Self::spec_proj());
    }
}

impl Archetype for Payment {
    proof fn law_values_width(&self) {
    }

    proof fn law_round_trip(&self, other: Self, row: Seq<Cell>, at: int) {
        assert(row[at] == Some(self.spec_values()[0]));
        assert(spec_try_get(row, at) == Ok::<Value, DecodeError>(Value::Text(self.account_id)));
    }
}

impl Removable for Payment {
    open spec fn spec_delete_statements(character: char) -> Seq<(Seq<char>, Seq<Value>)> {
        seq![(spec_delete_sql("payments"@, character), Seq::empty())]
    }

    fn remove(character: char, query: &mut EntityPrefixedQuery) {
        let sql = delete_component("payments", character);
        let ghost gsql = sql@;
        query.query(sql, Vec::new());
        proof {
            assert(spec_prefixed(old(query).entity, Self::spec_delete_statements(character)) =~= seq![
                (gsql, seq![old(query).entity] + Seq::<Value>::empty()),
            ]);
            assert(seq![old(query).entity] + Seq::<Value>::empty() =~= seq![old(query).entity]);
            assert(spec_batch_view(query.queries@) =~= spec_batch_view(old(query).queries@)
                + spec_prefixed(old(query).entity, Self::spec_delete_statements(character)));
        }
    }
}

/// The shipping record of an order; present only once the order shipped.
#[derive(Debug, Clone, PartialEq, Eq)]
pub struct ShippedTo {
    /// The street address the order went to.
    pub address: String,
}

impl Serializable for ShippedTo {
    open spec fn spec_values(&self) -> Seq<Value> {
        seq![Value::Text(self.address)]
    }

    open spec fn spec_insert_statements(&self, character: char) -> Seq<(Seq<char>, Seq<Value>)> {
        seq![(spec_insert_sql("shipped_to"@, character, seq!["address"@]), self.spec_values())]
    }

    open spec fn spec_update_statements(&self, character: char) -> Seq<(Seq<char>, Seq<Value>)> {
        seq![(spec_update_sql("shipped_to"@, character, seq!["address"@]), self.spec_values())]
    }

    fn serialize(&self, query: &mut Vec<Value>) {
        query.push(Value::Text(self.address.clone()));
        proof {
            assert(query@ =~= old(query)@ + self.spec_values());
        }
    }

    fn insert(&self, character: char, query: &mut EntityPrefixedQuery) {
        let mut cols: Vec<String> = Vec::new();
        cols.push(String::from_str("address"));
        let sql = insert_component("shipped_to", character, &cols);
        let ghost gsql = sql@;
        let mut vals: Vec<Value> = Vec::new();
        self.serialize(&mut vals);
        let ghost gvals = vals@;
        proof {
            assert(cols@.map_values(|c: String| c@) =~= seq!["address"@]);
            assert(gsql == spec_insert_sql("shipped_to"@, character, seq!["address"@]));
            assert(gvals =~= self.spec_values());
        }
        query.query(sql, vals);
        proof {
            assert(spec_prefixed(old(query).entity, self.spec_insert_statements(character)) =~= seq![
                (gsql, seq![old(query).entity] + gvals),
            ]);
            assert(spec_batch_view(query.queries@) =~= spec_batch_view(old(query).queries@)
                + spec_prefixed(old(query).entity, self.spec_insert_statements(character)));
        }
    }

    fn update(&self, character: char, query: &mut EntityPrefixedQuery) {
        let mut cols: Vec<String> = Vec::new();
        cols.push(String::from_str("address"));
        let sql = update_component("shipped_to", character, &cols);
        let ghost gsql = sql@;
        let mut vals: Vec<Value> = Vec::new();
        self.serialize(&mut vals);
        let ghost gvals = vals@;
        proof {
            assert(cols@.map_values(|c: String| c@) =~= seq!["address"@]);
            assert(gsql == spec_update_sql("shipped_to"@, character, seq!["address"@]));
            assert(gvals =~= self.spec_values());
        }
        query.query(sql, vals);
        proof {
            assert(spec_prefixed(old(query).entity, self.spec_update_statements(character)) =~= seq![
                (gsql, seq![old(query).entity] + gvals),
            ]);
            assert(spec_batch_view(query.queries@) =~= spec_batch_view(old(query).queries@)
                + spec_prefixed(old(query).entity, self.spec_update_statements(character)));
        }
    }
}

impl Deserializeable for ShippedTo {
    open spec fn spec_proj() -> Seq<(Seq<char>, Seq<char>)> {
        seq![("shipped_to"@, "address"@)]
    }

    open spec fn spec_tree_name() -> Seq<char> {
        "shipped_to"@
    }

    open spec fn spec_width() -> nat {
        1
    }

    open spec fn spec_accepts(row: Seq<Cell>, at: int) -> bool {
        spec_get_text_error(row, at) is None
    }

    open spec fn spec_err(row: Seq<Cell>, at: int) -> DecodeError {
        match spec_get_text_error(row, at) {
            Some(e) => e,
            None => DecodeError::TypeMismatch,
        }
    }

    open spec fn spec_read_back(&self, row: Seq<Cell>, at: int) -> bool {
        spec_try_get(row, at) == Ok::<Value, DecodeError>(Value::Text(self.address))
    }

    proof fn law_width() {
    }

    fn cte() -> (r: CommonTableExpression) {
        let mut columns: Vec<String> = Vec::new();
        columns.push(String::from_str("address"));
        let e = Extract { table: String::from_str("shipped_to"), columns };
        let r = CommonTableExpression::Extract(e);
        proof {
            assert(spec_columns(r) =~= Self::spec_proj());
        }
        r
    }

    fn width() -> (r: usize) {
        1
    }

    fn deserialize(row: &mut OffsetRow) -> (r: Result<Self, DecodeError>) {
        match row.try_get_text() {
            Ok(v) => Ok(ShippedTo { address: v }),
            Err(e) => Err(e),
        }
    }
}

impl Component for ShippedTo {
    open spec fn spec_table() -> Seq<char> {
        "shipped_to"@
    }

    open spec fn spec_columns() -> Seq<(Seq<char>, Seq<char>)> {
        seq![("address"@, "text"@)]
    }

    fn table() -> (r: String) {
        String::from_str("shipped_to")
    }

    fn columns() -> (r: Vec<ColumnDefinition>) {
        let mut out: Vec<ColumnDefinition> = Vec::new();
        out.push(
            ColumnDefinition {
                name: String::from_str("address"),
                type_info: String::from_str("text"),
            },
        );
        proof {
            assert(out@.map_values(|c: ColumnDefinition| spec_column_def_view(c))
                =~= Self::spec_columns());
        }
        out
    }

    proof fn law_projection() {
        assert(Self::spec_columns().map_values(
            |c: (Seq<char>, Seq<char>)| (Self::spec_table(), c.0),
        ) =~= Self::spec_proj());
    }
}

impl Archetype for ShippedTo {
    proof fn law_values_width(&self) {
    }

    proof fn law_round_trip(&self, other: Self, row: Seq<Cell>, at: int) {
        assert(row[at] == Some(self.spec_values()[0]));
        assert(spec_try_get(row, at) == Ok::<Value, DecodeError>(Value::Text(self.address)));
    }
}

impl Removable for ShippedTo {
    open spec fn spec_delete_statements(character: char) -> Seq<(Seq<char>, Seq<Value>)> {
        seq![(spec_delete_sql("shipped_to"@, character), Seq::empty())]
    }

    fn remove(character: char, query: &mut EntityPrefixedQuery) {
        let sql = delete_component("shipped_to", character);
        let ghost gsql = sql@;
        query.query(sql, Vec::new());
        proof {
            assert(spec_prefixed(old(query).entity, Self::spec_delete_statements(character)) =~= seq![
                (gsql, seq![old(query).entity] + Seq::<Value>::empty()),
            ]);
            assert(seq![old(query).entity] + Seq::<Value>::empty() =~= seq![old(query).entity]);
            assert(spec_batch_view(query.queries@) =~= spec_batch_view(old(query).queries@)
                + spec_prefixed(old(query).entity, Self::spec_delete_statements(character)));
        }
    }
}

} // verus!
