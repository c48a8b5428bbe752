//! The backend facade: composes the query tree, condition DSL and
//! serialization bridge into the register/insert/update/remove/list/get
//! operations.
//!
//! Every function here only computes SQL text and parameter lists; the
//! surrounding application executes them against its pool and hands fetched
//! rows back for decoding.

use core::marker::PhantomData;

use vstd::prelude::*;

use crate::condition::{spec_leaf_values, All, Condition};
use crate::component::Component;
use crate::cte::{
    serialize, spec_columns, spec_entity_column, spec_sql, spec_wf,
    CommonTableExpression, With, Without,
};
use crate::dialect::{spec_placeholder_token, Dialect};
use crate::entity::{spec_batch_view, EntityPrefixedQuery};
use crate::error::{DecodeError, Error};
use crate::queries::spec_join_comma;
use crate::row::{spec_try_get, Cell, Entity, OffsetRow};
use crate::serialization::{spec_prefixed, Deserializeable, Serializable};
use crate::tables::Removable;
use crate::value::Value;

verus! {

/// A source of fresh entity identifiers; implement it for whatever
/// identifier type the application keys its entities with.
pub trait GenerateNew: Sized {
    /// A new, never-before-used identifier.
    fn generate_new() -> Self;
}

/// Relies on `uuid::Uuid::new_v4` and its hyphenated `to_string` form: the
/// result is random, so nothing is promised of it.
#[verifier::external_body]
fn fresh_uuid_text() -> String {
    uuid::Uuid::new_v4().to_string()
}

impl GenerateNew for Value {
    fn generate_new() -> Value {
        Value::Text(fresh_uuid_text())
    }
}

/// The placeholder character the write statements use for one dialect.
pub open spec fn spec_placeholder_character(dialect: Dialect) -> char {
    match dialect {
        Dialect::Postgres => '$',
        _ => '?',
    }
}

/// The placeholder character the write statements use for one dialect.
pub fn placeholder_character(dialect: Dialect) -> (r: char)
    ensures
        r == spec_placeholder_character(dialect),
{
    match dialect {
        Dialect::Postgres => '$',
        _ => '?',
    }
}

/// A configurable query for entities holding the components of `T`.
///
/// `with` and `without` narrow the entity set by the presence or absence of
/// marker components; `filter` adds a condition on column values. `sql` and
/// `arguments` then yield the statement to execute, and `decode_row`
/// decodes each fetched row.
pub struct List<T, C> {
    /// The query tree composed so far.
    pub cte: CommonTableExpression,
    /// The condition applied to the results.
    pub condition: C,
    /// The component composition this query yields.
    pub yields: PhantomData<T>,
}

impl<T: Deserializeable> List<T, All> {
    /// A query for every entity that has all of `T`'s components.
    pub fn new() -> (r: List<T, All>)
        ensures
            spec_wf(r.cte),
            spec_columns(r.cte) == T::spec_proj(),
    {
        List { cte: T::cte(), condition: All, yields: PhantomData }
    }
}

impl<T: Deserializeable, C: Condition> List<T, C> {
    /// Keep only entities that also hold the components of `Include`,
    /// without returning those components.
    ///
    /// This is especially useful for marker components, which carry no data
    /// but whose presence says something about the entity's state.
    pub fn with<Include: Deserializeable>(self) -> (r: List<T, C>)
        requires
            spec_wf(self.cte),
        ensures
            spec_wf(r.cte),
            spec_columns(r.cte) == spec_columns(self.cte),
            (r.cte matches CommonTableExpression::Include(i) && *i.base == self.cte
                && spec_columns(*i.required) == Include::spec_proj()),
            r.condition == self.condition,
    {
        let filter = With { filter: Box::new(Include::cte()) };
        List { cte: filter.cte(self.cte), condition: self.condition, yields: PhantomData }
    }

    /// Drop every entity that holds the components of `Exclude`.
    pub fn without<Exclude: Deserializeable>(self) -> (r: List<T, C>)
        requires
            spec_wf(self.cte),
        ensures
            spec_wf(r.cte),
            spec_columns(r.cte) == spec_columns(self.cte),
            (r.cte matches CommonTableExpression::Exclude(x) && *x.base == self.cte
                && spec_columns(*x.excluded) == Exclude::spec_proj()),
            r.condition == self.condition,
    {
        let filter = Without { filter: Box::new(Exclude::cte()) };
        List { cte: filter.cte(self.cte), condition: self.condition, yields: PhantomData }
    }

    /// Filter the results by a condition on column values before they are
    /// returned from the database.
    pub fn filter<Cond: Condition>(self, condition: Cond) -> (r: List<T, Cond>)
        ensures
            r.cte == self.cte,
            r.condition == condition,
    {
        List { cte: self.cte, condition, yields: PhantomData }
    }

    /// The full statement text of this query: the serialized tree followed
    /// by the condition, whose placeholders are numbered from one.
    pub fn sql(&self, dialect: Dialect) -> (r: String)
        requires
            spec_wf(self.cte),
            self.condition.leaves().len() <= usize::MAX,
        ensures
            r@ == spec_sql(self.cte) + " where "@ + self.condition.spec_text(dialect, 0),
    {
        let mut out = serialize(&self.cte);
        out.append(" where ");
        let mut counter: usize = 0;
        self.condition.serialize(dialect, &mut counter, &mut out);
        proof {
            assert(out@ =~= spec_sql(self.cte) + " where "@ + self.condition.spec_text(
                dialect,
                0,
            ));
        }
        out
    }

    /// The parameters to bind to the statement, in exactly the order the
    /// text's placeholders expect.
    pub fn arguments(&self) -> (r: Vec<Value>)
        ensures
            r@ == spec_leaf_values(self.condition.leaves()),
    {
        let mut params: Vec<Value> = Vec::new();
        self.condition.bind(&mut params);
        proof {
            assert(params@ =~= spec_leaf_values(self.condition.leaves()));
        }
        params
    }

    /// The statement text of a single-entity lookup on this query: the
    /// serialized tree filtered on its entity column, with the entity as
    /// the one bound parameter.
    pub fn sql_get(&self, dialect: Dialect) -> (r: String)
        requires
            spec_wf(self.cte),
        ensures
            r@ == spec_sql(self.cte) + "where "@ + spec_entity_column(self.cte) + " = "@
                + spec_placeholder_token(dialect, 1),
    {
        let mut out = serialize(&self.cte);
        out.append("where ");
        out.append("__cte_");
        self.cte.table_name(&mut out);
        out.append("__entity");
        out.append(" = ");
        crate::dialect::append_placeholder(dialect, 1, &mut out);
        proof {
            assert(out@ =~= spec_sql(self.cte) + "where "@ + spec_entity_column(self.cte) + " = "@
                + spec_placeholder_token(dialect, 1));
        }
        out
    }

    /// Decodes one fetched row into the entity identifier (the row's first
    /// column) and the components of `T` (the columns after it).
    pub fn decode_row(row: Vec<Cell>) -> (r: Result<Entity<Value, T>, Error>)
        requires
            T::spec_width() < usize::MAX,
        ensures
            (match r {
                Ok(ent) => {
                    &&& spec_try_get(row@, 0) == Ok::<Value, DecodeError>(ent.spec_id())
                    &&& T::spec_accepts(row@, 1)
                    &&& ent.spec_components().spec_read_back(row@, 1)
                },
                Err(err) => (err matches Error::Decode(d) && (match spec_try_get(row@, 0) {
                    Err(e0) => d == e0,
                    Ok(_) => !T::spec_accepts(row@, 1) && d == T::spec_err(row@, 1),
                })),
            }),
    {
        let mut cursor = OffsetRow::new(row);
        let id = match cursor.try_get() {
            Ok(v) => v,
            Err(e) => {
                return Err(Error::Decode(e));
            },
        };
        match T::deserialize(&mut cursor) {
            Ok(inner) => Ok(Entity::new(id, inner)),
            Err(e) => Err(Error::Decode(e)),
        }
    }
}

/// Decodes the result of a single-entity lookup: the one fetched row, or a
/// not-found error when the lookup returned no row at all, kept distinct
/// from decode failures so callers can branch on "absent" versus "broken".
pub fn decode_single<T: Deserializeable>(rows: Vec<Vec<Cell>>) -> (r: Result<
    Entity<Value, T>,
    Error,
>)
    requires
        T::spec_width() < usize::MAX,
    ensures
        rows@.len() == 0 ==> (r matches Err(e) && e is NotFound),
        rows@.len() > 0 ==> (match r {
            Ok(ent) => {
                &&& spec_try_get(rows@[0]@, 0) == Ok::<Value, DecodeError>(ent.spec_id())
                &&& T::spec_accepts(rows@[0]@, 1)
                &&& ent.spec_components().spec_read_back(rows@[0]@, 1)
            },
            Err(err) => (err matches Error::Decode(d) && (match spec_try_get(rows@[0]@, 0) {
                Err(e0) => d == e0,
                Ok(_) => !T::spec_accepts(rows@[0]@, 1) && d == T::spec_err(rows@[0]@, 1),
            })),
        }),
{
    let mut rows = rows;
    if rows.len() == 0 {
        Err(Error::NotFound)
    } else {
        let first = rows.remove(0);
        List::<T, All>::decode_row(first)
    }
}

/// The idempotent DDL for one component's table: an `entity` primary key of
/// the given SQL type, followed by the component's declared columns.
pub open spec fn spec_create_sql(
    table: Seq<char>,
    entity_type: Seq<char>,
    columns: Seq<(Seq<char>, Seq<char>)>,
) -> Seq<char> {
    "create table if not exists "@ + table + "(entity "@ + entity_type + " primary key, "@
        + spec_join_comma(
        columns.map_values(|c: (Seq<char>, Seq<char>)| c.0 + " "@ + c.1 + " not null"@),
    ) + ")"@
}

/// Builds the `create table if not exists` statement that registers one
/// component's table, keyed by an `entity` column of the given SQL type.
pub fn create_component_table<T: Component>(entity_type: &str) -> (r: String)
    ensures
        r@ == spec_create_sql(T::spec_table(), entity_type@, T::spec_columns()),
{
    let ghost items = T::spec_columns().map_values(
        |c: (Seq<char>, Seq<char>)| c.0 + " "@ + c.1 + " not null"@,
    );
    let defs = T::columns();
    let mut fields: Vec<String> = Vec::new();
    let mut i: usize = 0;
    while i < defs.len()
        invariant
            i <= defs@.len(),
            defs@.map_values(|c: crate::component::ColumnDefinition| crate::component::spec_column_def_view(c))
                == T::spec_columns(),
            defs@.len() == T::spec_columns().len(),
            items == T::spec_columns().map_values(
                |c: (Seq<char>, Seq<char>)| c.0 + " "@ + c.1 + " not null"@,
            ),
            fields@.map_values(|c: String| c@) =~= items.subrange(0, i as int),
        decreases defs@.len() - i,
    {
        let mut item = defs[i].name.clone();
        item.append(" ");
        item.append(defs[i].type_info.as_str());
        item.append(" not null");
        fields.push(item);
        proof {
            broadcast use vstd::prelude::Seq::lemma_push_map_commute;

            assert(T::spec_columns()[i as int] == crate::component::spec_column_def_view(
                defs@[i as int],
            ));
            assert(item@ =~= items[i as int]);
            assert(fields@.map_values(|c: String| c@) =~= items.subrange(0, i + 1 as int));
        }
        i = i + 1;
    }
    proof {
        assert(items.subrange(0, items.len() as int) =~= items);
    }
    let mut out = String::from_str("create table if not exists ");
    let table = T::table();
    out.append(table.as_str());
    out.append("(entity ");
    out.append(entity_type);
    out.append(" primary key, ");
    crate::queries::append_join_comma(&fields, &mut out);
    out.append(")");
    proof {
        assert(out@ =~= spec_create_sql(T::spec_table(), entity_type@, T::spec_columns()));
    }
    out
}

/// Builds the transactional batch that inserts one value's components for
/// one entity: one statement per component, in declared order, each bound
/// with the entity key first.
pub fn insert_batch<T: Serializable>(entity: Value, components: &T, dialect: Dialect) -> (r:
    EntityPrefixedQuery)
    ensures
        r.entity == entity,
        spec_batch_view(r.queries@) == spec_prefixed(
            entity,
            components.spec_insert_statements(spec_placeholder_character(dialect)),
        ),
{
    let mut query = EntityPrefixedQuery::new(entity);
    components.insert(placeholder_character(dialect), &mut query);
    proof {
        assert(spec_batch_view(Seq::<crate::entity::Statement>::empty()) =~= Seq::<
            (Seq<char>, Seq<Value>),
        >::empty());
        assert(spec_batch_view(query.queries@) =~= spec_prefixed(
            entity,
            components.spec_insert_statements(spec_placeholder_character(dialect)),
        ));
    }
    query
}

/// Generates a fresh entity identifier and builds the batch that inserts
/// one value's components under it.
pub fn spawn_batch<T: Serializable>(components: &T, dialect: Dialect) -> (r: (
    Value,
    EntityPrefixedQuery,
))
    ensures
        r.1.entity == r.0,
        spec_batch_view(r.1.queries@) == spec_prefixed(
            r.0,
            components.spec_insert_statements(spec_placeholder_character(dialect)),
        ),
{
    let entity = Value::generate_new();
    let batch = insert_batch(entity.duplicate(), components, dialect);
    (entity, batch)
}

/// Builds the transactional batch that updates one value's components for
/// one entity.
pub fn update_batch<T: Serializable>(entity: Value, components: &T, dialect: Dialect) -> (r:
    EntityPrefixedQuery)
    ensures
        r.entity == entity,
        spec_batch_view(r.queries@) == spec_prefixed(
            entity,
            components.spec_update_statements(spec_placeholder_character(dialect)),
        ),
{
    let mut query = EntityPrefixedQuery::new(entity);
    components.update(placeholder_character(dialect), &mut query);
    proof {
        assert(spec_batch_view(Seq::<crate::entity::Statement>::empty()) =~= Seq::<
            (Seq<char>, Seq<Value>),
        >::empty());
        assert(spec_batch_view(query.queries@) =~= spec_prefixed(
            entity,
            components.spec_update_statements(spec_placeholder_character(dialect)),
        ));
    }
    query
}

/// Builds the transactional batch that deletes every component row of one
/// entity, one statement per component table, in declared order.
pub fn remove_batch<T: Removable>(entity: Value, dialect: Dialect) -> (r: EntityPrefixedQuery)
    ensures
        r.entity == entity,
        spec_batch_view(r.queries@) == spec_prefixed(
            entity,
            T::spec_delete_statements(spec_placeholder_character(dialect)),
        ),
{
    let mut query = EntityPrefixedQuery::new(entity);
    T::remove(placeholder_character(dialect), &mut query);
    proof {
        assert(spec_batch_view(Seq::<crate::entity::Statement>::empty()) =~= Seq::<
            (Seq<char>, Seq<Value>),
        >::empty());
        assert(spec_batch_view(query.queries@) =~= spec_prefixed(
            entity,
            T::spec_delete_statements(spec_placeholder_character(dialect)),
        ));
    }
    query
}

} // verus!
