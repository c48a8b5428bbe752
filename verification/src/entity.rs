//! The transactional batch builder: an ordered list of parameterized
//! statements sharing one entity key, to be executed atomically inside a
//! single transaction.

use vstd::prelude::*;

use crate::value::Value;

verus! {

/// One parameterized statement: its SQL text and its bound parameters in
/// bind order.
#[derive(Debug)]
pub struct Statement {
    /// The statement text.
    pub sql: String,
    /// The bound parameters, in the order the text's placeholders expect.
    pub params: Vec<Value>,
}

/// The view of one statement: its text and parameters as sequences.
pub open spec fn spec_statement_view(s: Statement) -> (Seq<char>, Seq<Value>) {
    (s.sql@, s.params@)
}

/// The view of a whole batch, in statement order.
pub open spec fn spec_batch_view(batch: Seq<Statement>) -> Seq<(Seq<char>, Seq<Value>)> {
    batch.map_values(|s: Statement| spec_statement_view(s))
}

/// An ordered batch of statements that all write one entity: every
/// statement's first parameter is the shared entity key.
///
/// The executor runs the statements in list order inside one transaction:
/// either every statement applies or none does.
pub struct EntityPrefixedQuery {
    /// The accumulated statements, in execution order.
    pub queries: Vec<Statement>,
    /// The entity key shared by every statement.
    pub entity: Value,
}

impl EntityPrefixedQuery {
    /// An empty batch for one entity.
    pub fn new(entity: Value) -> (r: EntityPrefixedQuery)
        ensures
            r.queries@.len() == 0,
            r.entity == entity,
    {
        EntityPrefixedQuery { queries: Vec::new(), entity }
    }

    /// Appends one statement, binding the shared entity key as its first
    /// parameter, before the given ones.
    pub fn query(&mut self, sql: String, params: Vec<Value>)
        ensures
            final(self).entity == old(self).entity,
            final(self).queries@.len() == old(self).queries@.len() + 1,
            spec_batch_view(final(self).queries@) == spec_batch_view(old(self).queries@).push(
                (sql@, seq![old(self).entity] + params@),
            ),
    {
        let mut bound: Vec<Value> = Vec::new();
        bound.push(self.entity.duplicate());
        let mut rest = params;
        bound.append(&mut rest);
        proof {
            assert(bound@ =~= seq![self.entity] + params@);
        }
        let statement = Statement { sql, params: bound };
        self.queries.push(statement);
        proof {
            broadcast use vstd::prelude::Seq::lemma_push_map_commute;

            assert(spec_batch_view(self.queries@) =~= spec_batch_view(old(self).queries@).push(
                (sql@, seq![old(self).entity] + params@),
            ));
        }
    }
}

} // verus!
