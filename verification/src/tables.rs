//! Removal: which delete statements a component or archetype contributes to
//! a batch.

use vstd::prelude::*;

use crate::entity::{spec_batch_view, EntityPrefixedQuery};
use crate::serialization::spec_prefixed;
use crate::value::Value;

verus! {

/// A type whose rows can be deleted, one statement per constituent
/// component, in declared order.
pub trait Removable: Sized {
    /// The delete statements, one per component in declared order; each
    /// statement's only parameter is the entity key the batch binds.
    spec fn spec_delete_statements(character: char) -> Seq<(Seq<char>, Seq<Value>)>;

    /// Appends this type's delete statements to the batch, each keyed by
    /// the batch's shared entity.
    fn remove(character: char, query: &mut EntityPrefixedQuery)
        ensures
            final(query).entity == old(query).entity,
            spec_batch_view(final(query).queries@) == spec_batch_view(old(query).queries@)
                + spec_prefixed(old(query).entity, Self::spec_delete_statements(character)),
    ;
}

/// Removing an optional component removes the underlying component's rows.
impl<T: Removable> Removable for Option<T> {
    open spec fn spec_delete_statements(character: char) -> Seq<(Seq<char>, Seq<Value>)> {
        T::spec_delete_statements(character)
    }

    fn remove(character: char, query: &mut EntityPrefixedQuery) {
        T::remove(character, query);
    }
}

impl<A: Removable, B: Removable> Removable for (A, B) {
    open spec fn spec_delete_statements(character: char) -> Seq<(Seq<char>, Seq<Value>)> {
        A::spec_delete_statements(character) + B::spec_delete_statements(character)
    }

    fn remove(character: char, query: &mut EntityPrefixedQuery) {
        A::remove(character, query);
        B::remove(character, query);
        proof {
            assert(spec_prefixed(
                old(query).entity,
                Self::spec_delete_statements(character),
            ) =~= spec_prefixed(old(query).entity, A::spec_delete_statements(character))
                + spec_prefixed(old(query).entity, B::spec_delete_statements(character)));
            assert(spec_batch_view(query.queries@) =~= spec_batch_view(old(query).queries@)
                + spec_prefixed(old(query).entity, Self::spec_delete_statements(character)));
        }
    }
}

impl<A: Removable, B: Removable, C: Removable> Removable for (A, B, C) {
    open spec fn spec_delete_statements(character: char) -> Seq<(Seq<char>, Seq<Value>)> {
        A::spec_delete_statements(character) + B::spec_delete_statements(character)
            + C::spec_delete_statements(character)
    }

    fn remove(character: char, query: &mut EntityPrefixedQuery) {
        A::remove(character, query);
        B::remove(character, query);
        C::remove(character, query);
        proof {
            assert(spec_prefixed(
                old(query).entity,
                Self::spec_delete_statements(character),
            ) =~= spec_prefixed(old(query).entity, A::spec_delete_statements(character))
                + spec_prefixed(old(query).entity, B::spec_delete_statements(character))
                + spec_prefixed(old(query).entity, C::spec_delete_statements(character)));
            assert(spec_batch_view(query.queries@) =~= spec_batch_view(old(query).queries@)
                + spec_prefixed(old(query).entity, Self::spec_delete_statements(character)));
        }
    }
}

} // verus!
