//! Entity relational mapping core: maps plain component records, keyed by an
//! opaque entity identifier, onto relational tables, and composes several
//! components into joined views without hand-written SQL.
//!
//! The crate computes SQL text and parameter lists as plain values; executing
//! the statements against a database pool is left to the surrounding
//! (unverified) application code.

pub mod archetype;
pub mod backend;
pub mod component;
pub mod components;
pub mod condition;
pub mod create;
pub mod cte;
pub mod dialect;
pub mod entity;
pub mod error;
pub mod indent;
pub mod queries;
pub mod reflect;
pub mod row;
pub mod select;
pub mod semantics;
pub mod serialization;
pub mod tables;
pub mod value;

use vstd::prelude::*;

verus! {

/// Relies on `String::push`: appends exactly the one given character.
#[verifier::external_body]
pub(crate) fn push_char(out: &mut String, c: char)
    ensures
        final(out)@ == old(out)@ + seq![c],
{
    out.push(c);
}

} // verus!
