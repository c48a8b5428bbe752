//! Schema metadata: the static description of a component's table and
//! ordered columns.

use vstd::prelude::*;

use crate::serialization::{Deserializeable, Serializable};

verus! {

/// One column of a component's table: its name and its SQL type text.
#[derive(Debug)]
pub struct ColumnDefinition {
    /// The column's name.
    pub name: String,
    /// The column's SQL type, as the DDL spells it.
    pub type_info: String,
}

impl ColumnDefinition {
    /// The column's name.
    pub fn name(&self) -> (r: &String)
        ensures
            r@ == self.name@,
    {
        &self.name
    }

    /// The column's SQL type text.
    pub fn type_info(&self) -> (r: &String)
        ensures
            r@ == self.type_info@,
    {
        &self.type_info
    }
}

/// The view of one column definition: (name, SQL type).
pub open spec fn spec_column_def_view(c: ColumnDefinition) -> (Seq<char>, Seq<char>) {
    (c.name@, c.type_info@)
}

/// Describes reading and writing one component-specific table: a plain data
/// value mapped one-to-one to a row, keyed by an `entity` column plus its
/// own declared columns.
pub trait Component: Serializable + Deserializeable {
    /// The component's table name.
    spec fn spec_table() -> Seq<char>;

    /// The component's declared columns, as (name, SQL type) pairs, in
    /// declaration order.
    spec fn spec_columns() -> Seq<(Seq<char>, Seq<char>)>;

    /// The component's table name.
    fn table() -> (r: String)
        ensures
            r@ == Self::spec_table(),
    ;

    /// The component's declared columns, in declaration order.
    fn columns() -> (r: Vec<ColumnDefinition>)
        ensures
            r@.map_values(|c: ColumnDefinition| spec_column_def_view(c)) == Self::spec_columns(),
    ;

    /// A component's query tree projects exactly its declared columns from
    /// its own table, in declaration order.
    proof fn law_projection()
        ensures
            Self::spec_proj() == Self::spec_columns().map_values(
                |c: (Seq<char>, Seq<char>)| (Self::spec_table(), c.0),
            ),
    ;
}

} // verus!
