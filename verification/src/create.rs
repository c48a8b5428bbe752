//! DDL for component tables: a table of an `entity` primary key plus the
//! component's declared columns.

use vstd::prelude::*;

use crate::select::ToSql;

verus! {

/// One column of a table definition: name, SQL type, and nullability.
#[derive(Debug)]
pub struct ColumnSpec {
    /// The column's name.
    pub name: String,
    /// The column's SQL type text.
    pub sql_type: String,
    /// Whether the column admits null.
    pub null: bool,
}

/// The rendering of one column definition.
pub open spec fn spec_column_spec_sql(name: Seq<char>, sql_type: Seq<char>, null: bool) -> Seq<
    char,
> {
    name + " "@ + sql_type + (if null {
        " null"@
    } else {
        " not null"@
    })
}

impl ToSql for ColumnSpec {
    open spec fn spec_sql(&self) -> Seq<char> {
        spec_column_spec_sql(self.name@, self.sql_type@, self.null)
    }

    fn sql(&self, fmt: &mut String) {
        fmt.append(self.name.as_str());
        fmt.append(" ");
        fmt.append(self.sql_type.as_str());
        if self.null {
            fmt.append(" null");
        } else {
            fmt.append(" not null");
        }
        proof {
            assert(fmt@ =~= old(fmt)@ + self.spec_sql());
        }
    }

    fn to_sql(&self) -> (r: String) {
        let mut out = String::new();
        self.sql(&mut out);
        proof {
            assert(out@ =~= self.spec_sql());
        }
        out
    }
}

/// A component table's definition: its name and declared columns; the
/// `entity` primary key column is implicit and always first.
#[derive(Debug)]
pub struct Create {
    /// The table created.
    pub table: String,
    /// The declared columns, after the entity key.
    pub columns: Vec<ColumnSpec>,
}

/// The column definitions after the entity key, each preceded by `,\n    `.
pub open spec fn spec_create_columns(columns: Seq<(Seq<char>, Seq<char>, bool)>) -> Seq<char>
    decreases columns.len(),
{
    if columns.len() == 0 {
        Seq::empty()
    } else {
        spec_create_columns(columns.drop_last()) + ",\n    "@ + spec_column_spec_sql(
            columns.last().0,
            columns.last().1,
            columns.last().2,
        )
    }
}

/// The views of a column list.
pub open spec fn spec_column_specs_view(columns: Seq<ColumnSpec>) -> Seq<(Seq<char>, Seq<char>, bool)> {
    columns.map_values(|c: ColumnSpec| (c.name@, c.sql_type@, c.null))
}

/// The rendering of a whole table definition.
pub open spec fn spec_create_sql(table: Seq<char>, columns: Seq<(Seq<char>, Seq<char>, bool)>) -> Seq<char> {
    "create table\n  "@ + table + " (\n    "@ + "entity text primary key"@ + spec_create_columns(
        columns,
    ) + "\n  )\n"@
}

impl ToSql for Create {
    open spec fn spec_sql(&self) -> Seq<char> {
        spec_create_sql(self.table@, spec_column_specs_view(self.columns@))
    }

    fn sql(&self, fmt: &mut String) {
        let ghost views = spec_column_specs_view(self.columns@);
        fmt.append("create table\n  ");
        fmt.append(self.table.as_str());
        fmt.append(" (\n    ");
        fmt.append("entity text primary key");
        let ghost head = old(fmt)@ + "create table\n  "@ + self.table@ + " (\n    "@
            + "entity text primary key"@;
        let mut i: usize = 0;
        while i < self.columns.len()
            invariant
                i <= views.len(),
                spec_column_specs_view(self.columns@) == views,
                self.columns@.len() == views.len(),
                fmt@ == head + spec_create_columns(views.subrange(0, i as int)),
            decreases views.len() - i,
        {
            fmt.append(",\n    ");
            self.columns[i].sql(fmt);
            proof {
                let pre = views.subrange(0, i as int);
                let cur = views.subrange(0, i + 1 as int);
                assert(cur.drop_last() =~= pre);
                assert(cur.last() == views[i as int]);
                assert(views[i as int] == (
                    self.columns@[i as int].name@,
                    self.columns@[i as int].sql_type@,
                    self.columns@[i as int].null,
                ));
                assert(fmt@ =~= head + spec_create_columns(cur));
            }
            i = i + 1;
        }
        proof {
            assert(views.subrange(0, views.len() as int) =~= views);
        }
        fmt.append("\n  )\n");
        proof {
            assert(fmt@ =~= old(fmt)@ + self.spec_sql());
        }
    }

    fn to_sql(&self) -> (r: String) {
        let mut out = String::new();
        self.sql(&mut out);
        proof {
            assert(out@ =~= self.spec_sql());
        }
        out
    }
}

} // verus!
