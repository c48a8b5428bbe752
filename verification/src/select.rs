//! Plain select statements over explicit column lists: a lighter-weight
//! text builder than the query tree, used for direct table reads.

use vstd::prelude::*;

use crate::dialect::spec_decimal;
use crate::push_char;

verus! {

/// A value with a deterministic SQL rendering.
pub trait ToSql: Sized {
    /// The exact text this value renders to.
    spec fn spec_sql(&self) -> Seq<char>;

    /// Appends the rendering to `fmt`.
    fn sql(&self, fmt: &mut String)
        ensures
            final(fmt)@ == old(fmt)@ + self.spec_sql(),
    ;

    /// The rendering as a fresh string.
    fn to_sql(&self) -> (r: String)
        ensures
            r@ == self.spec_sql(),
    ;
}

/// A table-qualified column reference.
#[derive(Debug)]
pub struct Column {
    /// The table the column belongs to.
    pub table: String,
    /// The column's name.
    pub name: String,
}

/// The rendering of one qualified column: `table.name`.
pub open spec fn spec_column_sql(table: Seq<char>, name: Seq<char>) -> Seq<char> {
    table + "."@ + name
}

impl ToSql for Column {
    open spec fn spec_sql(&self) -> Seq<char> {
        spec_column_sql(self.table@, self.name@)
    }

    fn sql(&self, fmt: &mut String) {
        fmt.append(self.table.as_str());
        fmt.append(".");
        fmt.append(self.name.as_str());
        proof {
            assert(fmt@ =~= old(fmt)@ + self.spec_sql());
        }
    }

    fn to_sql(&self) -> (r: String) {
        let mut out = String::new();
        self.sql(&mut out);
        proof {
            assert(out@ =~= self.spec_sql());
        }
        out
    }
}

/// The select items of a column list: each column indented two spaces, the
/// items joined with `,\n`.
pub open spec fn spec_select_items(columns: Seq<(Seq<char>, Seq<char>)>) -> Seq<char>
    decreases columns.len(),
{
    if columns.len() == 0 {
        Seq::empty()
    } else if columns.len() == 1 {
        "  "@ + spec_column_sql(columns[0].0, columns[0].1)
    } else {
        spec_select_items(columns.drop_last()) + ",\n  "@ + spec_column_sql(
            columns.last().0,
            columns.last().1,
        )
    }
}

/// The views of a column list.
pub open spec fn spec_columns_view(columns: Seq<Column>) -> Seq<(Seq<char>, Seq<char>)> {
    columns.map_values(|c: Column| (c.table@, c.name@))
}

/// Appends the select items for `columns` to `fmt`.
fn append_select_items(columns: &Vec<Column>, fmt: &mut String)
    ensures
        final(fmt)@ == old(fmt)@ + spec_select_items(spec_columns_view(columns@)),
{
    let ghost views = spec_columns_view(columns@);
    let mut i: usize = 0;
    while i < columns.len()
        invariant
            i <= views.len(),
            spec_columns_view(columns@) == views,
            columns@.len() == views.len(),
            fmt@ == old(fmt)@ + spec_select_items(views.subrange(0, i as int)),
        decreases views.len() - i,
    {
        if i != 0 {
            fmt.append(",\n  ");
        } else {
            fmt.append("  ");
        }
        columns[i].sql(fmt);
        proof {
            let pre = views.subrange(0, i as int);
            let cur = views.subrange(0, i + 1 as int);
            assert(cur.drop_last() =~= pre);
            assert(cur.last() == views[i as int]);
            assert(views[i as int] == (columns@[i as int].table@, columns@[i as int].name@));
            assert(fmt@ =~= old(fmt)@ + spec_select_items(cur));
        }
        i = i + 1;
    }
    proof {
        assert(views.subrange(0, views.len() as int) =~= views);
    }
}

/// A plain select of named columns from one table.
#[derive(Debug)]
pub struct Select {
    /// The table selected from.
    pub table: String,
    /// The projected columns, in order.
    pub columns: Vec<Column>,
}

/// The rendering of a plain select.
pub open spec fn spec_select_sql(table: Seq<char>, columns: Seq<(Seq<char>, Seq<char>)>) -> Seq<
    char,
> {
    "select\n"@ + spec_select_items(columns) + "\nfrom\n  "@ + table + "\n"@
}

impl Select {
    /// Narrows the select to rows where `column` equals a bound parameter.
    pub fn filter(self, column: Column, placeholder: char) -> (r: Filter<Select>)
        ensures
            r.inner == self,
            r.column == column,
            r.placeholder == placeholder,
    {
        Filter { inner: self, column, placeholder }
    }
}

impl ToSql for Select {
    open spec fn spec_sql(&self) -> Seq<char> {
        spec_select_sql(self.table@, spec_columns_view(self.columns@))
    }

    fn sql(&self, fmt: &mut String) {
        fmt.append("select\n");
        append_select_items(&self.columns, fmt);
        fmt.append("\nfrom\n  ");
        fmt.append(self.table.as_str());
        fmt.append("\n");
        proof {
            assert(fmt@ =~= old(fmt)@ + self.spec_sql());
        }
    }

    fn to_sql(&self) -> (r: String) {
        let mut out = String::new();
        self.sql(&mut out);
        proof {
            assert(out@ =~= self.spec_sql());
        }
        out
    }
}

/// One inner join of a compound select: the joined table's select and the
/// pair of columns equated by the join.
#[derive(Debug)]
pub struct Join {
    /// The joined table and its projected columns.
    pub table: Select,
    /// The left and right columns of the join's `on` equality.
    pub columns: (Column, Column),
}

/// The join clauses of a compound select.
pub open spec fn spec_join_clauses(joins: Seq<(Seq<char>, (Seq<char>, Seq<char>), (Seq<char>, Seq<char>))>) -> Seq<char>
    decreases joins.len(),
{
    if joins.len() == 0 {
        Seq::empty()
    } else {
        spec_join_clauses(joins.drop_last()) + "inner join "@ + joins.last().0 + "\n  on "@
            + spec_column_sql(joins.last().1.0, joins.last().1.1) + " = "@ + spec_column_sql(
            joins.last().2.0,
            joins.last().2.1,
        ) + "\n"@
    }
}

/// The view of one join: its table and the two `on` columns.
pub open spec fn spec_join_view(j: Join) -> (
    Seq<char>,
    (Seq<char>, Seq<char>),
    (Seq<char>, Seq<char>),
) {
    (j.table.table@, (j.columns.0.table@, j.columns.0.name@), (j.columns.1.table@, j.columns.1.name@))
}

/// A select over one source table inner-joined with further tables.
#[derive(Debug)]
pub struct Compound {
    /// The base select.
    pub source: Select,
    /// The joined tables, in join order.
    pub joins: Vec<Join>,
}

/// The projected columns of a compound select: the source's columns, then
/// each join's columns in join order.
pub open spec fn spec_compound_columns(c: Compound) -> Seq<(Seq<char>, Seq<char>)> {
    spec_columns_view(c.source.columns@) + spec_compound_join_columns(c.joins@)
}

/// The projected columns contributed by the joins, in join order.
pub open spec fn spec_compound_join_columns(joins: Seq<Join>) -> Seq<(Seq<char>, Seq<char>)>
    decreases joins.len(),
{
    if joins.len() == 0 {
        Seq::empty()
    } else {
        spec_compound_join_columns(joins.drop_last()) + spec_columns_view(
            joins.last().table.columns@,
        )
    }
}

impl Compound {
    /// Narrows the compound select to rows where `column` equals a bound
    /// parameter.
    pub fn filter(self, column: Column, placeholder: char) -> (r: Filter<Compound>)
        ensures
            r.inner == self,
            r.column == column,
            r.placeholder == placeholder,
    {
        Filter { inner: self, column, placeholder }
    }
}

impl ToSql for Compound {
    open spec fn spec_sql(&self) -> Seq<char> {
        "select\n"@ + spec_select_items(spec_compound_columns(*self)) + "\nfrom\n  "@
            + self.source.table@ + "\n"@ + spec_join_clauses(
            self.joins@.map_values(|j: Join| spec_join_view(j)),
        )
    }

    fn sql(&self, fmt: &mut String) {
        fmt.append("select\n");
        let ghost cols = spec_compound_columns(*self);
        let mut all: Vec<Column> = Vec::new();
        let mut i: usize = 0;
        while i < self.source.columns.len()
            invariant
                i <= self.source.columns@.len(),
                spec_columns_view(all@) =~= spec_columns_view(
                    self.source.columns@.subrange(0, i as int),
                ),
            decreases self.source.columns@.len() - i,
        {
            all.push(
                Column {
                    table: self.source.columns[i].table.clone(),
                    name: self.source.columns[i].name.clone(),
                },
            );
            proof {
                broadcast use vstd::prelude::Seq::lemma_push_map_commute;

                assert(spec_columns_view(all@) =~= spec_columns_view(
                    self.source.columns@.subrange(0, i + 1 as int),
                ));
            }
            i = i + 1;
        }
        proof {
            assert(self.source.columns@.subrange(0, self.source.columns@.len() as int)
                =~= self.source.columns@);
        }
        let mut j: usize = 0;
        while j < self.joins.len()
            invariant
                j <= self.joins@.len(),
                spec_columns_view(all@) =~= spec_columns_view(self.source.columns@)
                    + spec_compound_join_columns(self.joins@.subrange(0, j as int)),
            decreases self.joins@.len() - j,
        {
            let mut k: usize = 0;
            while k < self.joins[j].table.columns.len()
                invariant
                    j < self.joins@.len(),
                    k <= self.joins@[j as int].table.columns@.len(),
                    spec_columns_view(all@) =~= spec_columns_view(self.source.columns@)
                        + spec_compound_join_columns(self.joins@.subrange(0, j as int))
                        + spec_columns_view(
                        self.joins@[j as int].table.columns@.subrange(0, k as int),
                    ),
                decreases self.joins@[j as int].table.columns@.len() - k,
            {
                all.push(
                    Column {
                        table: self.joins[j].table.columns[k].table.clone(),
                        name: self.joins[j].table.columns[k].name.clone(),
                    },
                );
                proof {
                    broadcast use vstd::prelude::Seq::lemma_push_map_commute;

                    assert(spec_columns_view(all@) =~= spec_columns_view(self.source.columns@)
                        + spec_compound_join_columns(self.joins@.subrange(0, j as int))
                        + spec_columns_view(
                        self.joins@[j as int].table.columns@.subrange(0, k + 1 as int),
                    ));
                }
                k = k + 1;
            }
            proof {
                let cur = self.joins@.subrange(0, j + 1 as int);
                assert(cur.drop_last() =~= self.joins@.subrange(0, j as int));
                assert(cur.last() == self.joins@[j as int]);
                assert(self.joins@[j as int].table.columns@.subrange(
                    0,
                    self.joins@[j as int].table.columns@.len() as int,
                ) =~= self.joins@[j as int].table.columns@);
                assert(spec_columns_view(all@) =~= spec_columns_view(self.source.columns@)
                    + spec_compound_join_columns(cur));
            }
            j = j + 1;
        }
        proof {
            assert(self.joins@.subrange(0, self.joins@.len() as int) =~= self.joins@);
            assert(spec_columns_view(all@) =~= cols);
        }
        append_select_items(&all, fmt);
        fmt.append("\nfrom\n  ");
        fmt.append(self.source.table.as_str());
        fmt.append("\n");
        let ghost jviews = self.joins@.map_values(|jn: Join| spec_join_view(jn));
        let mut m: usize = 0;
        while m < self.joins.len()
            invariant
                m <= self.joins@.len(),
                jviews == self.joins@.map_values(|jn: Join| spec_join_view(jn)),
                jviews.len() == self.joins@.len(),
                fmt@ == old(fmt)@ + "select\n"@ + spec_select_items(cols) + "\nfrom\n  "@
                    + self.source.table@ + "\n"@ + spec_join_clauses(jviews.subrange(0, m as int)),
                cols == spec_compound_columns(*self),
            decreases self.joins@.len() - m,
        {
            fmt.append("inner join ");
            fmt.append(self.joins[m].table.table.as_str());
            fmt.append("\n  on ");
            self.joins[m].columns.0.sql(fmt);
            fmt.append(" = ");
            self.joins[m].columns.1.sql(fmt);
            fmt.append("\n");
            proof {
                let pre = jviews.subrange(0, m as int);
                let cur = jviews.subrange(0, m + 1 as int);
                assert(cur.drop_last() =~= pre);
                assert(cur.last() == jviews[m as int]);
                assert(jviews[m as int] == spec_join_view(self.joins@[m as int]));
                assert(fmt@ =~= old(fmt)@ + "select\n"@ + spec_select_items(cols) + "\nfrom\n  "@
                    + self.source.table@ + "\n"@ + spec_join_clauses(cur));
            }
            m = m + 1;
        }
        proof {
            assert(jviews.subrange(0, jviews.len() as int) =~= jviews);
            assert(fmt@ =~= old(fmt)@ + self.spec_sql());
        }
    }

    fn to_sql(&self) -> (r: String) {
        let mut out = String::new();
        self.sql(&mut out);
        proof {
            assert(out@ =~= self.spec_sql());
        }
        out
    }
}

/// A select narrowed to rows where one column equals a bound parameter.
#[derive(Debug)]
pub struct Filter<T> {
    /// The select being narrowed.
    pub inner: T,
    /// The column compared against the bound parameter.
    pub column: Column,
    /// The dialect's placeholder character.
    pub placeholder: char,
}

impl<T: ToSql> ToSql for Filter<T> {
    open spec fn spec_sql(&self) -> Seq<char> {
        self.inner.spec_sql() + "where\n  "@ + spec_column_sql(self.column.table@, self.column.name@)
            + " == "@ + seq![self.placeholder] + spec_decimal(1) + "\n"@
    }

    fn sql(&self, fmt: &mut String) {
        self.inner.sql(fmt);
        fmt.append("where\n  ");
        self.column.sql(fmt);
        fmt.append(" == ");
        push_char(fmt, self.placeholder);
        crate::dialect::append_decimal(1, fmt);
        fmt.append("\n");
        proof {
            assert(fmt@ =~= old(fmt)@ + self.spec_sql());
        }
    }

    fn to_sql(&self) -> (r: String) {
        let mut out = String::new();
        self.sql(&mut out);
        proof {
            assert(out@ =~= self.spec_sql());
        }
        out
    }
}

} // verus!
