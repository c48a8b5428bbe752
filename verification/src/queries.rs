//! The per-component write statements: insert, update and delete text with
//! numbered placeholders, entity key first.

use vstd::prelude::*;

use crate::dialect::append_decimal;
use crate::dialect::spec_decimal;
use crate::push_char;

verus! {

/// The numbered placeholder token for the `i`-th parameter (1-based):
/// the dialect's placeholder character followed by the decimal position.
pub open spec fn spec_numbered_placeholder(character: char, i: nat) -> Seq<char> {
    seq![character] + spec_decimal(i)
}

/// The given items joined with `", "`.
pub open spec fn spec_join_comma(items: Seq<Seq<char>>) -> Seq<char>
    decreases items.len(),
{
    if items.len() == 0 {
        Seq::empty()
    } else if items.len() == 1 {
        items[0]
    } else {
        spec_join_comma(items.drop_last()) + ", "@ + items.last()
    }
}

/// Appends `items` joined with `", "` to `out`.
pub fn append_join_comma(items: &Vec<String>, out: &mut String)
    ensures
        final(out)@ == old(out)@ + spec_join_comma(items@.map_values(|c: String| c@)),
{
    let ghost views = items@.map_values(|c: String| c@);
    let mut i: usize = 0;
    while i < items.len()
        invariant
            i <= views.len(),
            items@.map_values(|c: String| c@) == views,
            items@.len() == views.len(),
            out@ == old(out)@ + spec_join_comma(views.subrange(0, i as int)),
        decreases views.len() - i,
    {
        if i != 0 {
            out.append(", ");
        }
        out.append(items[i].as_str());
        proof {
            let pre = views.subrange(0, i as int);
            let cur = views.subrange(0, i + 1 as int);
            assert(cur.drop_last() =~= pre);
            assert(cur.last() == views[i as int]);
            assert(out@ =~= old(out)@ + spec_join_comma(cur));
        }
        i = i + 1;
    }
    proof {
        assert(views.subrange(0, views.len() as int) =~= views);
    }
}

/// The placeholder tokens for parameters `1` through `count`, in order.
pub open spec fn spec_placeholders(character: char, count: nat) -> Seq<Seq<char>> {
    Seq::new(count, |i: int| spec_numbered_placeholder(character, (i + 1) as nat))
}

/// Generates the numbered placeholder tokens for parameters `1` through
/// `count`.
pub fn placeholders(character: char, count: usize) -> (r: Vec<String>)
    ensures
        r@.map_values(|c: String| c@) == spec_placeholders(character, count as nat),
{
    let mut out: Vec<String> = Vec::new();
    let mut i: usize = 0;
    while i < count
        invariant
            i <= count,
            out@.map_values(|c: String| c@) =~= spec_placeholders(character, i as nat),
        decreases count - i,
    {
        let mut token = String::new();
        push_char(&mut token, character);
        append_decimal(i + 1, &mut token);
        proof {
            assert(token@ =~= spec_numbered_placeholder(character, (i + 1) as nat));
        }
        out.push(token);
        proof {
            broadcast use vstd::prelude::Seq::lemma_push_map_commute;

            assert(out@.map_values(|c: String| c@) =~= spec_placeholders(
                character,
                (i + 1) as nat,
            ));
        }
        i = i + 1;
    }
    out
}

/// The insert statement text for one component table: entity key first,
/// then the declared columns, with numbered placeholders in the same order.
pub open spec fn spec_insert_sql(table: Seq<char>, character: char, columns: Seq<Seq<char>>) -> Seq<
    char,
> {
    "insert into "@ + table + "(entity, "@ + spec_join_comma(columns) + ") values("@
        + spec_join_comma(spec_placeholders(character, (columns.len() + 1) as nat)) + ");"@
}

/// Builds the insert statement for one component table. The first
/// placeholder is the entity key; the remaining ones follow the declared
/// column order, so binding the entity first and then the fields matches
/// the text exactly.
pub fn insert_component(table: &str, character: char, columns: &Vec<String>) -> (r: String)
    requires
        columns@.len() + 1 <= usize::MAX,
    ensures
        r@ == spec_insert_sql(table@, character, columns@.map_values(|c: String| c@)),
{
    let mut out = String::from_str("insert into ");
    out.append(table);
    out.append("(entity, ");
    append_join_comma(columns, &mut out);
    out.append(") values(");
    let tokens = placeholders(character, columns.len() + 1);
    append_join_comma(&tokens, &mut out);
    out.append(");");
    proof {
        assert(out@ =~= spec_insert_sql(table@, character, columns@.map_values(|c: String| c@)));
    }
    out
}

/// The update statement text for one component table: each declared column
/// set to its numbered placeholder, keyed by the entity placeholder `1`.
pub open spec fn spec_update_sql(table: Seq<char>, character: char, columns: Seq<Seq<char>>) -> Seq<
    char,
> {
    "update "@ + table + " set "@ + spec_join_comma(
        Seq::new(
            columns.len(),
            |i: int| columns[i] + " = "@ + spec_numbered_placeholder(character, (i + 2) as nat),
        ),
    ) + " where entity = "@  + spec_numbered_placeholder(character, 1)
}

/// Builds the update statement for one component table. The entity key is
/// parameter `1`; each declared column is set from the following
/// parameters in declared order.
pub fn update_component(table: &str, character: char, columns: &Vec<String>) -> (r: String)
    requires
        columns@.len() + 2 <= usize::MAX,
    ensures
        r@ == spec_update_sql(table@, character, columns@.map_values(|c: String| c@)),
{
    let ghost views = columns@.map_values(|c: String| c@);
    let ghost items = Seq::new(
        views.len(),
        |i: int| views[i] + " = "@ + spec_numbered_placeholder(character, (i + 2) as nat),
    );
    let mut fields: Vec<String> = Vec::new();
    let mut i: usize = 0;
    while i < columns.len()
        invariant
            i <= views.len(),
            columns@.map_values(|c: String| c@) == views,
            columns@.len() == views.len(),
            views.len() + 2 <= usize::MAX,
            items == Seq::new(
                views.len(),
                |j: int| views[j] + " = "@ + spec_numbered_placeholder(character, (j + 2) as nat),
            ),
            fields@.map_values(|c: String| c@) =~= items.subrange(0, i as int),
        decreases views.len() - i,
    {
        let mut item = columns[i].clone();
        item.append(" = ");
        push_char(&mut item, character);
        append_decimal(i + 2, &mut item);
        fields.push(item);
        proof {
            broadcast use vstd::prelude::Seq::lemma_push_map_commute;

            assert(item@ =~= items[i as int]);
            assert(fields@.map_values(|c: String| c@) =~= items.subrange(0, i + 1 as int));
        }
        i = i + 1;
    }
    proof {
        assert(items.subrange(0, items.len() as int) =~= items);
    }
    let mut out = String::from_str("update ");
    out.append(table);
    out.append(" set ");
    append_join_comma(&fields, &mut out);
    out.append(" where entity = ");
    push_char(&mut out, character);
    append_decimal(1, &mut out);
    proof {
        assert(out@ =~= spec_update_sql(table@, character, views));
    }
    out
}

/// The delete statement text for one component table, keyed by the entity
/// placeholder `1`.
pub open spec fn spec_delete_sql(table: Seq<char>, character: char) -> Seq<char> {
    "delete from "@ + table + " where entity = "@ + spec_numbered_placeholder(character, 1)
}

/// Builds the delete statement for one component table.
pub fn delete_component(table: &str, character: char) -> (r: String)
    ensures
        r@ == spec_delete_sql(table@, character),
{
    let mut out = String::from_str("delete from ");
    out.append(table);
    out.append(" where entity = ");
    push_char(&mut out, character);
    append_decimal(1, &mut out);
    proof {
        assert(out@ =~= spec_delete_sql(table@, character));
    }
    out
}

} // verus!
