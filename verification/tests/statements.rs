use erm::backend::{create_component_table, insert_batch, remove_batch, update_batch, List};
use erm::components::{Age, Name, OrderId, ShippedTo};
use erm::condition::{All, Condition, Equality, GreaterThanOrEqual};
use erm::create::{ColumnSpec, Create};
use erm::cte::{CommonTableExpression, Extract};
use erm::dialect::Dialect;
use erm::error::{DecodeError, Error};
use erm::indent::IndentedWriter;
use erm::queries::{delete_component, insert_component, placeholders, update_component};
use erm::reflect::ReflectedColumn;
use erm::row::OffsetRow;
use erm::select::{Column, Compound, Join, Select, ToSql};
use erm::serialization::Deserializeable;
use erm::value::Value;

#[test]
fn placeholders_are_numbered_from_one() {
    let tokens = placeholders('?', 3);
    assert_eq!(tokens, vec!["?1".to_string(), "?2".to_string(), "?3".to_string()]);
    let tokens = placeholders('$', 2);
    assert_eq!(tokens, vec!["$1".to_string(), "$2".to_string()]);
}

#[test]
fn insert_component_text() {
    let columns = vec!["name".to_string()];
    assert_eq!(
        insert_component("names", '?', &columns),
        "insert into names(entity, name) values(?1, ?2);"
    );
    let columns = vec!["x".to_string(), "y".to_string()];
    assert_eq!(
        insert_component("positions", '$', &columns),
        "insert into positions(entity, x, y) values($1, $2, $3);"
    );
}

#[test]
fn update_component_text() {
    let columns = vec!["age".to_string()];
    assert_eq!(update_component("ages", '$', &columns), "update ages set age = $2 where entity = $1");
    let columns = vec!["x".to_string(), "y".to_string()];
    assert_eq!(
        update_component("positions", '?', &columns),
        "update positions set x = ?2, y = ?3 where entity = ?1"
    );
}

#[test]
fn delete_component_text() {
    assert_eq!(delete_component("names", '?'), "delete from names where entity = ?1");
}

#[test]
fn create_table_is_idempotent_text() {
    assert_eq!(
        create_component_table::<Name>("integer"),
        "create table if not exists names(entity integer primary key, name text not null)"
    );
    assert_eq!(
        create_component_table::<Age>("text"),
        "create table if not exists ages(entity text primary key, age integer not null)"
    );
}

#[test]
fn condition_leaf_text_per_dialect() {
    let mut out = String::new();
    let mut counter: usize = 0;
    Equality::new("age", Value::Int(5)).serialize(Dialect::Sqlite, &mut counter, &mut out);
    assert_eq!(out, "age == ?");
    assert_eq!(counter, 1);

    let mut out = String::new();
    let mut counter: usize = 0;
    Equality::new("age", Value::Int(5)).serialize(Dialect::Postgres, &mut counter, &mut out);
    assert_eq!(out, "age == $1");
}

#[test]
fn condition_tree_numbers_placeholders_in_bind_order() {
    let cond = GreaterThanOrEqual::new("age", Value::Int(18))
        .and(Equality::new("name", Value::Text("Andrea".to_string())))
        .or(Equality::new("age", Value::Int(99)));
    let mut text = String::new();
    let mut counter: usize = 0;
    cond.serialize(Dialect::Postgres, &mut counter, &mut text);
    assert_eq!(text, "((age >= $1 and name == $2) or age == $3)");
    assert_eq!(counter, 3);

    let mut params: Vec<Value> = Vec::new();
    cond.bind(&mut params);
    assert_eq!(
        params,
        vec![Value::Int(18), Value::Text("Andrea".to_string()), Value::Int(99)]
    );
}

#[test]
fn condition_all_binds_nothing() {
    let mut text = String::new();
    let mut counter: usize = 0;
    All.serialize(Dialect::Sqlite, &mut counter, &mut text);
    assert_eq!(text, "1 = 1");
    assert_eq!(counter, 0);
    let mut params: Vec<Value> = Vec::new();
    All.bind(&mut params);
    assert!(params.is_empty());
}

#[test]
fn reflected_column_builds_comparisons() {
    let column = ReflectedColumn::new("age");
    let cond = column.greater_than_or_equals(Value::Int(18));
    let mut text = String::new();
    let mut counter: usize = 0;
    cond.serialize(Dialect::Sqlite, &mut counter, &mut text);
    assert_eq!(text, "age >= ?");
}

#[test]
fn cursor_reads_advance_even_on_failure() {
    let mut row = OffsetRow::new(vec![
        Some(Value::Int(7)),
        None,
        Some(Value::Text("x".to_string())),
    ]);
    assert_eq!(row.try_get_text(), Err(DecodeError::TypeMismatch));
    assert_eq!(row.offset, 1);
    assert!(row.is_null());
    assert_eq!(row.try_get(), Err(DecodeError::UnexpectedNull));
    assert_eq!(row.try_get_text(), Ok("x".to_string()));
    assert_eq!(row.try_get_int(), Err(DecodeError::OutOfBounds));
    assert_eq!(row.offset, 4);
}

#[test]
fn cursor_skip_keeps_contents() {
    let mut row = OffsetRow::new(vec![Some(Value::Int(1)), Some(Value::Int(2))]);
    row.skip(1);
    assert_eq!(row.try_get_int(), Ok(2));
}

#[test]
fn decode_row_yields_entity_and_components() {
    let cells = vec![
        Some(Value::Int(1)),
        Some(Value::Text("Jimothy".to_string())),
        Some(Value::Int(10)),
    ];
    let entity = List::<(Name, Age), All>::decode_row(cells).unwrap();
    assert_eq!(*entity.id(), Value::Int(1));
    assert_eq!(*entity.components(), (Name("Jimothy".to_string()), Age(10)));
}

#[test]
fn decode_row_surfaces_unexpected_null() {
    let cells = vec![Some(Value::Int(1)), None];
    let result = List::<Name, All>::decode_row(cells);
    assert!(matches!(result, Err(Error::Decode(DecodeError::UnexpectedNull))));
}

#[test]
fn optional_segment_of_nulls_decodes_to_absent() {
    let cells = vec![Some(Value::Int(1)), Some(Value::Text("#1".to_string())), None];
    let entity = List::<(OrderId, Option<ShippedTo>), All>::decode_row(cells).unwrap();
    assert_eq!(
        *entity.components(),
        (OrderId("#1".to_string()), None::<ShippedTo>)
    );

    let cells = vec![
        Some(Value::Int(3)),
        Some(Value::Text("#3".to_string())),
        Some(Value::Text("123 West Street".to_string())),
    ];
    let entity = List::<(OrderId, Option<ShippedTo>), All>::decode_row(cells).unwrap();
    assert_eq!(
        *entity.components(),
        (
            OrderId("#3".to_string()),
            Some(ShippedTo { address: "123 West Street".to_string() })
        )
    );
}

#[test]
fn batch_statements_bind_entity_first_in_component_order() {
    let value = (Name("Jimothy".to_string()), Age(10));
    let batch = insert_batch(Value::Int(1), &value, Dialect::Sqlite);
    assert_eq!(batch.queries.len(), 2);
    assert_eq!(batch.queries[0].sql, "insert into names(entity, name) values(?1, ?2);");
    assert_eq!(
        batch.queries[0].params,
        vec![Value::Int(1), Value::Text("Jimothy".to_string())]
    );
    assert_eq!(batch.queries[1].sql, "insert into ages(entity, age) values(?1, ?2);");
    assert_eq!(batch.queries[1].params, vec![Value::Int(1), Value::Int(10)]);

    let batch = update_batch(Value::Int(1), &Age(11), Dialect::Sqlite);
    assert_eq!(batch.queries[0].sql, "update ages set age = ?2 where entity = ?1");
    assert_eq!(batch.queries[0].params, vec![Value::Int(1), Value::Int(11)]);

    let batch = remove_batch::<(Name, Age)>(Value::Int(1), Dialect::Sqlite);
    assert_eq!(batch.queries.len(), 2);
    assert_eq!(batch.queries[0].sql, "delete from names where entity = ?1");
    assert_eq!(batch.queries[1].sql, "delete from ages where entity = ?1");
    assert_eq!(batch.queries[1].params, vec![Value::Int(1)]);
}

#[test]
fn list_sql_appends_condition() {
    let query = List::<Name, All>::new();
    let sql = query.sql(Dialect::Sqlite);
    assert!(sql.ends_with("select * from __cte_names\n where 1 = 1"));
    assert!(query.arguments().is_empty());
}

#[test]
fn list_sql_get_filters_on_entity_column() {
    let query = List::<(Name, Age), All>::new();
    let sql = query.sql_get(Dialect::Sqlite);
    assert!(sql.ends_with("select * from __cte_names_ages\nwhere __cte_names_ages__entity = ?"));
}

#[test]
fn component_ctes_project_declared_columns() {
    let tree = <(Name, Age) as Deserializeable>::cte();
    let text = erm::cte::serialize(&tree);
    assert!(text.contains("__cte_names__name"));
    assert!(text.contains("__cte_ages__age"));
    assert!(matches!(tree, CommonTableExpression::Merge(_)));
}

#[test]
fn indented_writer_indents_each_line() {
    let mut writer = IndentedWriter::new(String::new(), "  ");
    writer.write_str("select\nx\n");
    writer.write_str("from t");
    assert_eq!(writer.finish(), "  select\n  x\n  from t");
}

#[test]
fn select_renders_columns_and_table() {
    let select = Select {
        table: "positions".to_string(),
        columns: vec![
            Column { table: "positions".to_string(), name: "x".to_string() },
            Column { table: "positions".to_string(), name: "y".to_string() },
        ],
    };
    assert_eq!(select.to_sql(), "select\n  positions.x,\n  positions.y\nfrom\n  positions\n");
}

#[test]
fn compound_renders_joins() {
    let compound = Compound {
        source: Select {
            table: "positions".to_string(),
            columns: vec![Column { table: "positions".to_string(), name: "x".to_string() }],
        },
        joins: vec![Join {
            table: Select {
                table: "named".to_string(),
                columns: vec![Column { table: "named".to_string(), name: "first".to_string() }],
            },
            columns: (
                Column { table: "positions".to_string(), name: "entity".to_string() },
                Column { table: "named".to_string(), name: "entity".to_string() },
            ),
        }],
    };
    let sql = compound.to_sql();
    assert_eq!(
        sql,
        "select\n  positions.x,\n  named.first\nfrom\n  positions\ninner join named\n  on positions.entity = named.entity\n"
    );
    let filtered = compound.filter(
        Column { table: "positions".to_string(), name: "entity".to_string() },
        '?',
    );
    assert!(filtered.to_sql().ends_with("where\n  positions.entity == ?1\n"));
}

#[test]
fn create_statement_renders_columns() {
    let create = Create {
        table: "positions".to_string(),
        columns: vec![
            ColumnSpec { name: "x".to_string(), sql_type: "integer".to_string(), null: false },
            ColumnSpec { name: "y".to_string(), sql_type: "integer".to_string(), null: true },
        ],
    };
    assert_eq!(
        create.to_sql(),
        "create table\n  positions (\n    entity text primary key,\n    x integer not null,\n    y integer null\n  )\n"
    );
}

#[test]
fn entity_accessors_return_both_halves() {
    let entity = erm::row::Entity::new(Value::Int(4), Name("n".to_string()));
    assert_eq!(*entity.id(), Value::Int(4));
    assert_eq!(*entity.components(), Name("n".to_string()));
    assert_eq!(entity.into_components(), Name("n".to_string()));
    let entity = erm::row::Entity::new(Value::Int(4), Name("n".to_string()));
    assert_eq!(entity.into_id(), Value::Int(4));
}

#[test]
fn spawned_entities_get_distinct_identifiers() {
    let (first, batch) = erm::backend::spawn_batch(&Name("a".to_string()), Dialect::Sqlite);
    assert_eq!(batch.entity, first);
    assert_eq!(batch.queries[0].params[0], first);
    let (second, _) = erm::backend::spawn_batch(&Name("b".to_string()), Dialect::Sqlite);
    assert_ne!(first, second);
}
