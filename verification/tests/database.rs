use erm::backend::{create_component_table, insert_batch, remove_batch, List};
use erm::component::Component;
use erm::components::{Age, Name, OrderId, Payment, ShippedTo};
use erm::condition::All;
use erm::dialect::Dialect;
use erm::entity::EntityPrefixedQuery;
use erm::reflect::ReflectedColumn;
use erm::row::Entity;
use erm::value::Value;

use sqlx::sqlite::{SqliteConnectOptions, SqlitePoolOptions, SqliteRow};
use sqlx::{Column as _, Row as _, SqlitePool, TypeInfo as _, ValueRef as _};

fn run<F: std::future::Future>(future: F) -> F::Output {
    tokio::runtime::Builder::new_current_thread()
        .enable_all()
        .build()
        .unwrap()
        .block_on(future)
}

async fn pool() -> SqlitePool {
    let options = SqliteConnectOptions::new().in_memory(true);
    SqlitePoolOptions::new()
        .min_connections(1)
        .max_connections(1)
        .idle_timeout(None)
        .max_lifetime(None)
        .connect_with(options)
        .await
        .unwrap()
}

async fn register<T: Component>(db: &SqlitePool) {
    sqlx::query(&create_component_table::<T>("integer"))
        .execute(db)
        .await
        .unwrap();
}

fn bind_value<'q>(
    query: sqlx::query::Query<'q, sqlx::Sqlite, sqlx::sqlite::SqliteArguments<'q>>,
    value: &Value,
) -> sqlx::query::Query<'q, sqlx::Sqlite, sqlx::sqlite::SqliteArguments<'q>> {
    match value {
        Value::Int(i) => query.bind(*i),
        Value::Text(s) => query.bind(s.clone()),
        Value::Bool(b) => query.bind(*b),
    }
}

async fn execute_batch(db: &SqlitePool, batch: &EntityPrefixedQuery) -> Result<(), sqlx::Error> {
    let mut tx = db.begin().await?;
    for statement in &batch.queries {
        let mut query = sqlx::query(&statement.sql);
        for value in &statement.params {
            query = bind_value(query, value);
        }
        query.execute(&mut *tx).await?;
    }
    tx.commit().await
}

fn cells(row: &SqliteRow) -> Vec<Option<Value>> {
    let mut out = Vec::new();
    for i in 0..row.columns().len() {
        let raw = row.try_get_raw(i).unwrap();
        if raw.is_null() {
            out.push(None);
            continue;
        }
        let column_type = raw.type_info().name().to_string();
        drop(raw);
        match column_type.as_str() {
            "TEXT" => out.push(Some(Value::Text(row.try_get::<String, _>(i).unwrap()))),
            "INTEGER" => out.push(Some(Value::Int(row.try_get::<i64, _>(i).unwrap()))),
            "BOOLEAN" => out.push(Some(Value::Bool(row.try_get::<bool, _>(i).unwrap()))),
            other => panic!("unexpected sqlite column type {other}"),
        }
    }
    out
}

async fn fetch_cells(db: &SqlitePool, sql: &str, params: &[Value]) -> Vec<Vec<Option<Value>>> {
    let mut query = sqlx::query(sql);
    for value in params {
        query = bind_value(query, value);
    }
    let rows = query.fetch_all(db).await.unwrap();
    rows.iter().map(cells).collect()
}

#[test]
fn round_trip_insert_then_get() {
    run(async {
        let db = pool().await;
        register::<Name>(&db).await;
        register::<Age>(&db).await;

        let stored = (Name("Jimothy".to_string()), Age(10));
        let batch = insert_batch(Value::Int(1), &stored, Dialect::Sqlite);
        execute_batch(&db, &batch).await.unwrap();

        let query = List::<(Name, Age), All>::new();
        let sql = query.sql_get(Dialect::Sqlite);
        let rows = fetch_cells(&db, &sql, &[Value::Int(1)]).await;
        assert_eq!(rows.len(), 1);
        let entity: Entity<Value, (Name, Age)> =
            List::<(Name, Age), All>::decode_row(rows[0].clone()).unwrap();
        assert_eq!(*entity.id(), Value::Int(1));
        assert_eq!(*entity.components(), stored);
    });
}

#[test]
fn two_people_listed_then_removed_and_fetched() {
    run(async {
        let db = pool().await;
        register::<Name>(&db).await;
        register::<Age>(&db).await;

        let jimothy = (Name("Jimothy".to_string()), Age(10));
        let andrea = (Name("Andrea".to_string()), Age(32));
        execute_batch(&db, &insert_batch(Value::Int(1), &jimothy, Dialect::Sqlite))
            .await
            .unwrap();
        execute_batch(&db, &insert_batch(Value::Int(2), &andrea, Dialect::Sqlite))
            .await
            .unwrap();

        let query = List::<(Name, Age), All>::new();
        let rows = fetch_cells(&db, &query.sql(Dialect::Sqlite), &query.arguments()).await;
        assert_eq!(rows.len(), 2);
        let first = List::<(Name, Age), All>::decode_row(rows[0].clone()).unwrap();
        let second = List::<(Name, Age), All>::decode_row(rows[1].clone()).unwrap();
        assert_eq!(*first.id(), Value::Int(1));
        assert_eq!(*first.components(), jimothy);
        assert_eq!(*second.id(), Value::Int(2));
        assert_eq!(*second.components(), andrea);

        let removal = remove_batch::<(Name, Age)>(Value::Int(1), Dialect::Sqlite);
        execute_batch(&db, &removal).await.unwrap();

        let names = List::<Name, All>::new();
        let rows = fetch_cells(&db, &names.sql(Dialect::Sqlite), &names.arguments()).await;
        assert_eq!(rows.len(), 1);
        let only = List::<Name, All>::decode_row(rows[0].clone()).unwrap();
        assert_eq!(*only.components(), Name("Andrea".to_string()));

        let ages = List::<Age, All>::new();
        let rows = fetch_cells(&db, &ages.sql_get(Dialect::Sqlite), &[Value::Int(2)]).await;
        assert_eq!(rows.len(), 1);
        let age = List::<Age, All>::decode_row(rows[0].clone()).unwrap();
        assert_eq!(*age.components(), Age(32));
    });
}

#[test]
fn filter_on_age_returns_only_adults() {
    run(async {
        let db = pool().await;
        register::<Name>(&db).await;
        register::<Age>(&db).await;

        execute_batch(
            &db,
            &insert_batch(
                Value::Int(1),
                &(Name("Jimothy".to_string()), Age(10)),
                Dialect::Sqlite,
            ),
        )
        .await
        .unwrap();
        execute_batch(
            &db,
            &insert_batch(
                Value::Int(2),
                &(Name("Andrea".to_string()), Age(32)),
                Dialect::Sqlite,
            ),
        )
        .await
        .unwrap();

        let adults = ReflectedColumn::new("__cte_ages__age").greater_than_or_equals(Value::Int(18));
        let query = List::<(Name, Age), All>::new().filter(adults);
        let rows = fetch_cells(&db, &query.sql(Dialect::Sqlite), &query.arguments()).await;
        let ids: Vec<Value> = rows
            .into_iter()
            .map(|row| {
                List::<(Name, Age), All>::decode_row(row).unwrap().into_id()
            })
            .collect();
        assert_eq!(ids, vec![Value::Int(2)]);
    });
}

async fn order_fixture(db: &SqlitePool) {
    register::<OrderId>(db).await;
    register::<Payment>(db).await;
    register::<ShippedTo>(db).await;

    execute_batch(
        db,
        &insert_batch(Value::Int(1), &OrderId("#1234".to_string()), Dialect::Sqlite),
    )
    .await
    .unwrap();
    execute_batch(
        db,
        &insert_batch(
            Value::Int(2),
            &(
                OrderId("#999".to_string()),
                Payment { account_id: "1234 56789123".to_string() },
            ),
            Dialect::Sqlite,
        ),
    )
    .await
    .unwrap();
    execute_batch(
        db,
        &insert_batch(
            Value::Int(3),
            &(
                OrderId("#10000020".to_string()),
                Payment { account_id: "9876 12345678".to_string() },
                ShippedTo { address: "123 West Westington Street".to_string() },
            ),
            Dialect::Sqlite,
        ),
    )
    .await
    .unwrap();
}

#[test]
fn orders_filtered_by_marker_presence_and_absence() {
    run(async {
        let db = pool().await;
        order_fixture(&db).await;

        let shipped = List::<OrderId, All>::new().with::<ShippedTo>();
        let rows = fetch_cells(&db, &shipped.sql(Dialect::Sqlite), &shipped.arguments()).await;
        let ids: Vec<Value> = rows
            .into_iter()
            .map(|row| List::<OrderId, All>::decode_row(row).unwrap().into_id())
            .collect();
        assert_eq!(ids, vec![Value::Int(3)]);

        let unpaid = List::<OrderId, All>::new().without::<Payment>();
        let rows = fetch_cells(&db, &unpaid.sql(Dialect::Sqlite), &unpaid.arguments()).await;
        let ids: Vec<Value> = rows
            .into_iter()
            .map(|row| List::<OrderId, All>::decode_row(row).unwrap().into_id())
            .collect();
        assert_eq!(ids, vec![Value::Int(1)]);
    });
}

#[test]
fn with_and_without_partition_the_entity_set() {
    run(async {
        let db = pool().await;
        order_fixture(&db).await;

        let all_orders = List::<OrderId, All>::new();
        let total = fetch_cells(&db, &all_orders.sql(Dialect::Sqlite), &[]).await.len();

        let paid = List::<OrderId, All>::new().with::<Payment>();
        let with_count = fetch_cells(&db, &paid.sql(Dialect::Sqlite), &[]).await.len();

        let unpaid = List::<OrderId, All>::new().without::<Payment>();
        let without_count = fetch_cells(&db, &unpaid.sql(Dialect::Sqlite), &[]).await.len();

        assert_eq!(with_count, 2);
        assert_eq!(without_count, 1);
        assert_eq!(with_count + without_count, total);
    });
}

#[test]
fn left_joined_optional_decodes_absent_and_present() {
    run(async {
        let db = pool().await;
        order_fixture(&db).await;

        let query = List::<(OrderId, Option<ShippedTo>), All>::new();
        let rows = fetch_cells(&db, &query.sql(Dialect::Sqlite), &query.arguments()).await;
        assert_eq!(rows.len(), 3);
        let mut shipped = 0;
        let mut absent = 0;
        for row in rows {
            let entity = List::<(OrderId, Option<ShippedTo>), All>::decode_row(row).unwrap();
            match &entity.components().1 {
                Some(target) => {
                    assert_eq!(*entity.id(), Value::Int(3));
                    assert_eq!(target.address, "123 West Westington Street");
                    shipped += 1;
                },
                None => {
                    absent += 1;
                },
            }
        }
        assert_eq!(shipped, 1);
        assert_eq!(absent, 2);
    });
}

#[test]
fn failing_batch_statement_rolls_back_every_statement() {
    run(async {
        let db = pool().await;
        register::<Name>(&db).await;
        register::<Age>(&db).await;
        register::<OrderId>(&db).await;

        // An age row already exists for the entity, so the second of the
        // three insert statements below violates the primary key.
        execute_batch(&db, &insert_batch(Value::Int(7), &Age(1), Dialect::Sqlite))
            .await
            .unwrap();

        let batch = insert_batch(
            Value::Int(7),
            &(
                Name("Ghost".to_string()),
                Age(2),
                OrderId("#777".to_string()),
            ),
            Dialect::Sqlite,
        );
        assert_eq!(batch.queries.len(), 3);
        assert!(execute_batch(&db, &batch).await.is_err());

        let names = fetch_cells(
            &db,
            "select count(entity) from names where entity = ?1",
            &[Value::Int(7)],
        )
        .await;
        assert_eq!(names[0][0], Some(Value::Int(0)));
        let orders = fetch_cells(
            &db,
            "select count(entity) from order_ids where entity = ?1",
            &[Value::Int(7)],
        )
        .await;
        assert_eq!(orders[0][0], Some(Value::Int(0)));
        let ages = fetch_cells(
            &db,
            "select age from ages where entity = ?1",
            &[Value::Int(7)],
        )
        .await;
        assert_eq!(ages, vec![vec![Some(Value::Int(1))]]);
    });
}

#[test]
fn update_changes_the_stored_component() {
    run(async {
        let db = pool().await;
        register::<Age>(&db).await;

        execute_batch(&db, &insert_batch(Value::Int(5), &Age(20), Dialect::Sqlite))
            .await
            .unwrap();
        execute_batch(
            &db,
            &erm::backend::update_batch(Value::Int(5), &Age(21), Dialect::Sqlite),
        )
        .await
        .unwrap();

        let ages = List::<Age, All>::new();
        let rows = fetch_cells(&db, &ages.sql_get(Dialect::Sqlite), &[Value::Int(5)]).await;
        let entity = erm::backend::decode_single::<Age>(rows).unwrap();
        assert_eq!(*entity.components(), Age(21));
    });
}

#[test]
fn get_of_missing_entity_is_not_found() {
    run(async {
        let db = pool().await;
        register::<Age>(&db).await;

        let ages = List::<Age, All>::new();
        let rows = fetch_cells(&db, &ages.sql_get(Dialect::Sqlite), &[Value::Int(99)]).await;
        let result = erm::backend::decode_single::<Age>(rows);
        assert!(matches!(result, Err(erm::error::Error::NotFound)));
    });
}
