use erm::cte::{
    serialize, CommonTableExpression, Exclude, Extract, Include, Merge, Optional,
};

fn extract(table: &str, columns: &[&str]) -> CommonTableExpression {
    CommonTableExpression::Extract(Extract {
        table: table.to_string(),
        columns: columns.iter().map(|c| c.to_string()).collect(),
    })
}

#[test]
fn test_build() {
    let positions = extract("positions", &["x", "y"]);
    let names = extract("named", &["first", "last"]);

    let merge = CommonTableExpression::Merge(Merge { tables: vec![positions, names] });

    let exclude = CommonTableExpression::Exclude(Exclude {
        base: Box::new(merge),
        excluded: Box::new(extract("address", &[])),
    });

    let parents = extract("parents", &[]);

    let filtered = CommonTableExpression::Include(Include {
        base: Box::new(exclude),
        required: Box::new(parents),
    });

    println!("{}", serialize(&filtered));
    assert!(!serialize(&filtered).is_empty());
}

#[test]
fn extract_serializes_to_expected_text() {
    let tree = extract("positions", &["x", "y"]);
    let expected = "with\n  __cte_positions as (\n    select\n      entity as __cte_positions__entity,\n      x as __cte_positions__x,\n      y as __cte_positions__y\n    from\n      positions\n  )\nselect * from __cte_positions\n";
    assert_eq!(serialize(&tree), expected);
}

#[test]
fn merge_serializes_to_expected_text() {
    let tree = CommonTableExpression::Merge(Merge {
        tables: vec![extract("positions", &["x"]), extract("named", &["first"])],
    });
    let expected = "with\n  __cte_positions as (\n    select\n      entity as __cte_positions__entity,\n      x as __cte_positions__x\n    from\n      positions\n  ),\n  __cte_named as (\n    select\n      entity as __cte_named__entity,\n      first as __cte_named__first\n    from\n      named\n  ),\n  __cte_positions_named as (\n    select\n      __cte_positions__entity as __cte_positions_named__entity,\n      __cte_positions__x,\n      __cte_named__first\n    from\n      __cte_positions\n    inner join\n      __cte_named\n    on\n      __cte_positions__entity = __cte_named__entity\n  )\nselect * from __cte_positions_named\n";
    assert_eq!(serialize(&tree), expected);
}

#[test]
fn optional_child_uses_left_join() {
    let tree = CommonTableExpression::Merge(Merge {
        tables: vec![
            extract("orders", &["number"]),
            CommonTableExpression::Optional(Optional {
                inner: Box::new(extract("payments", &["account"])),
            }),
        ],
    });
    let text = serialize(&tree);
    assert!(text.contains("left join"));
    assert!(!text.contains("inner join"));
}

#[test]
fn exclude_checks_join_key_for_null() {
    let tree = CommonTableExpression::Exclude(Exclude {
        base: Box::new(extract("orders", &["number"])),
        excluded: Box::new(extract("payments", &[])),
    });
    let text = serialize(&tree);
    // The anti-join's null check names the same column as the join's
    // right-hand key.
    assert!(text.contains("on\n      __cte_orders__entity = __cte_payments__entity"));
    assert!(text.contains("where __cte_payments__entity is null"));
}

#[test]
fn shared_subtree_is_emitted_once() {
    let tree = CommonTableExpression::Include(Include {
        base: Box::new(CommonTableExpression::Merge(Merge {
            tables: vec![extract("positions", &["x"]), extract("named", &["first"])],
        })),
        required: Box::new(extract("positions", &["x"])),
    });
    let text = serialize(&tree);
    assert_eq!(text.matches("__cte_positions as (").count(), 1);
}

#[test]
fn identical_trees_serialize_to_identical_bytes() {
    let build = || {
        CommonTableExpression::Include(Include {
            base: Box::new(CommonTableExpression::Merge(Merge {
                tables: vec![
                    extract("positions", &["x", "y"]),
                    extract("named", &["first", "last"]),
                ],
            })),
            required: Box::new(extract("parents", &[])),
        })
    };
    let first = serialize(&build());
    let second = serialize(&build());
    assert_eq!(first, second);
    assert_eq!(first.as_bytes(), second.as_bytes());
}
