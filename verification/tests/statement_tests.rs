use crud_table::cond::Cond;
use crud_table::schema::{Field, FieldData, Record};
use crud_table::value::{bind_steps, Val};

fn user(name: &str, age: i64, created: i64, id: i64) -> Record {
    Record::new(
        "User",
        vec![
            Field::new("id", FieldData::I64(id)),
            Field::new("name", FieldData::Text(name.to_string())),
            Field::new("age", FieldData::I64(age)),
            Field::new("created", FieldData::I64(created)),
            Field::new("updated", FieldData::I64(0)),
        ],
    )
    .unwrap()
}

#[test]
fn get_all_selects_every_column() {
    let rec = user("Ann", 30, 0, 1);
    let st = rec.get_all_stmt();
    assert_eq!(st.sql, "SELECT id,name,age,created,updated FROM users");
    assert!(st.args.is_empty());
}

#[test]
fn create_includes_nonempty_text_and_all_integers() {
    let rec = user("Ann", 0, 0, 1);
    let now = 1_700_000_000_000_000i64;
    let st = rec.create_stmt(now);
    assert_eq!(
        st.sql,
        "INSERT INTO users (name,age,created,updated) VALUES ($1,$2,$3,$4)"
    );
    assert_eq!(
        st.args,
        vec![
            Val::Text("Ann".to_string()),
            Val::I64(0),
            Val::I64(now),
            Val::I64(now),
        ]
    );
}

#[test]
fn create_omits_empty_text_fields() {
    let rec = user("", 0, 0, 1);
    let now = 42i64;
    let st = rec.create_stmt(now);
    assert_eq!(st.sql, "INSERT INTO users (age,created,updated) VALUES ($1,$2,$3)");
    assert_eq!(st.args, vec![Val::I64(0), Val::I64(now), Val::I64(now)]);
}

#[test]
fn create_skips_created_when_already_set() {
    let rec = user("Ann", 7, 999, 1);
    let st = rec.create_stmt(5);
    assert_eq!(st.sql, "INSERT INTO users (name,age,updated) VALUES ($1,$2,$3)");
    assert_eq!(
        st.args,
        vec![Val::Text("Ann".to_string()), Val::I64(7), Val::I64(5)]
    );
}

#[test]
fn create_never_writes_opaque_fields() {
    let rec = Record::new(
        "Gadget",
        vec![
            Field::new("id", FieldData::I64(1)),
            Field::new("blob", FieldData::Other),
            Field::new("label", FieldData::Text("x".to_string())),
        ],
    )
    .unwrap();
    let st = rec.create_stmt(9);
    assert_eq!(st.sql, "INSERT INTO gadgets (label) VALUES ($1)");
    assert_eq!(st.args, vec![Val::Text("x".to_string())]);
}

#[test]
fn create_twice_at_different_instants_binds_different_timestamps() {
    let rec = user("Ann", 0, 0, 1);
    let first = rec.create_stmt(1_000);
    let second = rec.create_stmt(2_000);
    assert_eq!(first.sql, second.sql);
    assert_ne!(first.args, second.args);
    assert_eq!(first.args[2], Val::I64(1_000));
    assert_eq!(second.args[2], Val::I64(2_000));
}

#[test]
fn create_bind_count_matches_placeholder_count() {
    let rec = user("Ann", 0, 0, 1);
    let st = rec.create_stmt(3);
    let placeholders = st.sql.matches('$').count();
    assert_eq!(placeholders, st.args.len());
    assert_eq!(bind_steps(&st.args).len(), st.args.len());
}

#[test]
fn create_or_skip_appends_conflict_clause() {
    let rec = user("Ann", 0, 0, 1);
    let plain = rec.create_stmt(8);
    let skip = rec.create_or_skip_by_stmt(8, "name");
    assert_eq!(
        skip.sql,
        format!("{} ON CONFLICT (name) DO NOTHING", plain.sql)
    );
    assert_eq!(skip.args, plain.args);
}

#[test]
fn cond_statements_share_clause_and_argument_order() {
    let rec = user("Ann", 30, 0, 1);
    let mut cond = Cond::new();
    cond.push("name =", Val::Text("Ann".to_string()));
    cond.push("age >", Val::I64(18));
    assert_eq!(cond.build(), "name = $1 AND age > $2");
    assert!(cond.has_args());

    let select = rec.select_by_cond_stmt(&cond);
    let count = rec.count_by_cond_stmt(&cond);
    assert_eq!(
        select.sql,
        "SELECT id,name,age,created,updated FROM users WHERE name = $1 AND age > $2"
    );
    assert_eq!(
        count.sql,
        "SELECT COUNT(*) AS total FROM users WHERE name = $1 AND age > $2"
    );
    assert_eq!(select.args, count.args);
    assert_eq!(select.args, vec![Val::Text("Ann".to_string()), Val::I64(18)]);
}

#[test]
fn empty_cond_yields_no_where_keyword() {
    let rec = user("Ann", 30, 0, 1);
    let cond = Cond::new();
    assert_eq!(cond.build(), "");
    assert!(!cond.has_args());
    let select = rec.select_by_cond_stmt(&cond);
    let count = rec.count_by_cond_stmt(&cond);
    assert_eq!(select.sql, "SELECT id,name,age,created,updated FROM users ");
    assert_eq!(count.sql, "SELECT COUNT(*) AS total FROM users ");
    assert!(select.args.is_empty());
    assert!(count.args.is_empty());
}

#[test]
fn cond_placeholders_reach_two_digits() {
    let mut cond = Cond::new();
    let mut i = 0i64;
    while i < 10 {
        cond.push("n =", Val::I64(i));
        i += 1;
    }
    let clause = cond.build();
    assert!(clause.ends_with("n = $10"));
    assert_eq!(clause.matches('$').count(), 10);
    assert_eq!(cond.args.len(), 10);
}

#[test]
fn query_fragment_passes_through_with_its_arguments() {
    let rec = user("Ann", 30, 0, 1);
    let st = rec.select_by_query_stmt("age > $1 ORDER BY id", &vec![Val::I64(21)]);
    assert_eq!(
        st.sql,
        "SELECT id,name,age,created,updated FROM users WHERE age > $1 ORDER BY id"
    );
    assert_eq!(st.args, vec![Val::I64(21)]);

    let empty = rec.select_by_query_stmt("", &Vec::new());
    assert_eq!(empty.sql, "SELECT id,name,age,created,updated FROM users ");
    assert!(empty.args.is_empty());
}

#[test]
fn per_field_fetch_pair_differs_by_row_limit() {
    let rec = user("Ann", 30, 0, 1);
    let one = rec.get_by_field_stmt("name", Val::Text("Ann".to_string()));
    let all = rec.get_all_by_field_stmt("name", Val::Text("Ann".to_string()));
    assert_eq!(
        all.sql,
        "SELECT id,name,age,created,updated FROM users WHERE name = $1"
    );
    assert_eq!(one.sql, format!("{} LIMIT 1", all.sql));
    assert_eq!(one.args, all.args);
    assert_eq!(one.args, vec![Val::Text("Ann".to_string())]);
}

#[test]
fn update_by_field_pair_differs_only_by_row_limit_and_binds_new_then_old() {
    let rec = user("Ann", 30, 0, 1);
    let one = rec.update_by_field_stmt(
        "name",
        Val::Text("Bob".to_string()),
        Val::Text("Ann".to_string()),
    );
    let all = rec.update_all_by_field_stmt(
        "name",
        Val::Text("Bob".to_string()),
        Val::Text("Ann".to_string()),
    );
    assert_eq!(all.sql, "UPDATE users SET name = $1 WHERE name = $2");
    assert_eq!(one.sql, format!("{} LIMIT 1", all.sql));
    let expected = vec![Val::Text("Bob".to_string()), Val::Text("Ann".to_string())];
    assert_eq!(one.args, expected);
    assert_eq!(all.args, expected);
}

#[test]
fn delete_by_field_pair_differs_by_row_limit() {
    let rec = user("Ann", 30, 0, 1);
    let one = rec.delete_by_field_stmt("age", Val::I64(30));
    let all = rec.delete_all_by_field_stmt("age", Val::I64(30));
    assert_eq!(all.sql, "DELETE FROM users WHERE age = $1");
    assert_eq!(one.sql, format!("{} LIMIT 1", all.sql));
    assert_eq!(one.args, vec![Val::I64(30)]);
    assert_eq!(all.args, vec![Val::I64(30)]);
}

#[test]
fn modify_by_field_targets_own_row() {
    let rec = user("Ann", 30, 0, 7);
    let st = rec.modify_by_field_stmt("age", Val::I64(31));
    assert_eq!(st.sql, "UPDATE users SET age = $1 WHERE id = 7");
    assert_eq!(st.args, vec![Val::I64(31)]);
}

#[test]
fn update_sets_explicit_pairs_then_timestamp() {
    let rec = user("Ann", 30, 0, 7);
    let st = rec.update_stmt(
        &vec![
            ("name".to_string(), Val::Text("Bob".to_string())),
            ("age".to_string(), Val::I64(31)),
        ],
        555,
    );
    assert_eq!(
        st.sql,
        "UPDATE users SET name = $1,age = $2,updated = $3 WHERE id = 7"
    );
    assert_eq!(
        st.args,
        vec![Val::Text("Bob".to_string()), Val::I64(31), Val::I64(555)]
    );
}

#[test]
fn update_without_updated_column_appends_no_timestamp() {
    let rec = Record::new(
        "Item",
        vec![
            Field::new("id", FieldData::I64(1)),
            Field::new("name", FieldData::Text("x".to_string())),
        ],
    )
    .unwrap();
    let st = rec.update_stmt(&vec![("name".to_string(), Val::Text("y".to_string()))], 9);
    assert_eq!(st.sql, "UPDATE items SET name = $1 WHERE id = 1");
    assert_eq!(st.args, vec![Val::Text("y".to_string())]);
}

#[test]
fn save_writes_included_fields_and_timestamp() {
    let rec = user("Ann", 30, 123, 7);
    let st = rec.save_stmt(777);
    assert_eq!(
        st.sql,
        "UPDATE users SET name = $1,age = $2,updated = $3 WHERE id = 7"
    );
    assert_eq!(
        st.args,
        vec![Val::Text("Ann".to_string()), Val::I64(30), Val::I64(777)]
    );
}

#[test]
fn save_omits_empty_text_entirely() {
    let rec = user("", 30, 123, 7);
    let st = rec.save_stmt(777);
    assert_eq!(st.sql, "UPDATE users SET age = $1,updated = $2 WHERE id = 7");
    assert_eq!(st.args, vec![Val::I64(30), Val::I64(777)]);
    assert!(!st.sql.contains("name"));
}

#[test]
fn update_with_no_pairs_still_refreshes_timestamp() {
    let rec = user("Ann", 30, 0, 7);
    let st = rec.update_stmt(&Vec::new(), 99);
    assert_eq!(st.sql, "UPDATE users SET updated = $1 WHERE id = 7");
    assert_eq!(st.args, vec![Val::I64(99)]);
}

#[test]
fn create_placeholders_reach_two_digits() {
    let mut fields = vec![Field::new("id", FieldData::I64(1))];
    let names = [
        "c1", "c2", "c3", "c4", "c5", "c6", "c7", "c8", "c9", "c10",
    ];
    for n in names {
        fields.push(Field::new(n, FieldData::I64(0)));
    }
    let rec = Record::new("Wide", fields).unwrap();
    let st = rec.create_stmt(0);
    assert_eq!(
        st.sql,
        "INSERT INTO wides (c1,c2,c3,c4,c5,c6,c7,c8,c9,c10) VALUES ($1,$2,$3,$4,$5,$6,$7,$8,$9,$10)"
    );
    assert_eq!(st.args.len(), 10);
}

#[test]
fn delete_targets_own_row() {
    let rec = user("Ann", 30, 0, 7);
    let st = rec.delete_stmt();
    assert_eq!(st.sql, "DELETE FROM users WHERE id = 7");
    assert!(st.args.is_empty());
}

#[test]
fn negative_identity_renders_with_sign() {
    let rec = user("Ann", 30, 0, -5);
    let st = rec.delete_stmt();
    assert_eq!(st.sql, "DELETE FROM users WHERE id = -5");
}
