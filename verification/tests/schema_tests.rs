use crud_table::error::SchemaError;
use crud_table::schema::{classify, Field, FieldData, FieldKind, Record};

fn user_fields(name: &str, age: i64, created: i64, id: i64) -> Vec<Field> {
    vec![
        Field::new("id", FieldData::I64(id)),
        Field::new("name", FieldData::Text(name.to_string())),
        Field::new("age", FieldData::I64(age)),
        Field::new("created", FieldData::I64(created)),
        Field::new("updated", FieldData::I64(0)),
    ]
}

#[test]
fn classify_reserved_names_take_precedence() {
    assert_eq!(classify(&Field::new("id", FieldData::I64(1))), FieldKind::Identity);
    assert_eq!(classify(&Field::new("created", FieldData::I64(0))), FieldKind::CreatedAt);
    assert_eq!(classify(&Field::new("updated", FieldData::I64(0))), FieldKind::UpdatedAt);
    assert_eq!(
        classify(&Field::new("name", FieldData::Text(String::new()))),
        FieldKind::Text
    );
    assert_eq!(classify(&Field::new("age", FieldData::I32(0))), FieldKind::Integer);
    assert_eq!(classify(&Field::new("extra", FieldData::Other)), FieldKind::Other);
}

#[test]
fn table_name_is_snake_cased_and_pluralized() {
    let rec = Record::new("User", user_fields("Ann", 0, 0, 1)).unwrap();
    assert_eq!(rec.get_table_name(), "users");

    let rec = Record::new(
        "BlogPost",
        vec![Field::new("id", FieldData::I64(1))],
    )
    .unwrap();
    assert_eq!(rec.get_table_name(), "blog_posts");
}

#[test]
fn get_fields_enumerates_every_field_once_in_order() {
    let rec = Record::new("User", user_fields("Ann", 30, 0, 1)).unwrap();
    assert_eq!(rec.get_fields(), "id,name,age,created,updated");
}

#[test]
fn get_fields_lists_opaque_fields_too() {
    let rec = Record::new(
        "Gadget",
        vec![
            Field::new("id", FieldData::I64(1)),
            Field::new("blob", FieldData::Other),
            Field::new("label", FieldData::Text("x".to_string())),
        ],
    )
    .unwrap();
    assert_eq!(rec.get_fields(), "id,blob,label");
}

#[test]
fn missing_identity_field_is_rejected() {
    let r = Record::new(
        "User",
        vec![Field::new("name", FieldData::Text("Ann".to_string()))],
    );
    assert_eq!(r.unwrap_err(), SchemaError::MissingIdentity);
}

#[test]
fn text_identity_field_is_rejected() {
    let r = Record::new(
        "User",
        vec![Field::new("id", FieldData::Text("1".to_string()))],
    );
    assert_eq!(r.unwrap_err(), SchemaError::MissingIdentity);
}

#[test]
fn non_integer_timestamp_is_rejected() {
    let r = Record::new(
        "User",
        vec![
            Field::new("id", FieldData::I64(1)),
            Field::new("created", FieldData::Text("today".to_string())),
        ],
    );
    assert_eq!(r.unwrap_err(), SchemaError::TimestampNotInteger);
}

#[test]
fn has_field_sees_only_declared_names() {
    let rec = Record::new("User", user_fields("Ann", 0, 0, 1)).unwrap();
    assert!(rec.has_field("name"));
    assert!(rec.has_field("updated"));
    assert!(!rec.has_field("email"));
}

#[test]
fn id_reads_the_identity_value_at_any_width() {
    let rec = Record::new(
        "Tag",
        vec![Field::new("id", FieldData::I16(12))],
    )
    .unwrap();
    assert_eq!(rec.id(), 12i64);

    let rec = Record::new("User", user_fields("Ann", 0, 0, -3)).unwrap();
    assert_eq!(rec.id(), -3i64);
}
