use completionist_archiver::database::{decode_keys, ids_from_fields};
use completionist_archiver::{BootstrapError, Database};

#[test]
fn achievement_table_is_read() {
    let text = r#"{"1": {"AchievementID": 100, "Name": 5}, "2": {"AchievementID": 200}}"#;
    let mut ids = Database::load_online_achievement_list(text).unwrap();
    ids.sort();
    assert_eq!(ids, vec![100, 200]);
}

#[test]
fn book_table_is_read() {
    let text = r#"{"7": {"BookID": 55}}"#;
    assert_eq!(Database::load_online_book_list(text), Ok(vec![55]));
}

#[test]
fn missing_id_is_a_schema_error() {
    let text = r#"{"1": {"BookID": 55}, "2": {"Other": 1}}"#;
    assert_eq!(Database::load_online_book_list(text), Err(BootstrapError::SchemaError));
    let negative = r#"{"1": {"BookID": -1}}"#;
    assert_eq!(Database::load_online_book_list(negative), Err(BootstrapError::SchemaError));
}

#[test]
fn malformed_json_is_a_schema_error() {
    assert_eq!(Database::load_online_achievement_list("{"), Err(BootstrapError::SchemaError));
    assert_eq!(Database::load_online_achievement_list("[1, 2]"), Err(BootstrapError::SchemaError));
    assert!(matches!(Database::load_online_keys("[]"), Err(BootstrapError::SchemaError)));
}

#[test]
fn ids_above_u32_are_rejected() {
    assert_eq!(ids_from_fields(&vec![Some(7), Some(u32::MAX as u64)]), Ok(vec![7, u32::MAX]));
    let fields = vec![Some(7), Some((1u64 << 32) + 5)];
    assert_eq!(ids_from_fields(&fields), Err(BootstrapError::SchemaError));
    assert_eq!(ids_from_fields(&vec![Some(1), None]), Err(BootstrapError::SchemaError));
    assert_eq!(ids_from_fields(&vec![]), Ok(vec![]));
    let text = r#"{"1": {"AchievementID": 4294967296}}"#;
    assert_eq!(Database::load_online_achievement_list(text), Err(BootstrapError::SchemaError));
}

#[test]
fn table_order_is_the_object_order() {
    let text = r#"{"b": {"BookID": 2}, "a": {"BookID": 1}, "c": {"BookID": 3}}"#;
    assert_eq!(Database::load_online_book_list(text), Ok(vec![1, 2, 3]));
    assert_eq!(Database::load_online_book_list("{}"), Ok(vec![]));
}

#[test]
fn key_table_of_wrong_shape_is_a_schema_error() {
    assert!(matches!(Database::load_online_keys(r#"{"x": "AQID"}"#), Err(BootstrapError::SchemaError)));
    assert!(matches!(Database::load_online_keys(r#"{"1": 5}"#), Err(BootstrapError::SchemaError)));
    assert!(matches!(Database::new_from_online("{}", "[]", "{}"), Err(BootstrapError::SchemaError)));
}

#[test]
fn keys_are_decoded() {
    let keys = Database::load_online_keys(r#"{"1": "AQID", "2": "aGk="}"#).unwrap();
    assert_eq!(keys.len(), 2);
    assert_eq!(keys[&1], vec![1, 2, 3]);
    assert_eq!(keys[&2], b"hi".to_vec());
}

#[test]
fn bad_base64_is_an_encoding_error() {
    assert!(matches!(
        Database::load_online_keys(r#"{"1": "not base64!"}"#),
        Err(BootstrapError::EncodingError)
    ));
}

#[test]
fn later_key_of_an_account_wins() {
    let entries = vec![(4, "AQID".to_string()), (4, "BAU=".to_string())];
    let keys = decode_keys(&entries).unwrap();
    assert_eq!(keys.len(), 1);
    assert_eq!(keys[&4], vec![4, 5]);
}

#[test]
fn database_is_built_from_three_documents() {
    let db = Database::new_from_online(
        r#"{"1": {"AchievementID": 100}}"#,
        r#"{"1": {"BookID": 55}}"#,
        r#"{"123": "AQID"}"#,
    )
    .unwrap();
    assert!(db.has_achievement(100));
    assert!(!db.has_achievement(55));
    assert!(db.has_book(55));
    assert_eq!(db.keys()[&123], vec![1, 2, 3]);
    assert!(matches!(
        Database::new_from_online("{}", "{}", r#"{"1": "%%"}"#),
        Err(BootstrapError::EncodingError)
    ));
    assert!(matches!(
        Database::new_from_online("x", "{}", "{}"),
        Err(BootstrapError::SchemaError)
    ));
}
