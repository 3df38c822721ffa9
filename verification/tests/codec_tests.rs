use taskdoc::codec::{decode_slot, encode_task};
use taskdoc::model::{AnyValue, FieldValue, ListItem, TaskEntry};

fn task(uuid: &str, content: &str) -> TaskEntry {
    TaskEntry {
        uuid: uuid.to_string(),
        content: content.to_string(),
        is_pinned: false,
        created_at: 0,
        updated_at: 0,
        tags: Vec::new(),
        custom_sort_order: 0,
    }
}

#[test]
fn round_trip_all_fields() {
    let t = TaskEntry {
        uuid: "id-1".to_string(),
        content: "hello world".to_string(),
        is_pinned: true,
        created_at: -7,
        updated_at: 9_000_000_000,
        tags: vec!["a".to_string(), "b".to_string(), "a".to_string()],
        custom_sort_order: -42,
    };
    let encoded = encode_task(&t);
    let decoded = decode_slot(&encoded).expect("a field map decodes to a task");
    assert_eq!(decoded, t);
}

#[test]
fn round_trip_empty_fields() {
    let t = task("", "");
    let decoded = decode_slot(&encode_task(&t)).expect("a field map decodes to a task");
    assert_eq!(decoded, t);
}

#[test]
fn decode_skips_non_map() {
    assert!(decode_slot(&AnyValue::Opaque).is_none());
}

#[test]
fn decode_defaults_missing_fields() {
    let v = AnyValue::Fields(vec![(
        "uuid".to_string(),
        FieldValue::Text("only-id".to_string()),
    )]);
    let decoded = decode_slot(&v).expect("a field map decodes to a task");
    assert_eq!(decoded.uuid, "only-id");
    assert_eq!(decoded.content, "");
    assert!(!decoded.is_pinned);
    assert_eq!(decoded.created_at, 0);
    assert_eq!(decoded.updated_at, 0);
    assert!(decoded.tags.is_empty());
    assert_eq!(decoded.custom_sort_order, 0);
}

#[test]
fn decode_defaults_wrongly_typed_fields() {
    let v = AnyValue::Fields(vec![
        ("uuid".to_string(), FieldValue::Int(3)),
        ("content".to_string(), FieldValue::Flag(true)),
        ("is_pinned".to_string(), FieldValue::Text("yes".to_string())),
        ("created_at".to_string(), FieldValue::Text("5".to_string())),
        ("updated_at".to_string(), FieldValue::Opaque),
        ("tags".to_string(), FieldValue::Text("a,b".to_string())),
        ("custom_sort_order".to_string(), FieldValue::Flag(false)),
    ]);
    let decoded = decode_slot(&v).expect("a field map decodes to a task");
    assert_eq!(decoded, task("", ""));
}

#[test]
fn decode_keeps_only_string_tags() {
    let v = AnyValue::Fields(vec![
        ("uuid".to_string(), FieldValue::Text("u".to_string())),
        (
            "tags".to_string(),
            FieldValue::Items(vec![
                ListItem::Text("keep".to_string()),
                ListItem::Opaque,
                ListItem::Text("also".to_string()),
            ]),
        ),
    ]);
    let decoded = decode_slot(&v).expect("a field map decodes to a task");
    assert_eq!(decoded.tags, vec!["keep".to_string(), "also".to_string()]);
}

#[test]
fn decode_takes_first_of_duplicate_keys() {
    let v = AnyValue::Fields(vec![
        ("uuid".to_string(), FieldValue::Text("first".to_string())),
        ("uuid".to_string(), FieldValue::Text("second".to_string())),
    ]);
    let decoded = decode_slot(&v).expect("a field map decodes to a task");
    assert_eq!(decoded.uuid, "first");
}
