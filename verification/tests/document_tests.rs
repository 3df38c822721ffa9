use taskdoc::doc::TaskDocument;
use taskdoc::model::TaskEntry;

fn entry(uuid: &str, content: &str, sort: i64) -> TaskEntry {
    TaskEntry {
        uuid: uuid.to_string(),
        content: content.to_string(),
        is_pinned: false,
        created_at: 0,
        updated_at: 0,
        tags: Vec::new(),
        custom_sort_order: sort,
    }
}

#[test]
fn test_task_crud() {
    let mut doc = TaskDocument::new();

    let task1 = TaskEntry {
        uuid: "u1".to_string(),
        content: "Task 1".to_string(),
        is_pinned: false,
        created_at: 100,
        updated_at: 100,
        tags: vec!["a".to_string()],
        custom_sort_order: 500,
    };
    doc.add_task(task1.clone());

    let tasks = doc.get_all_tasks();
    assert_eq!(tasks.len(), 1);
    assert_eq!(tasks[0].uuid, "u1");
    assert_eq!(tasks[0].tags[0], "a");
    assert_eq!(tasks[0].custom_sort_order, 500);

    let task1_update = TaskEntry {
        content: "Task 1 Updated".to_string(),
        updated_at: 200,
        custom_sort_order: 1000,
        ..task1.clone()
    };
    doc.update_task("u1".to_string(), task1_update);

    let tasks = doc.get_all_tasks();
    assert_eq!(tasks[0].content, "Task 1 Updated");
    assert_eq!(tasks[0].updated_at, 200);
    assert_eq!(tasks[0].custom_sort_order, 1000);

    doc.delete_task("u1".to_string());
    let tasks = doc.get_all_tasks();
    assert_eq!(tasks.len(), 0);
}

#[test]
fn add_then_list() {
    let mut doc = TaskDocument::new();
    doc.add_task(entry("a", "first", 1));
    let before = doc.get_all_tasks();

    let fresh = TaskEntry {
        uuid: "b".to_string(),
        content: "second".to_string(),
        is_pinned: true,
        created_at: 11,
        updated_at: 12,
        tags: vec!["t1".to_string()],
        custom_sort_order: 2,
    };
    doc.add_task(fresh.clone());

    let after = doc.get_all_tasks();
    assert_eq!(after.len(), before.len() + 1);
    let found = after.iter().find(|t| t.uuid == "b").expect("new uuid is retrievable");
    assert_eq!(*found, fresh);
    assert_eq!(after[0], fresh);
}

#[test]
fn add_existing_uuid_replaces_in_place() {
    let mut doc = TaskDocument::new();
    doc.add_task(entry("a", "first", 1));
    doc.add_task(entry("b", "second", 2));
    doc.add_task(entry("b", "second again", 3));

    let tasks = doc.get_all_tasks();
    assert_eq!(tasks.len(), 2);
    assert_eq!(tasks[0].uuid, "b");
    assert_eq!(tasks[0].content, "second again");
    assert_eq!(tasks[1].uuid, "a");
}

#[test]
fn update_semantics() {
    let mut doc = TaskDocument::new();
    doc.add_task(entry("x", "keep me", 1));
    doc.add_task(entry("y", "replace me", 2));
    // the later add stands at the head, so "y" is first and "x" second
    let replacement = TaskEntry {
        uuid: "y".to_string(),
        content: "replaced".to_string(),
        is_pinned: true,
        created_at: 7,
        updated_at: 8,
        tags: vec!["n".to_string()],
        custom_sort_order: 9,
    };
    doc.update_task("y".to_string(), replacement.clone());

    let tasks = doc.get_all_tasks();
    assert_eq!(tasks.len(), 2);
    assert_eq!(tasks[0], replacement);
    assert_eq!(tasks[1], entry("x", "keep me", 1));
    assert!(tasks.iter().all(|t| t.content != "replace me"));
}

#[test]
fn update_missing_uuid_is_noop() {
    let mut doc = TaskDocument::new();
    doc.add_task(entry("a", "stays", 1));
    let before = doc.get_all_tasks();
    doc.update_task("missing".to_string(), entry("missing", "never lands", 2));
    assert_eq!(doc.get_all_tasks(), before);
}

#[test]
fn delete_idempotent() {
    let mut doc = TaskDocument::new();
    doc.add_task(entry("a", "one", 1));
    doc.add_task(entry("b", "two", 2));
    let len_before = doc.get_all_tasks().len();

    doc.delete_task("a".to_string());
    let once = doc.get_all_tasks();
    doc.delete_task("a".to_string());
    let twice = doc.get_all_tasks();

    assert_eq!(once, twice);
    assert_eq!(twice.len(), len_before - 1);
    assert!(twice.iter().all(|t| t.uuid != "a"));
}

#[test]
fn delete_missing_uuid_is_noop() {
    let mut doc = TaskDocument::new();
    doc.add_task(entry("a", "stays", 1));
    let before = doc.get_all_tasks();
    doc.delete_task("missing".to_string());
    assert_eq!(doc.get_all_tasks(), before);
}

#[test]
fn restore_after_list_is_inverse() {
    let mut doc = TaskDocument::new();
    doc.add_task(entry("a", "one", 1));
    doc.add_task(TaskEntry {
        uuid: "b".to_string(),
        content: "two".to_string(),
        is_pinned: true,
        created_at: 3,
        updated_at: 4,
        tags: vec!["t".to_string(), "t".to_string()],
        custom_sort_order: 5,
    });

    let listed = doc.get_all_tasks();
    doc.restore_all(listed.clone());
    assert_eq!(doc.get_all_tasks(), listed);
}

#[test]
fn restore_replaces_whole_state() {
    let mut doc = TaskDocument::new();
    doc.add_task(entry("old1", "gone", 1));
    doc.add_task(entry("old2", "gone too", 2));

    doc.restore_all(vec![entry("new1", "fresh", 3), entry("new2", "fresher", 4)]);

    let tasks = doc.get_all_tasks();
    assert_eq!(tasks.len(), 2);
    assert_eq!(tasks[0], entry("new1", "fresh", 3));
    assert_eq!(tasks[1], entry("new2", "fresher", 4));
}

#[test]
fn lookup_tolerates_duplicate_uuids() {
    // restore-all is the one local door to duplicate uuids: the mutating
    // operations then always pick the front-most match.
    let mut doc = TaskDocument::new();
    doc.restore_all(vec![
        entry("dup", "first", 1),
        entry("other", "middle", 2),
        entry("dup", "second", 3),
    ]);

    doc.update_task("dup".to_string(), entry("dup", "first updated", 4));
    let tasks = doc.get_all_tasks();
    assert_eq!(tasks.len(), 3);
    assert_eq!(tasks[0].content, "first updated");
    assert_eq!(tasks[2].content, "second");

    doc.delete_task("dup".to_string());
    let tasks = doc.get_all_tasks();
    assert_eq!(tasks.len(), 2);
    assert_eq!(tasks[0], entry("other", "middle", 2));
    assert_eq!(tasks[1].content, "second");
}

#[test]
fn restore_empty_clears() {
    let mut doc = TaskDocument::new();
    doc.add_task(entry("a", "one", 1));
    doc.restore_all(Vec::new());
    assert!(doc.get_all_tasks().is_empty());
}
