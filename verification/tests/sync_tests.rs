use taskdoc::doc::TaskDocument;
use taskdoc::model::TaskEntry;

fn sync_task() -> TaskEntry {
    TaskEntry {
        uuid: "sync_1".to_string(),
        content: "Sync Me".to_string(),
        is_pinned: true,
        created_at: 123,
        updated_at: 123,
        tags: Vec::new(),
        custom_sort_order: 0,
    }
}

#[test]
fn sync_convergence() {
    let mut a = TaskDocument::new();
    let mut b = TaskDocument::new();

    let t = sync_task();
    a.add_task(t.clone());
    b.apply_update(a.get_update());

    let tasks = b.get_all_tasks();
    assert_eq!(tasks.len(), 1);
    assert_eq!(tasks[0], t);
}

#[test]
fn idempotent_apply() {
    let mut a = TaskDocument::new();
    let mut b = TaskDocument::new();
    a.add_task(sync_task());

    let update = a.get_update();
    b.apply_update(update.clone());
    let once = b.get_all_tasks();
    b.apply_update(update);
    let twice = b.get_all_tasks();

    assert_eq!(once, twice);
    assert_eq!(twice.len(), 1);
}

#[test]
fn malformed_update_is_ignored() {
    let mut doc = TaskDocument::new();
    doc.add_task(sync_task());
    let before = doc.get_all_tasks();
    doc.apply_update(vec![0xff, 0x13, 0x37]);
    assert_eq!(doc.get_all_tasks(), before);
}

#[test]
fn concurrent_delete_and_update_converge() {
    // A and B start from the same converged state holding uuid "x".
    let mut a = TaskDocument::new();
    let mut b = TaskDocument::new();
    let base = TaskEntry {
        uuid: "x".to_string(),
        content: "original".to_string(),
        is_pinned: false,
        created_at: 1,
        updated_at: 1,
        tags: Vec::new(),
        custom_sort_order: 0,
    };
    a.add_task(base.clone());
    b.apply_update(a.get_update());
    assert_eq!(a.get_all_tasks(), b.get_all_tasks());

    // Concurrently: A deletes "x" while B replaces it.
    a.delete_task("x".to_string());
    let replacement = TaskEntry {
        content: "updated".to_string(),
        updated_at: 2,
        ..base
    };
    b.update_task("x".to_string(), replacement.clone());

    // Exchange and apply bidirectionally.
    let from_a = a.get_update();
    let from_b = b.get_update();
    a.apply_update(from_b);
    b.apply_update(from_a);

    // Both sides converge to the same decoded list; with this engine the
    // update wins, since replacing re-inserts a fresh element that the
    // concurrent delete never saw.
    assert_eq!(a.get_all_tasks(), b.get_all_tasks());
    let tasks = a.get_all_tasks();
    assert_eq!(tasks.len(), 1);
    assert_eq!(tasks[0], replacement);
}
