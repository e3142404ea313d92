use ldraw::history::History;

#[test]
fn undo_restores_checkpointed_value() {
    let mut history: History<Vec<u32>> = History::new(300);
    let mut doc = vec![1, 2, 3];
    history.checkpoint(&doc);
    doc.push(4);
    assert!(history.undo(&mut doc));
    assert_eq!(doc, vec![1, 2, 3]);
}

#[test]
fn redo_reverts_undo() {
    let mut history: History<String> = History::new(10);
    let mut doc = String::from("a");
    history.checkpoint(&doc);
    doc = String::from("ab");
    assert!(history.undo(&mut doc));
    assert_eq!(doc, "a");
    assert!(history.redo(&mut doc));
    assert_eq!(doc, "ab");
    assert!(!history.redo(&mut doc));
    assert_eq!(doc, "ab");
}

#[test]
fn undo_reverts_redo() {
    let mut history: History<u64> = History::new(10);
    let mut value: u64 = 1;
    history.checkpoint(&value);
    value = 2;
    history.checkpoint(&value);
    value = 3;
    assert!(history.undo(&mut value));
    assert!(history.undo(&mut value));
    assert_eq!(value, 1);
    assert!(history.redo(&mut value));
    assert_eq!(value, 2);
    assert!(history.undo(&mut value));
    assert_eq!(value, 1);
    assert!(history.redo(&mut value));
    assert!(history.redo(&mut value));
    assert_eq!(value, 3);
}

#[test]
fn empty_history_does_nothing() {
    let mut history: History<i32> = History::new(0);
    let mut value = 7;
    assert!(!history.undo(&mut value));
    assert!(!history.redo(&mut value));
    assert_eq!(value, 7);
}

#[test]
fn checkpoint_discards_redo() {
    let mut history: History<i32> = History::new(16);
    let mut value = 0;
    history.checkpoint(&value);
    value = 1;
    assert!(history.undo(&mut value));
    assert_eq!(value, 0);
    history.checkpoint(&value);
    value = 5;
    assert!(!history.redo(&mut value));
    assert_eq!(value, 5);
}

#[test]
fn small_limit_is_raised_to_eight() {
    let mut history: History<u32> = History::new(2);
    let mut value: u32 = 0;
    for step in 0..20u32 {
        history.checkpoint(&value);
        value = step + 1;
    }
    let mut undone = 0;
    while history.undo(&mut value) {
        undone += 1;
    }
    assert_eq!(undone, 8);
    // the oldest snapshots were dropped: the oldest one left is 12
    assert_eq!(value, 12);
}

#[test]
fn limit_keeps_newest_snapshots() {
    let mut history: History<u32> = History::new(10);
    let mut value: u32 = 0;
    for step in 0..25u32 {
        history.checkpoint(&value);
        value = step + 1;
    }
    let mut undone = 0;
    while history.undo(&mut value) {
        undone += 1;
    }
    assert_eq!(undone, 10);
    assert_eq!(value, 15);
    let mut redone = 0;
    while history.redo(&mut value) {
        redone += 1;
    }
    assert_eq!(redone, 10);
    assert_eq!(value, 25);
}

#[test]
fn clear_forgets_everything() {
    let mut history: History<u8> = History::new(8);
    let mut value: u8 = 1;
    history.checkpoint(&value);
    value = 2;
    history.checkpoint(&value);
    assert!(history.undo(&mut value));
    history.clear();
    assert!(!history.undo(&mut value));
    assert!(!history.redo(&mut value));
    assert_eq!(value, 2);
}

#[test]
fn cloned_history_is_independent() {
    let mut history: History<u16> = History::new(8);
    let mut value: u16 = 1;
    history.checkpoint(&value);
    value = 2;
    let mut copy = history.clone();
    assert!(history.undo(&mut value));
    assert_eq!(value, 1);
    let mut other: u16 = 9;
    assert!(copy.undo(&mut other));
    assert_eq!(other, 1);
    assert!(!copy.undo(&mut other));
}
