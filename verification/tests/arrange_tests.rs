use ldraw::arrange::{bring_selected_to_front, remove_selected, send_selected_to_back};

#[test]
fn bring_to_front_keeps_relative_order() {
    let items = vec!["a", "b", "c", "d", "e"];
    let selected = vec![false, true, false, true, false];
    assert_eq!(bring_selected_to_front(items, &selected), vec!["a", "c", "e", "b", "d"]);
}

#[test]
fn send_to_back_keeps_relative_order() {
    let items = vec![1, 2, 3, 4, 5];
    let selected = vec![false, true, false, true, true];
    assert_eq!(send_selected_to_back(items, &selected), vec![2, 4, 5, 1, 3]);
}

#[test]
fn remove_selected_keeps_the_rest() {
    let items = vec![String::from("x"), String::from("y"), String::from("z")];
    let selected = vec![true, false, true];
    assert_eq!(remove_selected(items, &selected), vec![String::from("y")]);
}

#[test]
fn nothing_selected_changes_nothing() {
    let items = vec![3, 1, 2];
    let none = vec![false; 3];
    assert_eq!(bring_selected_to_front(items.clone(), &none), items);
    assert_eq!(send_selected_to_back(items.clone(), &none), items);
    assert_eq!(remove_selected(items.clone(), &none), items);
}

#[test]
fn reordering_is_a_permutation() {
    let items = vec![5, 3, 5, 9, 1, 3];
    let selected = vec![true, false, true, false, false, true];
    let mut front = bring_selected_to_front(items.clone(), &selected);
    let mut back = send_selected_to_back(items.clone(), &selected);
    let mut sorted = items.clone();
    sorted.sort();
    front.sort();
    back.sort();
    assert_eq!(front, sorted);
    assert_eq!(back, sorted);
}

#[test]
fn empty_lists() {
    let items: Vec<u8> = Vec::new();
    let selected: Vec<bool> = Vec::new();
    assert!(bring_selected_to_front(items, &selected).is_empty());
}

#[test]
fn toggling_locks_flips_only_selected() {
    let flags = vec![true, false, true, false];
    let selected = vec![true, true, false, false];
    let once = ldraw::arrange::toggle_selected(flags.clone(), &selected);
    assert_eq!(once, vec![false, true, true, false]);
    let twice = ldraw::arrange::toggle_selected(once, &selected);
    assert_eq!(twice, flags);
}

#[test]
fn movable_means_selected_and_unlocked() {
    let selected = vec![true, true, false, false];
    let locked = vec![true, false, true, false];
    assert_eq!(
        ldraw::arrange::movable_mask(&selected, &locked),
        vec![false, true, false, false]
    );
}
