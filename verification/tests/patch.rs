use conduit_client::channel::Transmitter;
use conduit_client::patch::{refill_with, ChildList, Patch};

fn children(list: &ChildList<&'static str>) -> Vec<&'static str> {
    let mut all = Vec::new();
    let mut i = 0;
    while let Some(child) = list.get(i) {
        all.push(*child);
        i += 1;
    }
    all
}

#[test]
fn a_new_list_holds_what_was_declared() {
    let list = ChildList::new(vec!["nav", "page", "footer"]);
    assert_eq!(children(&list), vec!["nav", "page", "footer"]);
    assert_eq!(list.len(), Some(3));
    assert_eq!(list.fixed_len(), 3);
    assert_eq!(list.get(3), None);
}

#[test]
fn pushes_keep_their_order() {
    let mut list = ChildList::new(vec!["brand"]);
    list.apply(Patch::PushBack { value: "a" });
    list.apply(Patch::PushBack { value: "b" });
    list.apply(Patch::PushBack { value: "c" });
    assert_eq!(children(&list), vec!["brand", "a", "b", "c"]);
    assert_eq!(list.fixed_len(), 1);
}

#[test]
fn remove_all_twice_is_remove_all_once() {
    let mut list = ChildList::new(vec!["brand", "links"]);
    list.apply(Patch::PushBack { value: "a" });
    list.apply(Patch::PushBack { value: "b" });
    list.apply(Patch::RemoveAll);
    let once = children(&list);
    list.apply(Patch::RemoveAll);
    assert_eq!(children(&list), once);
    assert_eq!(once, vec!["brand", "links"]);
}

#[test]
fn remove_all_on_an_empty_list_is_harmless() {
    let mut list: ChildList<&'static str> = ChildList::new(vec![]);
    list.apply(Patch::RemoveAll);
    assert_eq!(list.len(), Some(0));
    list.apply(Patch::PushBack { value: "a" });
    list.apply(Patch::RemoveAll);
    assert_eq!(list.len(), Some(0));
}

#[test]
fn a_replacement_is_read_back_at_its_index() {
    let mut list = ChildList::new(vec!["nav", "home", "footer"]);
    assert!(list.accepts(&Patch::Replace { index: 1, value: "login" }));
    list.apply(Patch::Replace { index: 1, value: "login" });
    assert_eq!(list.get(1), Some(&"login"));
    assert_eq!(list.len(), Some(3));
    assert_eq!(children(&list), vec!["nav", "login", "footer"]);
}

#[test]
fn a_replaced_declared_child_stays_declared() {
    let mut list = ChildList::new(vec!["nav", "home", "footer"]);
    list.apply(Patch::PushBack { value: "extra" });
    list.apply(Patch::Replace { index: 1, value: "login" });
    list.apply(Patch::Replace { index: 3, value: "other" });
    assert_eq!(children(&list), vec!["nav", "login", "footer", "other"]);
    list.apply(Patch::RemoveAll);
    assert_eq!(children(&list), vec!["nav", "login", "footer"]);
}

#[test]
fn a_replacement_must_name_a_child() {
    let mut list = ChildList::new(vec!["nav"]);
    assert!(!list.accepts(&Patch::Replace { index: 1, value: "x" }));
    assert!(list.accepts(&Patch::Replace { index: 0, value: "x" }));
    assert!(list.accepts(&Patch::RemoveAll));
    assert!(list.accepts(&Patch::PushBack { value: "x" }));
    list.apply(Patch::PushBack { value: "a" });
    assert!(list.accepts(&Patch::Replace { index: 1, value: "x" }));
    assert!(!list.accepts(&Patch::Replace { index: 2, value: "x" }));
}

#[test]
fn patches_are_applied_in_order() {
    let mut list = ChildList::new(vec!["title"]);
    let applied = list.apply_all(vec![
        Patch::PushBack { value: "old" },
        Patch::RemoveAll,
        Patch::PushBack { value: "a" },
        Patch::PushBack { value: "b" },
        Patch::Replace { index: 2, value: "c" },
    ]);
    assert_eq!(applied, 5);
    assert_eq!(children(&list), vec!["title", "a", "c"]);
}

#[test]
fn a_refill_shows_the_new_lines_only() {
    let mut list: ChildList<String> = ChildList::new(vec![]);
    list.apply(Patch::PushBack { value: "stale".to_string() });
    let lines = vec!["email has already been taken".to_string(), "password is too short".to_string()];
    let patches = refill_with(&lines);
    assert_eq!(patches.len(), 3);
    assert!(matches!(patches[0], Patch::RemoveAll));
    list.apply_all(patches);
    assert_eq!(list.len(), Some(2));
    assert_eq!(list.get(0), Some(&lines[0]));
    assert_eq!(list.get(1), Some(&lines[1]));
}

#[test]
fn patches_stop_before_the_first_that_does_not_fit() {
    let mut list = ChildList::new(vec!["title"]);
    let applied = list.apply_all(vec![
        Patch::PushBack { value: "a" },
        Patch::Replace { index: 2, value: "late" },
        Patch::PushBack { value: "b" },
    ]);
    assert_eq!(applied, 1);
    assert_eq!(children(&list), vec!["title", "a"]);
    assert_eq!(list.apply_all(vec![]), 0);
}

#[test]
fn a_list_follows_a_receiver_of_patches() {
    let mut tx: Transmitter<Patch<String>> = Transmitter::new();
    tx.subscribe();
    tx.send(Patch::PushBack { value: "before the list listened".to_string() });
    let rx = tx.subscribe();
    let mut list = ChildList::new(vec!["heading".to_string()]);
    assert_eq!(list.follow(&tx, rx, 0), 0);
    tx.send(Patch::PushBack { value: "a".to_string() });
    tx.send(Patch::PushBack { value: "b".to_string() });
    let seen = list.follow(&tx, rx, 0);
    assert_eq!(seen, 2);
    assert_eq!(list.len(), Some(3));
    tx.send(Patch::RemoveAll);
    tx.send(Patch::PushBack { value: "c".to_string() });
    tx.send(Patch::Replace { index: 5, value: "nowhere".to_string() });
    tx.send(Patch::PushBack { value: "d".to_string() });
    let seen = list.follow(&tx, rx, seen);
    assert_eq!(seen, 4);
    assert_eq!(list.get(0), Some(&"heading".to_string()));
    assert_eq!(list.get(1), Some(&"c".to_string()));
    assert_eq!(list.len(), Some(2));
    assert_eq!(list.follow(&tx, rx, seen), 4);
    assert_eq!(list.follow(&tx, rx, seen + 1), 6);
    assert_eq!(list.get(2), Some(&"d".to_string()));
}
