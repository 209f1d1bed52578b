use pods::volume_list::{notified_on_items_changed, ItemsChanged, ListProperty, SimpleVolumeList};

fn list_of(names: &[(&str, u64)]) -> SimpleVolumeList {
    let mut list = SimpleVolumeList::new();
    for (name, handle) in names {
        list.add_volume(name.to_string(), *handle);
    }
    list
}

#[test]
fn new_list_is_empty() {
    let list = SimpleVolumeList::new();
    assert_eq!(list.n_items(), 0);
    assert_eq!(list.len(), 0);
    assert_eq!(list.get(0), None);
    assert_eq!(list.item(0), None);
    assert_eq!(list.used(&vec![]), 0);
}

#[test]
fn add_appends_new_names_in_order() {
    let mut list = SimpleVolumeList::new();
    assert_eq!(
        list.add_volume("data".to_string(), 3),
        (ItemsChanged { position: 0, removed: 0, added: 1 }, None)
    );
    assert_eq!(
        list.add_volume("cache".to_string(), 5),
        (ItemsChanged { position: 1, removed: 0, added: 1 }, None)
    );
    assert_eq!(list.len(), 2);
    assert_eq!(list.get(0), Some(3));
    assert_eq!(list.get(1), Some(5));
    assert_eq!(list.item(1), Some(5));
    assert_eq!(list.get(2), None);
}

#[test]
fn add_existing_name_replaces_in_place() {
    let mut list = list_of(&[("data", 3), ("cache", 5), ("logs", 6)]);
    let change = list.add_volume("cache".to_string(), 9);
    assert_eq!(change, (ItemsChanged { position: 1, removed: 0, added: 1 }, Some(5)));
    assert_eq!(list.len(), 3);
    assert_eq!(list.get(0), Some(3));
    assert_eq!(list.get(1), Some(9));
    assert_eq!(list.get(2), Some(6));
}

#[test]
fn add_twice_keeps_last_handle() {
    let mut twice = list_of(&[("data", 3)]);
    assert_eq!(twice.add_volume("x".to_string(), 1).1, None);
    assert_eq!(twice.add_volume("x".to_string(), 2).1, Some(1));
    let once = list_of(&[("data", 3), ("x", 2)]);
    assert_eq!(twice.len(), once.len());
    for i in 0..3 {
        assert_eq!(twice.get(i), once.get(i));
    }
}

#[test]
fn remove_shifts_following_volumes() {
    let mut list = list_of(&[("data", 3), ("cache", 5), ("logs", 6)]);
    let removed = list.remove_volume("data");
    assert_eq!(removed, Some((ItemsChanged { position: 0, removed: 1, added: 0 }, 3)));
    assert_eq!(list.len(), 2);
    assert_eq!(list.get(0), Some(5));
    assert_eq!(list.get(1), Some(6));
    assert_eq!(list.get(2), None);
}

#[test]
fn remove_missing_name_changes_nothing() {
    let mut list = list_of(&[("data", 3), ("cache", 5)]);
    assert_eq!(list.remove_volume("other"), None);
    assert_eq!(list.len(), 2);
    assert_eq!(list.get(0), Some(3));
    assert_eq!(list.get(1), Some(5));
    assert_eq!(list.remove_volume("data").map(|(c, h)| (c.position, h)), Some((0, 3)));
    assert_eq!(list.remove_volume("data"), None);
}

#[test]
fn remove_undoes_add_of_new_name() {
    let mut list = list_of(&[("data", 3), ("cache", 5)]);
    list.add_volume("fresh".to_string(), 11);
    assert_eq!(list.len(), 3);
    assert_eq!(
        list.remove_volume("fresh"),
        Some((ItemsChanged { position: 2, removed: 1, added: 0 }, 11))
    );
    assert_eq!(list.len(), 2);
    assert_eq!(list.get(0), Some(3));
    assert_eq!(list.get(1), Some(5));
}

#[test]
fn other_names_untouched() {
    let mut list = list_of(&[("a", 0), ("b", 1), ("c", 2)]);
    list.remove_volume("b");
    assert_eq!(list.remove_volume("a").map(|(_, h)| h), Some(0));
    assert_eq!(list.remove_volume("c").map(|(_, h)| h), Some(2));
    assert_eq!(list.len(), 0);
}

#[test]
fn used_counts_alive_volumes() {
    let list = list_of(&[("a", 0), ("b", 2), ("c", 1)]);
    let alive = vec![true, false, true];
    assert_eq!(list.used(&alive), 2);
    assert_eq!(list.used(&vec![false, false, false]), 0);
    assert_eq!(list.used(&vec![true, true, true]), 3);
    assert!(list.used(&alive) <= list.len());
}

#[test]
fn all_used_exactly_when_every_volume_alive() {
    let list = list_of(&[("a", 0), ("b", 1)]);
    assert_eq!(list.used(&vec![true, true]), list.len());
    assert_ne!(list.used(&vec![true, false]), list.len());
    assert_ne!(list.used(&vec![false, true]), list.len());
    let empty = SimpleVolumeList::new();
    assert_eq!(empty.used(&vec![]), empty.len());
}

#[test]
fn property_dispatch() {
    let list = list_of(&[("a", 0), ("b", 1)]);
    let alive = vec![false, true];
    assert_eq!(list.property(ListProperty::Len, &alive), 2);
    assert_eq!(list.item(1), list.get(1));
    assert_eq!(list.property(ListProperty::Used, &alive), 1);
}

#[test]
fn items_changed_notifies_len_then_used() {
    assert_eq!(notified_on_items_changed(), vec![ListProperty::Len, ListProperty::Used]);
}

#[test]
fn names_are_compared_by_content() {
    let mut list = SimpleVolumeList::new();
    let name = String::from("vol");
    list.add_volume(name.clone(), 1);
    list.add_volume(format!("{}", "vol"), 2);
    assert_eq!(list.len(), 1);
    assert_eq!(list.get(0), Some(2));
    assert_eq!(list.remove_volume(&name).map(|(_, h)| h), Some(2));
}
