use kitties::linked_list::{LinkedItem, OwnedKittiesList};

fn item(prev: Option<u32>, next: Option<u32>) -> Option<LinkedItem> {
    Some(LinkedItem { prev, next })
}

#[test]
fn owned_kitties_can_append_values() {
    let mut list = OwnedKittiesList::new();
    list.append(0, 1);

    assert_eq!(list.get((0, None)), item(Some(1), Some(1)));
    assert_eq!(list.get((0, Some(1))), item(None, None));

    list.append(0, 2);

    assert_eq!(list.get((0, None)), item(Some(2), Some(1)));
    assert_eq!(list.get((0, Some(1))), item(None, Some(2)));
    assert_eq!(list.get((0, Some(2))), item(Some(1), None));

    list.append(0, 3);

    assert_eq!(list.get((0, None)), item(Some(3), Some(1)));
    assert_eq!(list.get((0, Some(1))), item(None, Some(2)));
    assert_eq!(list.get((0, Some(2))), item(Some(1), Some(3)));
    assert_eq!(list.get((0, Some(3))), item(Some(2), None));
}

#[test]
fn owned_kitties_can_remove_values() {
    let mut list = OwnedKittiesList::new();
    list.append(0, 1);
    list.append(0, 2);
    list.append(0, 3);

    list.remove(0, 2);

    assert_eq!(list.get((0, None)), item(Some(3), Some(1)));
    assert_eq!(list.get((0, Some(1))), item(None, Some(3)));
    assert_eq!(list.get((0, Some(2))), None);
    assert_eq!(list.get((0, Some(3))), item(Some(1), None));

    list.remove(0, 1);

    assert_eq!(list.get((0, None)), item(Some(3), Some(3)));
    assert_eq!(list.get((0, Some(1))), None);
    assert_eq!(list.get((0, Some(2))), None);
    assert_eq!(list.get((0, Some(3))), item(None, None));

    list.remove(0, 3);

    assert_eq!(list.get((0, None)), item(None, None));
    assert_eq!(list.get((0, Some(1))), None);
    assert_eq!(list.get((0, Some(2))), None);
    assert_eq!(list.get((0, Some(2))), None);
}

#[test]
fn lists_of_accounts_are_separate() {
    let mut list = OwnedKittiesList::new();
    list.append(0, 1);
    list.append(7, 2);
    assert_eq!(list.get((0, None)), item(Some(1), Some(1)));
    assert_eq!(list.get((7, None)), item(Some(2), Some(2)));
    assert_eq!(list.get((0, Some(2))), None);
    assert!(list.contains_key((7, Some(2))));
    assert!(!list.contains_key((0, Some(2))));
    assert_eq!(list.get((9, None)), None);
}

#[test]
fn removing_an_absent_value_changes_nothing() {
    let mut list = OwnedKittiesList::new();
    list.append(0, 1);
    list.remove(0, 5);
    list.remove(4, 1);
    assert_eq!(list.get((0, None)), item(Some(1), Some(1)));
    assert_eq!(list.get((0, Some(1))), item(None, None));
    assert_eq!(list.get((4, None)), None);
}

#[test]
fn append_then_remove_gives_the_list_back() {
    let mut list = OwnedKittiesList::new();
    list.append(0, 1);
    list.append(0, 2);
    list.append(0, 3);
    list.remove(0, 3);
    assert_eq!(list.get((0, None)), item(Some(2), Some(1)));
    assert_eq!(list.get((0, Some(1))), item(None, Some(2)));
    assert_eq!(list.get((0, Some(2))), item(Some(1), None));
    assert_eq!(list.get((0, Some(3))), None);
}
