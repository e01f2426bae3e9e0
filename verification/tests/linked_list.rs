use minits::linked_list::AtomicLinkedList;

#[test]
fn take_returns_pushed_values_most_recent_first() {
    let mut l = AtomicLinkedList::new();
    assert!(l.take().is_none());
    l.push(1);
    l.push(2);
    l.push(3);
    let list = l.take().unwrap();
    let vals: Vec<i32> = list.iter().into_iter().copied().collect();
    assert_eq!(vals, vec![3, 2, 1]);
    assert!(l.take().is_none());
    let mut it = list.into_iter();
    assert_eq!(it.next(), Some(3));
    assert_eq!(it.next(), Some(2));
    assert_eq!(it.next(), Some(1));
    assert_eq!(it.next(), None);
}

#[test]
fn pop_from_taken_list() {
    let mut l = AtomicLinkedList::new();
    l.push("x");
    let mut list = l.take().unwrap();
    assert_eq!(list.pop(), Some("x"));
    assert_eq!(list.pop(), None);
}
