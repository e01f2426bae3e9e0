use minits::reference_holder::ReferenceHolder;

#[test]
fn non_empty() {
    let x = 7;
    let r = ReferenceHolder::from_ref(&x);
    assert_eq!(*r.as_ref(), x);

    fn nested_func(r: ReferenceHolder<usize>) {
        let r = r;
        assert_eq!(*r.as_ref(), 7);
    }

    nested_func(r);
}

#[test]
fn empty_holder_is_empty() {
    let r = ReferenceHolder::<usize>::empty();
    assert!(r.is_empty());
    let x = 1u32;
    let q = ReferenceHolder::from_ref(&x);
    assert!(!q.is_empty());
    let copy = q;
    assert_eq!(*copy.as_ref(), 1);
    assert_eq!(*q.as_ref(), 1);
}
