use ralg::persistent::Persistant;

#[test]
fn basics() {
    let list = Persistant::new();
    // Check head and tail in empty case
    assert_eq!(list.head(), None);
    assert_eq!(list.tail().head(), None);

    let list = list.prepend(0).prepend(1).prepend(2);
    assert_eq!(list.head(), Some(&2));

    // Check tail
    let list = list.tail();
    assert_eq!(list.head(), Some(&1));

    let list = list.tail();
    assert_eq!(list.head(), Some(&0));

    let list = list.tail();
    assert_eq!(list.head(), None);
}

#[test]
fn persistent_iter() {
    let list = Persistant::new().prepend(0).prepend(1).prepend(2);

    let mut iter = list.iter();
    for x in (0..3).rev() {
        assert_eq!(iter.next(), Some(&x));
    }
    assert_eq!(iter.next(), None);
}
