use cacophony_io::index::Index;

#[test]
fn index_wraps_up_and_down() {
    let mut i = Index::new(2, 3);
    assert!(i.increment(true));
    assert_eq!(i.get(), 0);
    assert!(i.increment(false));
    assert_eq!(i.get(), 2);
}

#[test]
fn empty_index_never_moves() {
    let mut i = Index::new(0, 0);
    assert!(!i.increment(true));
    assert_eq!(i.get(), 0);
}
