use gui_toolkit::util::IdGen;

#[test]
fn identifiers_count_up_from_zero() {
    let mut ids = IdGen::new();
    assert_eq!(ids.next(), 0);
    assert_eq!(ids.next(), 1);
    assert_eq!(ids.next(), 2);
}

#[test]
fn two_generators_do_not_share_a_count() {
    let mut a = IdGen::new();
    let mut b = IdGen::new();
    assert_eq!(a.next(), 0);
    assert_eq!(a.next(), 1);
    assert_eq!(b.next(), 0);
}

#[test]
fn a_fresh_generator_is_not_exhausted() {
    let mut ids = IdGen::new();
    assert!(!ids.is_exhausted());
    ids.next();
    assert!(!ids.is_exhausted());
}
