use rune_core::span::Span;

#[test]
fn new_keeps_offsets() {
    let s = Span::new(3, 8);
    assert_eq!(s.start, 3);
    assert_eq!(s.end, 8);
}

#[test]
fn join_covers_both_spans() {
    let a = Span::new(1, 5);
    let b = Span::new(3, 9);
    assert_eq!(a.join(b), Span::new(1, 9));
    assert_eq!(b.join(a), Span::new(1, 9));
}

#[test]
fn join_of_disjoint_spans_covers_the_gap() {
    let a = Span::new(10, 12);
    let b = Span::new(20, 30);
    assert_eq!(a.join(b), Span::new(10, 30));
}

#[test]
fn join_with_itself_is_identity() {
    let a = Span::new(4, 7);
    assert_eq!(a.join(a), a);
}

#[test]
fn join_is_associative() {
    let a = Span::new(5, 6);
    let b = Span::new(1, 9);
    let c = Span::new(7, 20);
    assert_eq!(a.join(b).join(c), a.join(b.join(c)));
}
