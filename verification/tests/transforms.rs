use cfg_history::{
    BinarizedRhsRange, History, RuleDot, SequenceDetails, Symbol,
};

fn history_with_dots(id: u32, len: usize) -> History {
    History::new(id, len)
}

#[test]
fn binarize_outermost_of_two() {
    let h = history_with_dots(4, 1);
    assert_eq!(h.dots.len(), 2);
    let b = h.binarize(0);
    assert_eq!(b.dots.len(), 3);
    assert_eq!(b.dot(0).trace(), Some((4, 0)));
    assert_eq!(b.dot(1).trace(), None);
    assert_eq!(b.dot(2).trace(), Some((4, 1)));
    assert_eq!(b.origin(), Some(Symbol(4)));
}

#[test]
fn binarize_outermost_of_three_or_more() {
    let h = history_with_dots(4, 4);
    assert_eq!(h.dots.len(), 5);
    let b = h.binarize(0);
    assert_eq!(b.dots.len(), 3);
    assert_eq!(b.dot(0).trace(), Some((4, 0)));
    assert_eq!(b.dot(1).trace(), Some((4, 3)));
    assert_eq!(b.dot(2).trace(), Some((4, 4)));
    assert_eq!(b.origin(), Some(Symbol(4)));
}

#[test]
fn binarize_outermost_of_one() {
    let h = history_with_dots(4, 0);
    assert_eq!(h.dots.len(), 1);
    let b = h.binarize(0);
    assert_eq!(b.dots.len(), 3);
    assert_eq!(b.dot(0).trace(), Some((4, 0)));
    assert_eq!(b.dot(1).trace(), None);
    assert_eq!(b.dot(2).trace(), None);
}

#[test]
fn binarize_empty_dots() {
    let h = History {
        dots: Vec::new(),
        origin: Some(Symbol(4)),
        nullable: None,
        weight: None,
        sequence: None,
    };
    let b = h.binarize(0);
    assert_eq!(b.dots.len(), 3);
    assert_eq!(b.dot(0).trace(), None);
    assert_eq!(b.dot(1).trace(), None);
    assert_eq!(b.dot(2).trace(), None);
}

#[test]
fn binarize_inner_piece_clears_origin() {
    let h = history_with_dots(4, 4);
    let b = h.binarize(1);
    assert_eq!(b.dots.len(), 3);
    assert_eq!(b.dot(0).trace(), None);
    assert_eq!(b.dot(1).trace(), Some((4, 2)));
    assert_eq!(b.dot(2).trace(), None);
    assert_eq!(b.origin(), None);
    assert_eq!(b.nullable(), h.nullable());
}

#[test]
fn eliminate_nulling_all_keeps_only_origin() {
    let mut h = history_with_dots(3, 2);
    h.weight = Some(9);
    h.sequence = Some(SequenceDetails { top: false, rhs: Symbol(1), sep: None });
    h.nullable = Some((Symbol(2), false));
    let e = h.eliminate_nulling(Symbol(5), Some(Symbol(6)), BinarizedRhsRange::All);
    assert_eq!(e.origin(), Some(Symbol(3)));
    assert_eq!(e.dots.len(), 0);
    assert_eq!(e.nullable(), None);
    assert_eq!(e.weight, None);
    assert_eq!(e.sequence, None);
}

#[test]
fn eliminate_nulling_right_marks_second_symbol() {
    let h = history_with_dots(3, 2);
    let e = h.eliminate_nulling(Symbol(5), Some(Symbol(6)), BinarizedRhsRange::Right);
    assert_eq!(e.nullable(), Some((Symbol(6), true)));
    assert_eq!(e.dots, h.dots);
    assert_eq!(e.origin(), h.origin());
    assert_eq!(e.weight, h.weight);
    assert_eq!(e.sequence, h.sequence);
}

#[test]
fn eliminate_nulling_left_marks_first_symbol() {
    let h = history_with_dots(3, 2);
    let e = h.eliminate_nulling(Symbol(5), None, BinarizedRhsRange::Left);
    assert_eq!(e.nullable(), Some((Symbol(5), false)));
    assert_eq!(e.dots, h.dots);
    assert_eq!(e.origin(), h.origin());
}

#[test]
fn sequence_rewrite_follows_boundary_table() {
    let elem = Symbol(1);
    let sep = Symbol(2);
    let h = history_with_dots(9, 2);
    let details = SequenceDetails { top: false, rhs: elem, sep: Some(sep) };
    let new_rhs = [elem, sep, elem, sep, elem];
    let r = h.rewrite_sequence(details, &new_rhs);
    assert_eq!(r.dots.len(), 6);
    assert_eq!(r.dot(0).trace(), Some((9, 0)));
    assert_eq!(r.dot(1).trace(), Some((9, 1)));
    assert_eq!(r.dot(2).trace(), Some((9, 2)));
    assert_eq!(r.dot(3).trace(), Some((9, 1)));
    assert_eq!(r.dot(4).trace(), Some((9, 2)));
    assert_eq!(r.dot(5).trace(), Some((9, 1)));
    assert_eq!(r.origin(), None);
    assert_eq!(r.nullable(), None);
    assert_eq!(r.weight, None);
    assert_eq!(r.sequence, None);
}

#[test]
fn sequence_rewrite_other_symbols_get_no_dots() {
    let elem = Symbol(1);
    let h = history_with_dots(9, 2);
    let details = SequenceDetails { top: false, rhs: elem, sep: None };
    let new_rhs = [Symbol(8), Symbol(9)];
    let r = h.rewrite_sequence(details, &new_rhs);
    assert_eq!(r.dots.len(), 3);
    assert_eq!(r.dot(0).trace(), None);
    assert_eq!(r.dot(1).trace(), None);
    assert_eq!(r.dot(2).trace(), None);
}

#[test]
fn sequence_rewrite_top_keeps_origin() {
    let elem = Symbol(1);
    let h = history_with_dots(9, 2);
    let top = SequenceDetails { top: true, rhs: elem, sep: None };
    let r = h.rewrite_sequence(top, &[elem]);
    assert_eq!(r.origin(), Some(Symbol(9)));
    let bottom = SequenceDetails { top: false, rhs: elem, sep: None };
    let r = h.rewrite_sequence(bottom, &[elem]);
    assert_eq!(r.origin(), None);
}

#[test]
fn rule_dot_accessors() {
    let none = RuleDot::none();
    assert_eq!(none.trace(), None);
    assert_eq!(none.event(), None);
    assert_eq!(none.event_without_tracing(), (None, None));
    assert_eq!(none.distance(), None);

    let h = History::new(4, 1);
    let dot = h.dot(1);
    assert_eq!(dot.trace(), Some((4, 1)));
    assert_eq!(dot.event(), Some((None, (4, 1))));
    assert_eq!(dot.event_without_tracing(), (None, None));
    assert_eq!(dot.distance(), None);
}

#[test]
fn history_clone_is_equal() {
    let mut h = History::new(2, 3);
    h.weight = Some(11);
    let c = h.clone();
    assert_eq!(h, c);
}
