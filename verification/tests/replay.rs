use cfg_history::{HistoryGraph, HistoryNode, LinkedHistoryNode, RootHistoryNode, Symbol};

fn syms(ids: &[u32]) -> Vec<Symbol> {
    let mut v: Vec<Symbol> = Vec::new();
    let mut i: usize = 0;
    while i < ids.len() {
        v.push(Symbol(ids[i]));
        i += 1;
    }
    v
}

#[test]
fn root_no_op_and_rule_are_identical() {
    let no_op = cfg_history::history::process_root(RootHistoryNode::NoOp);
    let rule = cfg_history::history::process_root(RootHistoryNode::Rule { lhs: Symbol(42) });
    assert_eq!(no_op, rule);
    assert_eq!(no_op.dots.len(), 1);
    assert_eq!(no_op.dot(0).trace(), Some((0, 0)));
    assert_eq!(no_op.dot(0).event(), Some((None, (0, 0))));
    assert_eq!(no_op.nullable(), None);
    assert_eq!(no_op.weight, None);
    assert_eq!(no_op.sequence, None);
    assert_eq!(no_op.origin(), Some(Symbol(0)));
}

#[test]
fn root_origin_sets_rule_number() {
    let h = cfg_history::history::process_root(RootHistoryNode::Origin { origin: 7 });
    assert_eq!(h.origin(), Some(Symbol(7)));
    assert_eq!(h.dots.len(), 1);
    assert_eq!(h.dot(0).trace(), Some((7, 0)));
    assert_eq!(h.nullable(), None);
    assert_eq!(h.weight, None);
    assert_eq!(h.sequence, None);
}

#[test]
fn end_to_end_binarized_rule_traces_to_origin() {
    let mut g = HistoryGraph::new();
    let id1 = g.add_history_node(HistoryNode::Root(RootHistoryNode::Origin { origin: 0 }));
    let id2 = g.add_history_node(HistoryNode::Linked {
        prev: id1,
        node: LinkedHistoryNode::Rhs { rhs: syms(&[10, 11]) },
    });
    let id3 = g.add_history_node(HistoryNode::Linked {
        prev: id2,
        node: LinkedHistoryNode::Binarize { depth: 0 },
    });
    let result = g.final_history();
    assert_eq!(result.len(), 4);
    let last = &result[id3];
    assert_eq!(last.dot(0).trace(), Some((0, 0)));
    assert_eq!(last.origin(), Some(Symbol(0)));
}

#[test]
fn replaying_twice_is_deterministic() {
    let mut g = HistoryGraph::new();
    let id1 = g.add_history_node(HistoryNode::Root(RootHistoryNode::Origin { origin: 3 }));
    let id2 = g.add_history_node(HistoryNode::Linked {
        prev: id1,
        node: LinkedHistoryNode::Rhs { rhs: syms(&[1, 2, 3]) },
    });
    let id3 = g.add_history_node(HistoryNode::Linked {
        prev: id2,
        node: LinkedHistoryNode::Weight { weight: 0x3ff0000000000000 },
    });
    g.add_history_node(HistoryNode::Linked {
        prev: id3,
        node: LinkedHistoryNode::Binarize { depth: 1 },
    });
    let first = g.final_history();
    let second = g.final_history();
    assert_eq!(first, second);
}

#[test]
fn weight_precedence_and_distances_pass_through() {
    let mut g = HistoryGraph::new();
    let id1 = g.add_history_node(HistoryNode::Root(RootHistoryNode::Origin { origin: 2 }));
    let id2 = g.add_history_node(HistoryNode::Linked {
        prev: id1,
        node: LinkedHistoryNode::Weight { weight: 77 },
    });
    let id3 = g.add_history_node(HistoryNode::Linked {
        prev: id2,
        node: LinkedHistoryNode::AssignPrecedence { looseness: 4 },
    });
    let id4 = g.add_history_node(HistoryNode::Linked {
        prev: id3,
        node: LinkedHistoryNode::Distances { events: vec![1, 2, 3] },
    });
    let result = g.final_history();
    let last = &result[id4];
    assert_eq!(last.weight, Some(77));
    assert_eq!(last.origin(), Some(Symbol(2)));
    assert_eq!(last.dots.len(), 1);
    assert_eq!(last.dot(0).trace(), Some((2, 0)));
    assert_eq!(last.nullable(), None);
    assert_eq!(last.sequence, None);
}

#[test]
fn pending_sequence_is_consumed_by_next_rhs() {
    let elem = Symbol(20);
    let sep = Symbol(21);
    let mut g = HistoryGraph::new();
    let id1 = g.add_history_node(HistoryNode::Root(RootHistoryNode::Origin { origin: 1 }));
    let id2 = g.add_history_node(HistoryNode::Linked {
        prev: id1,
        node: LinkedHistoryNode::Rhs { rhs: vec![elem, sep] },
    });
    let id3 = g.add_history_node(HistoryNode::Linked {
        prev: id2,
        node: LinkedHistoryNode::RewriteSequence { top: true, rhs: elem, sep: Some(sep) },
    });
    let id4 = g.add_history_node(HistoryNode::Linked {
        prev: id3,
        node: LinkedHistoryNode::Rhs { rhs: vec![elem, sep, elem] },
    });
    let result = g.final_history();
    let with_pending = &result[id3];
    assert_eq!(with_pending.sequence.unwrap().rhs, elem);
    let last = &result[id4];
    assert_eq!(last.dots.len(), 4);
    assert_eq!(last.dot(0).trace(), Some((0, 0)));
    assert_eq!(last.dot(1).trace(), Some((0, 1)));
    assert_eq!(last.dot(2).trace(), Some((0, 2)));
    assert_eq!(last.dot(3).trace(), Some((0, 1)));
    assert_eq!(last.origin(), Some(Symbol(1)));
    assert_eq!(last.sequence, None);
    assert_eq!(last.nullable(), None);
    assert_eq!(last.weight, None);
}

#[test]
fn rhs_without_pending_sequence_resets_dots_to_positions() {
    let mut g = HistoryGraph::new();
    let id1 = g.add_history_node(HistoryNode::Root(RootHistoryNode::Origin { origin: 9 }));
    let id2 = g.add_history_node(HistoryNode::Linked {
        prev: id1,
        node: LinkedHistoryNode::Rhs { rhs: syms(&[5, 6, 7]) },
    });
    let result = g.final_history();
    let h = &result[id2];
    assert_eq!(h.dots.len(), 4);
    let mut pos: usize = 0;
    while pos < 4 {
        assert_eq!(h.dot(pos).trace(), Some((0, pos as u32)));
        pos += 1;
    }
    assert_eq!(h.origin(), Some(Symbol(9)));
}
