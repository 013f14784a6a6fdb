use cfg_history::{
    BinarizedRhsRange, Grammar, HistoryGraph, HistoryNode, HistoryNodeBinarize,
    HistoryNodeWeight, LinkedHistoryNode, RootHistoryNode, RuleUsefulness, Symbol,
};

#[test]
fn fresh_graph_has_root_no_op() {
    let mut g = HistoryGraph::new();
    assert_eq!(g.len(), 1);
    assert!(matches!(g.node(0), HistoryNode::Root(RootHistoryNode::NoOp)));
    assert_eq!(g.next_id(), 1);
}

#[test]
fn appended_nodes_get_increasing_ids() {
    let mut g = HistoryGraph::new();
    let id1 = g.add_history_node(HistoryNode::Root(RootHistoryNode::Origin { origin: 0 }));
    let id2 = g.add_history_node(HistoryNode::Linked {
        prev: id1,
        node: LinkedHistoryNode::Binarize { depth: 0 },
    });
    assert_eq!(id1, 1);
    assert_eq!(id2, 2);
    assert_eq!(g.len(), 3);
    assert_eq!(g.next_id(), 3);
}

#[test]
fn builder_nodes_convert_to_linked_records() {
    let node: HistoryNode = HistoryNodeBinarize { prev: 3, depth: 2 }.into();
    match node {
        HistoryNode::Linked { prev, node: LinkedHistoryNode::Binarize { depth } } => {
            assert_eq!(prev, 3);
            assert_eq!(depth, 2);
        }
        _ => panic!("expected a linked binarize record"),
    }
    let node: HistoryNode = HistoryNodeWeight { prev: 1, weight: 50 }.into();
    match node {
        HistoryNode::Linked { prev, node: LinkedHistoryNode::Weight { weight } } => {
            assert_eq!(prev, 1);
            assert_eq!(weight, 50);
        }
        _ => panic!("expected a linked weight record"),
    }
    let node: HistoryNode = RootHistoryNode::NoOp.into();
    assert!(matches!(node, HistoryNode::Root(RootHistoryNode::NoOp)));
}

#[test]
fn binarized_rhs_range_covers_documented_positions() {
    let r = BinarizedRhsRange::Left.as_range();
    assert_eq!((r.start, r.end), (0, 1));
    let r = BinarizedRhsRange::Right.as_range();
    assert_eq!((r.start, r.end), (1, 2));
    let r = BinarizedRhsRange::All.as_range();
    assert_eq!((r.start, r.end), (0, 2));
}

#[test]
fn usefulness_verdict() {
    let both = RuleUsefulness { reachable: true, productive: true };
    assert!(!both.is_useless());
    let unreachable = RuleUsefulness { reachable: false, productive: true };
    assert!(unreachable.is_useless());
    let unproductive = RuleUsefulness { reachable: true, productive: false };
    assert!(unproductive.is_useless());
    let neither = RuleUsefulness { reachable: false, productive: false };
    assert!(neither.is_useless());
}

#[test]
fn grammar_tracks_start_symbol() {
    let mut g = Grammar::new();
    g.set_start(Symbol(5));
    assert_eq!(g.start(), Symbol(5));
}

#[test]
fn grammar_rules_get_consecutive_origin_numbers() {
    let mut g = Grammar::new();
    let id1 = g.rule(Symbol(0), vec![Symbol(1), Symbol(2)]);
    let id2 = g.sequence(Symbol(3), Symbol(1), Some(Symbol(4)));
    let id3 = g.rule(Symbol(0), vec![Symbol(3)]);
    assert_eq!(id1, 1);
    assert_eq!(id2, 2);
    assert_eq!(id3, 3);
    assert_eq!(g.rule_count(), 3);

    let graph = g.history_graph();
    assert_eq!(graph.len(), 4);
    match graph.node(id1) {
        HistoryNode::Root(RootHistoryNode::Origin { origin }) => assert_eq!(*origin, 0),
        _ => panic!("expected an origin record"),
    }
    match graph.node(id2) {
        HistoryNode::Root(RootHistoryNode::Origin { origin }) => assert_eq!(*origin, 1),
        _ => panic!("expected an origin record"),
    }
    match graph.node(id3) {
        HistoryNode::Root(RootHistoryNode::Origin { origin }) => assert_eq!(*origin, 2),
        _ => panic!("expected an origin record"),
    }

    let rule = g.rule_at(0);
    assert_eq!(rule.lhs, Symbol(0));
    assert_eq!(rule.rhs, vec![Symbol(1), Symbol(2)]);
    assert_eq!(rule.history_id, id1);
    let seq_rule = g.sequence_at(0);
    assert_eq!(seq_rule.lhs, Symbol(3));
    assert_eq!(seq_rule.element, Symbol(1));
    assert_eq!(seq_rule.separator, Some(Symbol(4)));
    assert_eq!(seq_rule.history_id, id2);
}

#[test]
fn grammar_finalizes_through_its_graph() {
    let mut g = Grammar::new();
    let id = g.rule(Symbol(0), vec![Symbol(1), Symbol(2)]);
    let rhs_id = g.add_history_node(HistoryNode::Linked {
        prev: id,
        node: LinkedHistoryNode::Rhs { rhs: vec![Symbol(1), Symbol(2)] },
    });
    let result = g.history_graph().final_history();
    assert_eq!(result.len(), 3);
    assert_eq!(result[rhs_id].origin(), Some(Symbol(0)));
    assert_eq!(result[rhs_id].dots.len(), 3);
}
