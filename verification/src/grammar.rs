//! A tracing grammar builder: records, for every rule and sequence rule
//! it accepts, an origin record in the provenance graph, so that the rules
//! the rewriter later emits can be traced back to the user's numbering.

use vstd::prelude::*;

use crate::graph::{HistoryGraph, HistoryId, HistoryNode, RootHistoryNode};
use crate::symbol::Symbol;

verus! {

/// A user rule as the tracing builder stores it: left-hand side,
/// right-hand side, and the origin record allocated for the rule.
#[derive(Clone, Debug, PartialEq)]
pub struct GrammarRule {
    /// The rule's left-hand-side symbol.
    pub lhs: Symbol,
    /// The rule's right-hand-side symbols.
    pub rhs: Vec<Symbol>,
    /// The provenance record allocated for this rule.
    pub history_id: HistoryId,
}

/// A sequence rule as the tracing builder stores it: one or more
/// repetitions of an element symbol, optionally separated.
#[derive(Clone, Copy, Debug, PartialEq)]
pub struct GrammarSequence {
    /// The sequence rule's left-hand-side symbol.
    pub lhs: Symbol,
    /// The repeated element symbol.
    pub element: Symbol,
    /// The separator symbol, if the sequence has one.
    pub separator: Option<Symbol>,
    /// The provenance record allocated for this sequence rule.
    pub history_id: HistoryId,
}

/// A grammar builder that traces relations between user-provided and
/// internal rules: every accepted rule gets an origin record carrying the
/// user's rule number, counted over plain and sequence rules together.
#[derive(Clone, Debug)]
pub struct Grammar {
    graph: HistoryGraph,
    rules: Vec<GrammarRule>,
    sequences: Vec<GrammarSequence>,
    start: Option<Symbol>,
}

impl Grammar {
    /// The provenance records collected so far.
    pub closed spec fn nodes(&self) -> Seq<HistoryNode> {
        self.graph@
    }

    /// The rules accepted so far.
    pub closed spec fn rule_list(&self) -> Seq<GrammarRule> {
        self.rules@
    }

    /// The sequence rules accepted so far.
    pub closed spec fn sequence_list(&self) -> Seq<GrammarSequence> {
        self.sequences@
    }

    /// The start symbol, if one was set.
    pub closed spec fn start_option(&self) -> Option<Symbol> {
        self.start
    }

    /// An empty grammar: no rules, no start symbol, and a provenance graph
    /// holding only the implicit root no-op record.
    pub fn new() -> (g: Self)
        ensures
            g.nodes().len() == 1,
            g.nodes()[0] == HistoryNode::Root(RootHistoryNode::NoOp),
            g.rule_list().len() == 0,
            g.sequence_list().len() == 0,
            g.start_option() is None,
    {
        Grammar {
            graph: HistoryGraph::new(),
            rules: Vec::new(),
            sequences: Vec::new(),
            start: None,
        }
    }

    /// Sets the start symbol.
    pub fn set_start(&mut self, start: Symbol)
        ensures
            final(self).start_option() == Some(start),
            final(self).nodes() == old(self).nodes(),
            final(self).rule_list() == old(self).rule_list(),
            final(self).sequence_list() == old(self).sequence_list(),
    {
        self.start = Some(start);
    }

    /// The start symbol; it must have been set.
    pub fn start(&self) -> (s: Symbol)
        requires
            self.start_option() is Some,
        ensures
            Some(s) == self.start_option(),
    {
        self.start.unwrap()
    }

    /// Accepts the rule `lhs -> rhs`, allocating an origin record that
    /// carries the rule's user-visible number: its position in the
    /// combined count of plain and sequence rules.
    pub fn rule(&mut self, lhs: Symbol, rhs: Vec<Symbol>) -> (id: HistoryId)
        requires
            old(self).rule_list().len() + old(self).sequence_list().len() <= usize::MAX,
        ensures
            id == old(self).nodes().len(),
            final(self).nodes() == old(self).nodes().push(
                (HistoryNode::Root(
                    RootHistoryNode::Origin {
                        origin: (old(self).rule_list().len() + old(
                            self,
                        ).sequence_list().len()) as usize,
                    },
                )),
            ),
            final(self).rule_list() == old(self).rule_list().push(
                (GrammarRule { lhs, rhs, history_id: id }),
            ),
            final(self).sequence_list() == old(self).sequence_list(),
            final(self).start_option() == old(self).start_option(),
    {
        let rule_count = self.rules.len() + self.sequences.len();
        let history_id = self.graph.add_history_node(
            HistoryNode::Root(RootHistoryNode::Origin { origin: rule_count }),
        );
        self.rules.push(GrammarRule { lhs, rhs, history_id });
        history_id
    }

    /// Accepts the sequence rule `lhs -> element ...` with an optional
    /// separator, allocating an origin record exactly as [`Self::rule`]
    /// does.
    pub fn sequence(&mut self, lhs: Symbol, element: Symbol, separator: Option<Symbol>) -> (id:
        HistoryId)
        requires
            old(self).rule_list().len() + old(self).sequence_list().len() <= usize::MAX,
        ensures
            id == old(self).nodes().len(),
            final(self).nodes() == old(self).nodes().push(
                (HistoryNode::Root(
                    RootHistoryNode::Origin {
                        origin: (old(self).rule_list().len() + old(
                            self,
                        ).sequence_list().len()) as usize,
                    },
                )),
            ),
            final(self).sequence_list() == old(self).sequence_list().push(
                (GrammarSequence { lhs, element, separator, history_id: id }),
            ),
            final(self).rule_list() == old(self).rule_list(),
            final(self).start_option() == old(self).start_option(),
    {
        let rule_count = self.rules.len() + self.sequences.len();
        let history_id = self.graph.add_history_node(
            HistoryNode::Root(RootHistoryNode::Origin { origin: rule_count }),
        );
        self.sequences.push(GrammarSequence { lhs, element, separator, history_id });
        history_id
    }

    /// Appends an arbitrary provenance record, as the grammar rewriter
    /// does while it transforms the accepted rules.
    pub fn add_history_node(&mut self, node: HistoryNode) -> (id: HistoryId)
        ensures
            id == old(self).nodes().len(),
            final(self).nodes() == old(self).nodes().push(node),
            final(self).rule_list() == old(self).rule_list(),
            final(self).sequence_list() == old(self).sequence_list(),
            final(self).start_option() == old(self).start_option(),
    {
        self.graph.add_history_node(node)
    }

    /// Read access to the provenance graph, for finalization.
    pub fn history_graph(&self) -> (graph: &HistoryGraph)
        ensures
            graph@ == self.nodes(),
    {
        &self.graph
    }

    /// The number of rules accepted so far, plain and sequence together:
    /// the origin number the next accepted rule would receive.
    pub fn rule_count(&self) -> (n: usize)
        requires
            self.rule_list().len() + self.sequence_list().len() <= usize::MAX,
        ensures
            n == self.rule_list().len() + self.sequence_list().len(),
    {
        self.rules.len() + self.sequences.len()
    }

    /// Read access to the rule stored at `index`.
    pub fn rule_at(&self, index: usize) -> (rule: &GrammarRule)
        requires
            index < self.rule_list().len(),
        ensures
            *rule == self.rule_list()[index as int],
    {
        &self.rules[index]
    }

    /// Read access to the sequence rule stored at `index`.
    pub fn sequence_at(&self, index: usize) -> (sequence: &GrammarSequence)
        requires
            index < self.sequence_list().len(),
        ensures
            *sequence == self.sequence_list()[index as int],
    {
        &self.sequences[index]
    }
}

impl Default for Grammar {
    fn default() -> (g: Self)
        ensures
            g.nodes().len() == 1,
            g.nodes()[0] == HistoryNode::Root(RootHistoryNode::NoOp),
            g.rule_list().len() == 0,
            g.sequence_list().len() == 0,
            g.start_option() is None,
    {
        Self::new()
    }
}

} // verus!
