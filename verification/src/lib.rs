//! Provenance tracking for grammar rewriting.
//!
//! While a context-free grammar is rewritten — right-hand sides split into
//! binary form, nulling symbols eliminated, sequence constructs expanded —
//! each rewrite step appends one record to an append-only provenance graph.
//! After all rewriting is done, a single replay pass turns every record into
//! a dot-trace value (a [`history::History`]) that maps the rewritten rule
//! back to the original rule and right-hand-side positions the user wrote.

pub mod classify;
pub mod grammar;
pub mod graph;
pub mod history;
pub mod symbol;

pub use classify::RuleUsefulness;
pub use grammar::{Grammar, GrammarRule, GrammarSequence};
pub use graph::{
    BinarizedRhsRange, HistoryGraph, HistoryId, HistoryNode, HistoryNodeAssignPrecedence,
    HistoryNodeBinarize, HistoryNodeEliminateNulling, HistoryNodeRewriteSequence, HistoryNodeRhs,
    HistoryNodeWeight, LinkedHistoryNode, RootHistoryNode,
};
pub use history::{History, HistoryView, RuleDot, SequenceDetails, SymKind};
pub use symbol::Symbol;
