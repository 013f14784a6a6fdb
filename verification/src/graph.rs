//! The provenance graph: an append-only, ordered collection of
//! transformation records, one per rewrite event, addressed by insertion
//! index.

use vstd::prelude::*;

use crate::symbol::Symbol;

verus! {

/// Identifier of a record in the provenance graph: its insertion index.
/// Index 0 is taken by the implicit root no-op record, so every identifier
/// handed out for a new record is positive.
pub type HistoryId = usize;

/// Which part of an at-most-two-symbol right-hand side was found nulling
/// and removed.
#[derive(Clone, Copy, Debug, PartialEq, Eq, Structural)]
pub enum BinarizedRhsRange {
    /// The first of two symbols.
    Left,
    /// The second of two symbols.
    Right,
    /// All 1 or 2 symbols. The rule is nullable.
    All,
}

impl BinarizedRhsRange {
    /// The range of right-hand-side positions this part covers.
    pub fn as_range(self) -> (r: core::ops::Range<usize>)
        ensures
            (r.start, r.end) == (match self {
                BinarizedRhsRange::Left => (0usize, 1usize),
                BinarizedRhsRange::Right => (1usize, 2usize),
                BinarizedRhsRange::All => (0usize, 2usize),
            }),
    {
        match self {
            BinarizedRhsRange::Left => 0..1,
            BinarizedRhsRange::Right => 1..2,
            BinarizedRhsRange::All => 0..2,
        }
    }
}

/// A record that refines the record at `prev`: one rewrite applied to the
/// rule instance that `prev` describes.
#[derive(Clone, Debug)]
pub enum LinkedHistoryNode {
    /// The rule's right-hand side after the most recent rewrite.
    Rhs { rhs: Vec<Symbol> },
    /// This record is one binary-split piece, at nesting `depth`
    /// (0 = outermost), of a longer original right-hand side.
    Binarize { depth: u32 },
    /// One or both right-hand-side symbols were found nulling and removed;
    /// `which` identifies the removed part.
    EliminateNulling { rhs0: Symbol, rhs1: Option<Symbol>, which: BinarizedRhsRange },
    /// Precedence metadata; not needed for tracing.
    AssignPrecedence { looseness: u32 },
    /// The upcoming right-hand side is a piece of a sequence-construct
    /// expansion; `top` marks the outermost sequence rule.
    RewriteSequence { top: bool, rhs: Symbol, sep: Option<Symbol> },
    /// Attaches a rewrite weight. The weight is carried as an opaque 64-bit
    /// encoding chosen by the caller; the trace layer stores it and never
    /// interprets it.
    Weight { weight: u64 },
    /// Per-event minimal-distance annotations; consumed by a predictive-sets
    /// collaborator, passed through here.
    Distances { events: Vec<u32> },
}

/// A record without a predecessor: the start of a provenance chain.
#[derive(Clone, Copy, Debug)]
pub enum RootHistoryNode {
    /// No information.
    NoOp,
    /// Marks the start of a user rule. The left-hand-side symbol is builder
    /// bookkeeping; it is not used for tracing.
    Rule { lhs: Symbol },
    /// Marks the record as descending from original user rule number
    /// `origin`.
    Origin { origin: usize },
}

/// One record of the provenance graph.
#[derive(Clone, Debug)]
pub enum HistoryNode {
    /// A record with a predecessor, holding one rewrite event.
    Linked { prev: HistoryId, node: LinkedHistoryNode },
    /// A record without a predecessor.
    Root(RootHistoryNode),
}

/// The provenance graph itself. Records are only ever appended; the record
/// at index 0 is the implicit root no-op created on construction.
#[derive(Clone, Debug)]
pub struct HistoryGraph {
    pub(crate) nodes: Vec<HistoryNode>,
}

impl View for HistoryGraph {
    type V = Seq<HistoryNode>;

    closed spec fn view(&self) -> Seq<HistoryNode> {
        self.nodes@
    }
}

impl HistoryGraph {
    /// A graph containing only the implicit root no-op record at index 0.
    pub fn new() -> (graph: Self)
        ensures
            graph@.len() == 1,
            graph@[0] == HistoryNode::Root(RootHistoryNode::NoOp),
    {
        let mut nodes: Vec<HistoryNode> = Vec::new();
        nodes.push(HistoryNode::Root(RootHistoryNode::NoOp));
        HistoryGraph { nodes }
    }

    /// The identifier that the next appended record will receive.
    pub fn next_id(&mut self) -> (id: HistoryId)
        ensures
            *final(self) == *old(self),
            id == old(self)@.len(),
    {
        self.nodes.len()
    }

    /// Appends `node` and returns the identifier it was stored under.
    pub fn add_history_node(&mut self, node: HistoryNode) -> (id: HistoryId)
        ensures
            id == old(self)@.len(),
            final(self)@ == old(self)@.push(node),
    {
        let result = self.next_id();
        self.nodes.push(node);
        result
    }

    /// The number of records in the graph.
    pub fn len(&self) -> (n: usize)
        ensures
            n == self@.len(),
    {
        self.nodes.len()
    }

    /// Read access to the record stored under `id`.
    pub fn node(&self, id: HistoryId) -> (node: &HistoryNode)
        requires
            id < self@.len(),
        ensures
            *node == self@[id as int],
    {
        &self.nodes[id]
    }
}

impl Default for HistoryGraph {
    fn default() -> (graph: Self)
        ensures
            graph@.len() == 1,
            graph@[0] == HistoryNode::Root(RootHistoryNode::NoOp),
    {
        Self::new()
    }
}

/// Builder form of [`LinkedHistoryNode::Rhs`].
pub struct HistoryNodeRhs {
    pub prev: HistoryId,
    pub rhs: Vec<Symbol>,
}

/// Builder form of [`LinkedHistoryNode::Binarize`].
#[derive(Clone, Copy)]
pub struct HistoryNodeBinarize {
    pub prev: HistoryId,
    pub depth: u32,
}

/// Builder form of [`LinkedHistoryNode::Weight`].
#[derive(Clone, Copy)]
pub struct HistoryNodeWeight {
    pub prev: HistoryId,
    pub weight: u64,
}

/// Builder form of [`LinkedHistoryNode::EliminateNulling`].
#[derive(Clone, Copy)]
pub struct HistoryNodeEliminateNulling {
    pub prev: HistoryId,
    pub rhs0: Symbol,
    pub rhs1: Option<Symbol>,
    pub which: BinarizedRhsRange,
}

/// Builder form of [`LinkedHistoryNode::AssignPrecedence`].
#[derive(Clone, Copy)]
pub struct HistoryNodeAssignPrecedence {
    pub prev: HistoryId,
    pub looseness: u32,
}

/// Builder form of [`LinkedHistoryNode::RewriteSequence`].
#[derive(Clone, Copy)]
pub struct HistoryNodeRewriteSequence {
    pub prev: HistoryId,
    pub top: bool,
    pub rhs: Symbol,
    pub sep: Option<Symbol>,
}

impl From<RootHistoryNode> for HistoryNode {
    fn from(value: RootHistoryNode) -> (node: Self) {
        HistoryNode::Root(value)
    }
}

impl vstd::std_specs::convert::FromSpecImpl<RootHistoryNode> for HistoryNode {
    open spec fn obeys_from_spec() -> bool {
        true
    }

    open spec fn from_spec(value: RootHistoryNode) -> HistoryNode {
        HistoryNode::Root(value)
    }
}

impl From<HistoryNodeRhs> for HistoryNode {
    fn from(value: HistoryNodeRhs) -> (node: Self) {
        HistoryNode::Linked { prev: value.prev, node: LinkedHistoryNode::Rhs { rhs: value.rhs } }
    }
}

impl vstd::std_specs::convert::FromSpecImpl<HistoryNodeRhs> for HistoryNode {
    open spec fn obeys_from_spec() -> bool {
        true
    }

    open spec fn from_spec(value: HistoryNodeRhs) -> HistoryNode {
        HistoryNode::Linked { prev: value.prev, node: LinkedHistoryNode::Rhs { rhs: value.rhs } }
    }
}

impl From<HistoryNodeBinarize> for HistoryNode {
    fn from(value: HistoryNodeBinarize) -> (node: Self) {
        HistoryNode::Linked {
            prev: value.prev,
            node: LinkedHistoryNode::Binarize { depth: value.depth },
        }
    }
}

impl vstd::std_specs::convert::FromSpecImpl<HistoryNodeBinarize> for HistoryNode {
    open spec fn obeys_from_spec() -> bool {
        true
    }

    open spec fn from_spec(value: HistoryNodeBinarize) -> HistoryNode {
        HistoryNode::Linked {
            prev: value.prev,
            node: LinkedHistoryNode::Binarize { depth: value.depth },
        }
    }
}

impl From<HistoryNodeWeight> for HistoryNode {
    fn from(value: HistoryNodeWeight) -> (node: Self) {
        HistoryNode::Linked {
            prev: value.prev,
            node: LinkedHistoryNode::Weight { weight: value.weight },
        }
    }
}

impl vstd::std_specs::convert::FromSpecImpl<HistoryNodeWeight> for HistoryNode {
    open spec fn obeys_from_spec() -> bool {
        true
    }

    open spec fn from_spec(value: HistoryNodeWeight) -> HistoryNode {
        HistoryNode::Linked {
            prev: value.prev,
            node: LinkedHistoryNode::Weight { weight: value.weight },
        }
    }
}

impl From<HistoryNodeEliminateNulling> for HistoryNode {
    fn from(value: HistoryNodeEliminateNulling) -> (node: Self) {
        HistoryNode::Linked {
            prev: value.prev,
            node: LinkedHistoryNode::EliminateNulling {
                rhs0: value.rhs0,
                rhs1: value.rhs1,
                which: value.which,
            },
        }
    }
}

impl vstd::std_specs::convert::FromSpecImpl<HistoryNodeEliminateNulling> for HistoryNode {
    open spec fn obeys_from_spec() -> bool {
        true
    }

    open spec fn from_spec(value: HistoryNodeEliminateNulling) -> HistoryNode {
        HistoryNode::Linked {
            prev: value.prev,
            node: LinkedHistoryNode::EliminateNulling {
                rhs0: value.rhs0,
                rhs1: value.rhs1,
                which: value.which,
            },
        }
    }
}

impl From<HistoryNodeAssignPrecedence> for HistoryNode {
    fn from(value: HistoryNodeAssignPrecedence) -> (node: Self) {
        HistoryNode::Linked {
            prev: value.prev,
            node: LinkedHistoryNode::AssignPrecedence { looseness: value.looseness },
        }
    }
}

impl vstd::std_specs::convert::FromSpecImpl<HistoryNodeAssignPrecedence> for HistoryNode {
    open spec fn obeys_from_spec() -> bool {
        true
    }

    open spec fn from_spec(value: HistoryNodeAssignPrecedence) -> HistoryNode {
        HistoryNode::Linked {
            prev: value.prev,
            node: LinkedHistoryNode::AssignPrecedence { looseness: value.looseness },
        }
    }
}

impl From<HistoryNodeRewriteSequence> for HistoryNode {
    fn from(value: HistoryNodeRewriteSequence) -> (node: Self) {
        HistoryNode::Linked {
            prev: value.prev,
            node: LinkedHistoryNode::RewriteSequence {
                top: value.top,
                rhs: value.rhs,
                sep: value.sep,
            },
        }
    }
}

impl vstd::std_specs::convert::FromSpecImpl<HistoryNodeRewriteSequence> for HistoryNode {
    open spec fn obeys_from_spec() -> bool {
        true
    }

    open spec fn from_spec(value: HistoryNodeRewriteSequence) -> HistoryNode {
        HistoryNode::Linked {
            prev: value.prev,
            node: LinkedHistoryNode::RewriteSequence {
                top: value.top,
                rhs: value.rhs,
                sep: value.sep,
            },
        }
    }
}

} // verus!
