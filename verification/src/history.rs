//! Dot-trace values and the replay pass.
//!
//! Replay walks the provenance graph once, in insertion order, and turns
//! each record into a [`History`]: the finalized description of which
//! original rule and right-hand-side positions the record's rule instance
//! descends from. The meaning of every transformation is pinned down by the
//! spec functions in this module, with [`replay`] giving the value of any
//! record as a function of the graph alone.

use vstd::prelude::*;

use crate::graph::{
    BinarizedRhsRange, HistoryGraph, HistoryNode, LinkedHistoryNode, RootHistoryNode,
};
use crate::symbol::Symbol;

verus! {

/// An external origin: the original user rule a value descends from.
pub type ExternalOrigin = Option<Symbol>;

/// An optional event identifier attached to a dot.
pub type EventId = Option<Symbol>;

/// An optional minimal-distance marker attached to a dot.
pub type MinimalDistance = Option<Symbol>;

/// The symbol removed by nulling elimination, and whether it was the right
/// part of the right-hand side.
pub type NullingEliminated = Option<(Symbol, bool)>;

/// A dotted rule of the original grammar: rule number and position.
pub type ExternalDottedRule = (u32, u32);

/// An event with its minimal-distance marker, without tracing information.
pub type Event = (EventId, MinimalDistance);

/// How one symbol of a rewritten right-hand side relates to the sequence
/// construct being expanded.
#[derive(Clone, Copy, Debug, PartialEq, Eq, Structural)]
pub enum SymKind {
    /// The symbol equals the sequence's element symbol.
    Element,
    /// The symbol equals the sequence's separator symbol.
    Separator,
    /// Any other symbol.
    Other,
}

/// One right-hand-side position of a rule, holding an optional trace back
/// to an original dotted rule and an optional minimal-distance marker.
#[derive(Clone, Copy, Debug, PartialEq, Eq)]
pub struct RuleDot {
    /// The event at this dot: an optional event identifier together with
    /// the original dotted rule this position maps back to.
    pub event: Option<(EventId, ExternalDottedRule)>,
    /// The minimal-distance marker at this dot.
    pub distance: MinimalDistance,
}

/// Pending sequence-expansion metadata, stored by a rewrite-sequence record
/// and consumed by the next right-hand-side record on the same chain.
#[derive(Clone, Copy, Debug, PartialEq, Eq)]
pub struct SequenceDetails {
    /// Whether this is the outermost rule of the sequence expansion.
    pub top: bool,
    /// The sequence's element symbol.
    pub rhs: Symbol,
    /// The sequence's separator symbol, if any.
    pub sep: Option<Symbol>,
}

/// The finalized dot-trace value of one provenance record.
#[derive(Debug, PartialEq)]
pub struct History {
    /// One dot per right-hand-side position, including the end position.
    pub dots: Vec<RuleDot>,
    /// The original user rule this value descends from, if traceable.
    pub origin: ExternalOrigin,
    /// The symbol removed by nulling elimination, if any.
    pub nullable: NullingEliminated,
    /// The attached rewrite weight, if any, as an opaque 64-bit encoding.
    pub weight: Option<u64>,
    /// Pending sequence metadata awaiting the next right-hand side.
    pub sequence: Option<SequenceDetails>,
}

/// The mathematical value of a [`History`].
pub ghost struct HistoryView {
    /// The dots, as a sequence.
    pub dots: Seq<RuleDot>,
    /// See [`History::origin`].
    pub origin: ExternalOrigin,
    /// See [`History::nullable`].
    pub nullable: NullingEliminated,
    /// See [`History::weight`].
    pub weight: Option<u64>,
    /// See [`History::sequence`].
    pub sequence: Option<SequenceDetails>,
}

impl View for History {
    type V = HistoryView;

    open spec fn view(&self) -> HistoryView {
        HistoryView {
            dots: self.dots@,
            origin: self.origin,
            nullable: self.nullable,
            weight: self.weight,
            sequence: self.sequence,
        }
    }
}

/// The dot at position `pos`, tracing back to original rule number `id`.
pub open spec fn trace_dot(id: u32, pos: int) -> RuleDot {
    RuleDot { event: Some((None, (id, pos as u32))), distance: None }
}

/// A dot with no trace and no distance marker.
pub open spec fn none_dot() -> RuleDot {
    RuleDot { event: None, distance: None }
}

/// The fresh value for a rule of `len` symbols descending from original
/// rule number `id`: one trace dot per position, origin set to `id`.
pub open spec fn new_history(id: u32, len: int) -> HistoryView {
    HistoryView {
        dots: Seq::new((len + 1) as nat, |pos: int| trace_dot(id, pos)),
        origin: Some(Symbol(id)),
        nullable: None,
        weight: None,
        sequence: None,
    }
}

/// The value of a root record. A no-op root and a rule root carry no
/// origin information beyond the synthetic rule number 0; an origin root
/// descends from the given original rule number.
pub open spec fn root_history(root: RootHistoryNode) -> HistoryView {
    match root {
        RootHistoryNode::NoOp => new_history(0, 0),
        RootHistoryNode::Rule { .. } => new_history(0, 0),
        RootHistoryNode::Origin { origin } => new_history(origin as u32, 0),
    }
}

/// The three-slot dot window selected by binarization at nesting `depth`
/// from the carried dots.
pub open spec fn binarized_dots(dots: Seq<RuleDot>, depth: u32) -> Seq<RuleDot> {
    let l = dots.len() as int;
    if l == 0 {
        seq![none_dot(), none_dot(), none_dot()]
    } else if depth == 0 {
        if l == 2 {
            seq![dots[0], none_dot(), dots[1]]
        } else if l >= 3 {
            seq![dots[0], dots[l - 2], dots[l - 1]]
        } else {
            seq![dots[0], none_dot(), none_dot()]
        }
    } else {
        seq![none_dot(), dots[l - 2 - depth], none_dot()]
    }
}

/// The binarize transform: restructure the dots into the three-slot window
/// and keep the origin only for the outermost piece.
pub open spec fn binarize_spec(h: HistoryView, depth: u32) -> HistoryView {
    HistoryView {
        dots: binarized_dots(h.dots, depth),
        origin: if depth == 0 {
            h.origin
        } else {
            None
        },
        nullable: h.nullable,
        weight: h.weight,
        sequence: h.sequence,
    }
}

/// The symbol recorded as nulled: the second right-hand-side symbol when
/// the right part was removed, the first otherwise.
pub open spec fn nulled_symbol(rhs0: Symbol, rhs1: Option<Symbol>, which: BinarizedRhsRange) -> Symbol {
    if which is Right {
        rhs1.unwrap()
    } else {
        rhs0
    }
}

/// The eliminate-nulling transform. Removing the whole right-hand side
/// keeps only the origin; removing one side marks the removed symbol as
/// nullable and leaves everything else untouched.
pub open spec fn eliminate_nulling_spec(
    h: HistoryView,
    rhs0: Symbol,
    rhs1: Option<Symbol>,
    which: BinarizedRhsRange,
) -> HistoryView {
    if which is All {
        HistoryView {
            dots: Seq::empty(),
            origin: h.origin,
            nullable: None,
            weight: None,
            sequence: None,
        }
    } else {
        HistoryView {
            dots: h.dots,
            origin: h.origin,
            nullable: Some((nulled_symbol(rhs0, rhs1, which), which is Right)),
            weight: h.weight,
            sequence: h.sequence,
        }
    }
}

/// Classification of one symbol against the sequence metadata.
pub open spec fn sym_kind(details: SequenceDetails, sym: Symbol) -> SymKind {
    if sym == details.rhs {
        SymKind::Element
    } else if Some(sym) == details.sep {
        SymKind::Separator
    } else {
        SymKind::Other
    }
}

/// Classification at index `j` of the new right-hand side; positions before
/// the start and at or past the end act as the implicit `Other` sentinel.
pub open spec fn kind_at(details: SequenceDetails, new_rhs: Seq<Symbol>, j: int) -> SymKind {
    if 0 <= j < new_rhs.len() {
        sym_kind(details, new_rhs[j])
    } else {
        SymKind::Other
    }
}

/// Which carried dot a boundary between two classifications selects, if
/// any; the cases are checked in priority order, first match wins.
pub open spec fn pair_dot_index(to_left: SymKind, to_right: SymKind) -> Option<int> {
    if to_right is Separator {
        Some(1)
    } else if to_left is Separator {
        Some(2)
    } else if to_left is Element {
        Some(1)
    } else if to_right is Element {
        Some(0)
    } else {
        None
    }
}

/// The dot chosen at a boundary: the selected carried dot, or an empty dot
/// when the boundary selects none.
pub open spec fn pair_dot(dots: Seq<RuleDot>, to_left: SymKind, to_right: SymKind) -> RuleDot {
    match pair_dot_index(to_left, to_right) {
        Some(k) => dots[k],
        None => none_dot(),
    }
}

/// The dots produced by the sequence-rewrite transform: one per boundary
/// of the new right-hand side, including the trailing sentinel boundary.
pub open spec fn sequence_dots(
    details: SequenceDetails,
    dots: Seq<RuleDot>,
    new_rhs: Seq<Symbol>,
) -> Seq<RuleDot> {
    Seq::new(
        (new_rhs.len() + 1) as nat,
        |j: int| pair_dot(dots, kind_at(details, new_rhs, j - 1), kind_at(details, new_rhs, j)),
    )
}

/// The sequence-rewrite transform for an internal helper rule: new dots
/// from the boundary table, everything else reset.
pub open spec fn rewrite_sequence_bottom_spec(
    h: HistoryView,
    details: SequenceDetails,
    new_rhs: Seq<Symbol>,
) -> HistoryView {
    HistoryView {
        dots: sequence_dots(details, h.dots, new_rhs),
        origin: None,
        nullable: None,
        weight: None,
        sequence: None,
    }
}

/// The sequence-rewrite transform: only the outermost sequence rule keeps
/// traceability to the original rule.
pub open spec fn rewrite_sequence_spec(
    h: HistoryView,
    details: SequenceDetails,
    new_rhs: Seq<Symbol>,
) -> HistoryView {
    if details.top {
        HistoryView { origin: h.origin, ..rewrite_sequence_bottom_spec(h, details, new_rhs) }
    } else {
        rewrite_sequence_bottom_spec(h, details, new_rhs)
    }
}

/// Placeholder dots for a right-hand side of `len` symbols: each position
/// traces to position `pos` of the synthetic rule number 0.
pub open spec fn placeholder_dots(len: int) -> Seq<RuleDot> {
    Seq::new((len + 1) as nat, |pos: int| trace_dot(0, pos))
}

/// The right-hand-side transform: pending sequence metadata is consumed by
/// the sequence rewrite; otherwise the dots reset to placeholders, one per
/// position of the new right-hand side.
pub open spec fn rhs_spec(h: HistoryView, rhs: Seq<Symbol>) -> HistoryView {
    match h.sequence {
        Some(details) => rewrite_sequence_spec(h, details, rhs),
        None => HistoryView {
            dots: placeholder_dots(rhs.len() as int),
            origin: h.origin,
            nullable: h.nullable,
            weight: h.weight,
            sequence: None,
        },
    }
}

/// The value of a linked record, as a function of its payload and the
/// predecessor's value.
pub open spec fn linked_history(node: LinkedHistoryNode, h: HistoryView) -> HistoryView {
    match node {
        LinkedHistoryNode::Rhs { rhs } => rhs_spec(h, rhs@),
        LinkedHistoryNode::Binarize { depth } => binarize_spec(h, depth),
        LinkedHistoryNode::EliminateNulling { rhs0, rhs1, which } => eliminate_nulling_spec(
            h,
            rhs0,
            rhs1,
            which,
        ),
        LinkedHistoryNode::AssignPrecedence { .. } => h,
        LinkedHistoryNode::RewriteSequence { top, rhs, sep } => HistoryView {
            dots: h.dots,
            origin: h.origin,
            nullable: h.nullable,
            weight: h.weight,
            sequence: Some(SequenceDetails { top, rhs, sep }),
        },
        LinkedHistoryNode::Weight { weight } => HistoryView {
            dots: h.dots,
            origin: h.origin,
            nullable: h.nullable,
            weight: Some(weight),
            sequence: h.sequence,
        },
        LinkedHistoryNode::Distances { .. } => h,
    }
}

/// Whether the boundary at `j` reads a carried dot that exists.
pub open spec fn boundary_ok(
    details: SequenceDetails,
    dots: Seq<RuleDot>,
    new_rhs: Seq<Symbol>,
    j: int,
) -> bool {
    match pair_dot_index(kind_at(details, new_rhs, j - 1), kind_at(details, new_rhs, j)) {
        Some(k) => k < dots.len(),
        None => true,
    }
}

/// Whether the sequence rewrite over `new_rhs` reads only carried dots
/// that exist.
pub open spec fn sequence_step_ok(
    details: SequenceDetails,
    dots: Seq<RuleDot>,
    new_rhs: Seq<Symbol>,
) -> bool {
    forall|j: int| 0 <= j <= new_rhs.len() ==> #[trigger] boundary_ok(details, dots, new_rhs, j)
}

/// Whether a linked record's transform is total on the predecessor value
/// it is applied to; a graph built by a well-behaved rewriter satisfies
/// this at every record.
pub open spec fn linked_step_ok(node: LinkedHistoryNode, h: HistoryView) -> bool {
    match node {
        LinkedHistoryNode::Rhs { rhs } => h.sequence matches Some(details) ==> sequence_step_ok(
            details,
            h.dots,
            rhs@,
        ),
        LinkedHistoryNode::Binarize { depth } => h.dots.len() == 0 || depth == 0 || h.dots.len()
            >= depth + 2,
        LinkedHistoryNode::EliminateNulling { which, rhs1, .. } => which is Right ==> rhs1 is Some,
        _ => true,
    }
}

/// The value of record `i`, replayed from the graph alone: root records
/// start fresh, linked records transform their predecessor's value.
pub open spec fn replay(nodes: Seq<HistoryNode>, i: int) -> HistoryView
    decreases i,
{
    match nodes[i] {
        HistoryNode::Root(root) => root_history(root),
        HistoryNode::Linked { prev, node } => if prev < i {
            linked_history(node, replay(nodes, prev as int))
        } else {
            arbitrary()
        },
    }
}

/// Whether record `i` can be replayed: its predecessor, if any, comes
/// strictly earlier, and its transform is total on the predecessor value.
pub open spec fn node_ok(nodes: Seq<HistoryNode>, i: int) -> bool {
    match nodes[i] {
        HistoryNode::Root(_) => true,
        HistoryNode::Linked { prev, node } => prev < i && linked_step_ok(
            node,
            replay(nodes, prev as int),
        ),
    }
}

/// Whether a whole graph can be replayed. This is the invariant that the
/// grammar rewriter maintains by linking each new record to an existing
/// one; a graph that violates it broke the append-only contract.
pub open spec fn replayable(nodes: Seq<HistoryNode>) -> bool {
    forall|i: int| 0 <= i < nodes.len() ==> #[trigger] node_ok(nodes, i)
}

/// A fresh copy of a dot vector.
fn copy_dots(dots: &Vec<RuleDot>) -> (r: Vec<RuleDot>)
    ensures
        r@ == dots@,
{
    let mut r: Vec<RuleDot> = Vec::new();
    let mut i: usize = 0;
    while i < dots.len()
        invariant
            i <= dots@.len(),
            r@.len() == i,
            forall|k: int| 0 <= k < i ==> r@[k] == dots@[k],
        decreases dots@.len() - i,
    {
        r.push(dots[i]);
        i += 1;
    }
    proof {
        assert(r@ =~= dots@);
    }
    r
}

impl RuleDot {
    /// The trace dot for position `pos` of original rule number `id`.
    fn new(id: u32, pos: usize) -> (dot: Self)
        ensures
            dot == trace_dot(id, pos as int),
    {
        RuleDot { event: Some((None, (id, #[verifier::truncate] (pos as u32)))), distance: None }
    }

    /// A dot with no trace and no distance marker.
    pub fn none() -> (dot: Self)
        ensures
            dot == none_dot(),
    {
        RuleDot { event: None, distance: None }
    }

    /// The original dotted rule this dot maps back to, if traced.
    pub fn trace(self) -> (t: Option<ExternalDottedRule>)
        ensures
            t == (match self.event {
                Some(e) => Some(e.1),
                None => None::<ExternalDottedRule>,
            }),
    {
        match self.event {
            Some(e) => Some(e.1),
            None => None,
        }
    }

    /// The event at this dot, with its trace.
    pub fn event(self) -> (e: Option<(EventId, ExternalDottedRule)>)
        ensures
            e == self.event,
    {
        self.event
    }

    /// The event identifier and distance marker, without the trace.
    pub fn event_without_tracing(self) -> (e: Event)
        ensures
            e == ((match self.event {
                Some(ev) => ev.0,
                None => None::<Symbol>,
            }), self.distance),
    {
        let id = match self.event {
            Some(ev) => ev.0,
            None => None,
        };
        (id, self.distance)
    }

    /// The minimal-distance marker at this dot.
    pub fn distance(&self) -> (d: MinimalDistance)
        ensures
            d == self.distance,
    {
        self.distance
    }
}

impl Default for History {
    /// The empty value: no dots, no origin, no nullable marker, no weight,
    /// no pending sequence metadata.
    fn default() -> (h: Self)
        ensures
            h@.dots.len() == 0,
            h@.origin is None,
            h@.nullable is None,
            h@.weight is None,
            h@.sequence is None,
    {
        History { dots: Vec::new(), origin: None, nullable: None, weight: None, sequence: None }
    }
}

impl Clone for History {
    /// An equal, independently owned value.
    fn clone(&self) -> (h: Self)
        ensures
            h@ == self@,
    {
        History {
            dots: copy_dots(&self.dots),
            origin: self.origin,
            nullable: self.nullable,
            weight: self.weight,
            sequence: self.sequence,
        }
    }
}

impl History {
    /// The fresh value for a rule of `len` symbols descending from
    /// original rule number `id`.
    pub fn new(id: u32, len: usize) -> (h: Self)
        ensures
            h@ == new_history(id, len as int),
    {
        let mut dots: Vec<RuleDot> = Vec::new();
        let mut pos: usize = 0;
        while pos < len
            invariant
                pos <= len,
                dots@.len() == pos,
                forall|k: int| 0 <= k < pos ==> dots@[k] == trace_dot(id, k),
            decreases len - pos,
        {
            dots.push(RuleDot::new(id, pos));
            pos += 1;
        }
        dots.push(RuleDot::new(id, len));
        let h = History {
            dots,
            origin: Some(Symbol(id)),
            nullable: None,
            weight: None,
            sequence: None,
        };
        proof {
            assert(h@.dots =~= new_history(id, len as int).dots);
        }
        h
    }

    /// The original user rule this value descends from, if traceable.
    pub fn origin(&self) -> (o: ExternalOrigin)
        ensures
            o == self.origin,
    {
        self.origin
    }

    /// The symbol removed by nulling elimination, if any.
    pub fn nullable(&self) -> (n: NullingEliminated)
        ensures
            n == self.nullable,
    {
        self.nullable
    }

    /// The dot at position `n`.
    pub fn dot(&self, n: usize) -> (dot: RuleDot)
        requires
            n < self@.dots.len(),
        ensures
            dot == self@.dots[n as int],
    {
        self.dots[n]
    }

    /// The binarize transform at nesting `depth`; see [`binarize_spec`].
    pub fn binarize(&self, depth: u32) -> (h: Self)
        requires
            self@.dots.len() == 0 || depth == 0 || self@.dots.len() >= depth + 2,
        ensures
            h@ == binarize_spec(self@, depth),
    {
        let mut dots: Vec<RuleDot> = Vec::new();
        let l = self.dots.len();
        if l == 0 {
            dots.push(RuleDot::none());
            dots.push(RuleDot::none());
            dots.push(RuleDot::none());
        } else if depth == 0 {
            if l == 2 {
                dots.push(self.dots[0]);
                dots.push(RuleDot::none());
                dots.push(self.dots[1]);
            } else if l >= 3 {
                dots.push(self.dots[0]);
                dots.push(self.dots[l - 2]);
                dots.push(self.dots[l - 1]);
            } else {
                dots.push(self.dots[0]);
                dots.push(RuleDot::none());
                dots.push(RuleDot::none());
            }
        } else {
            dots.push(RuleDot::none());
            dots.push(self.dots[l - 2 - depth as usize]);
            dots.push(RuleDot::none());
        }
        let origin = if depth == 0 {
            self.origin
        } else {
            None
        };
        let h = History {
            dots,
            origin,
            nullable: self.nullable,
            weight: self.weight,
            sequence: self.sequence,
        };
        proof {
            assert(h@.dots =~= binarized_dots(self@.dots, depth));
        }
        h
    }

    /// The eliminate-nulling transform; see [`eliminate_nulling_spec`].
    pub fn eliminate_nulling(
        &self,
        rhs0: Symbol,
        rhs1: Option<Symbol>,
        which: BinarizedRhsRange,
    ) -> (h: Self)
        requires
            which is Right ==> rhs1 is Some,
        ensures
            h@ == eliminate_nulling_spec(self@, rhs0, rhs1, which),
    {
        if matches!(which, BinarizedRhsRange::All) {
            let h = History {
                dots: Vec::new(),
                origin: self.origin,
                nullable: None,
                weight: None,
                sequence: None,
            };
            proof {
                assert(h@.dots =~= Seq::<RuleDot>::empty());
            }
            h
        } else {
            let sym = if matches!(which, BinarizedRhsRange::Right) {
                rhs1.unwrap()
            } else {
                rhs0
            };
            History {
                dots: copy_dots(&self.dots),
                origin: self.origin,
                nullable: Some((sym, matches!(which, BinarizedRhsRange::Right))),
                weight: self.weight,
                sequence: self.sequence,
            }
        }
    }

    /// The sequence-rewrite transform; see [`rewrite_sequence_spec`].
    pub fn rewrite_sequence(&self, details: SequenceDetails, new_rhs: &[Symbol]) -> (h: Self)
        requires
            sequence_step_ok(details, self@.dots, new_rhs@),
        ensures
            h@ == rewrite_sequence_spec(self@, details, new_rhs@),
    {
        if details.top {
            self.rewrite_sequence_top(details, new_rhs)
        } else {
            self.rewrite_sequence_bottom(details, new_rhs)
        }
    }

    /// The sequence rewrite for the outermost sequence rule: as the
    /// internal rewrite, but traceability to the original rule is kept.
    pub fn rewrite_sequence_top(&self, details: SequenceDetails, new_rhs: &[Symbol]) -> (h: Self)
        requires
            sequence_step_ok(details, self@.dots, new_rhs@),
        ensures
            h@ == (HistoryView {
                origin: self@.origin,
                ..rewrite_sequence_bottom_spec(self@, details, new_rhs@)
            }),
    {
        let mut bottom = self.rewrite_sequence_bottom(details, new_rhs);
        bottom.origin = self.origin;
        bottom
    }

    /// The sequence rewrite for an internal helper rule; see
    /// [`rewrite_sequence_bottom_spec`].
    pub fn rewrite_sequence_bottom(&self, details: SequenceDetails, new_rhs: &[Symbol]) -> (h: Self)
        requires
            sequence_step_ok(details, self@.dots, new_rhs@),
        ensures
            h@ == rewrite_sequence_bottom_spec(self@, details, new_rhs@),
    {
        let len = new_rhs.len();
        let mut dots: Vec<RuleDot> = Vec::new();
        let mut to_left = SymKind::Other;
        let mut j: usize = 0;
        while j < len
            invariant
                len == new_rhs@.len(),
                j <= len,
                sequence_step_ok(details, self@.dots, new_rhs@),
                to_left == kind_at(details, new_rhs@, j as int - 1),
                dots@.len() == j,
                forall|k: int| 0 <= k < j ==> dots@[k] == pair_dot(
                    self@.dots,
                    kind_at(details, new_rhs@, k - 1),
                    kind_at(details, new_rhs@, k),
                ),
            decreases len - j,
        {
            let to_right = classify(details, new_rhs[j]);
            proof {
                assert(boundary_ok(details, self@.dots, new_rhs@, j as int));
            }
            dots.push(pick_dot(&self.dots, to_left, to_right));
            to_left = to_right;
            j += 1;
        }
        proof {
            assert(boundary_ok(details, self@.dots, new_rhs@, len as int));
        }
        dots.push(pick_dot(&self.dots, to_left, SymKind::Other));
        let h = History { dots, origin: None, nullable: None, weight: None, sequence: None };
        proof {
            assert(h@.dots =~= sequence_dots(details, self@.dots, new_rhs@));
        }
        h
    }
}

/// Law: in a replayable graph every linked record's predecessor comes
/// strictly earlier, so replay in insertion order never reads a value
/// that has not been produced yet.
pub proof fn lemma_predecessor_precedes(nodes: Seq<HistoryNode>, i: int)
    requires
        replayable(nodes),
        0 <= i < nodes.len(),
        nodes[i] matches HistoryNode::Linked { .. },
    ensures
        nodes[i] matches HistoryNode::Linked { prev, .. } && prev < i,
{
    assert(node_ok(nodes, i));
}

/// Law: the value of record `i` depends only on the records up to and
/// including `i` — replay reads no forward reference.
pub proof fn lemma_replay_reads_no_forward_reference(
    nodes1: Seq<HistoryNode>,
    nodes2: Seq<HistoryNode>,
    i: int,
)
    requires
        0 <= i < nodes1.len(),
        i < nodes2.len(),
        nodes1.subrange(0, i + 1) == nodes2.subrange(0, i + 1),
    ensures
        replay(nodes1, i) == replay(nodes2, i),
    decreases i,
{
    assert(nodes1[i] == nodes2[i]) by {
        assert(nodes1.subrange(0, i + 1)[i] == nodes1[i]);
        assert(nodes2.subrange(0, i + 1)[i] == nodes2[i]);
        assert(nodes1.subrange(0, i + 1)[i] == nodes2.subrange(0, i + 1)[i]);
    }
    match nodes1[i] {
        HistoryNode::Root(_) => {},
        HistoryNode::Linked { prev, node } => {
            if prev < i {
                assert(nodes1.subrange(0, prev as int + 1) == nodes2.subrange(
                    0,
                    prev as int + 1,
                )) by {
                    assert(nodes1.subrange(0, prev as int + 1) =~= nodes1.subrange(
                        0,
                        i + 1,
                    ).subrange(0, prev as int + 1));
                    assert(nodes2.subrange(0, prev as int + 1) =~= nodes2.subrange(
                        0,
                        i + 1,
                    ).subrange(0, prev as int + 1));
                }
                lemma_replay_reads_no_forward_reference(nodes1, nodes2, prev as int);
            }
        },
    }
}

/// Law: finalization is deterministic — any two value sequences that both
/// satisfy the replay postcondition are equal.
pub proof fn lemma_finalization_deterministic(
    nodes: Seq<HistoryNode>,
    r1: Seq<HistoryView>,
    r2: Seq<HistoryView>,
)
    requires
        r1.len() == nodes.len(),
        r2.len() == nodes.len(),
        forall|i: int| 0 <= i < nodes.len() ==> #[trigger] r1[i] == replay(nodes, i),
        forall|i: int| 0 <= i < nodes.len() ==> #[trigger] r2[i] == replay(nodes, i),
    ensures
        r1 == r2,
{
    assert(r1 =~= r2);
}

/// Law: a no-op root and a rule root produce identical values — a single
/// dot tracing to position 0 of rule number 0, and no origin information
/// beyond that synthetic rule number, no nullable, weight or sequence.
pub proof fn lemma_root_rule_like_no_op(lhs: Symbol)
    ensures
        root_history(RootHistoryNode::Rule { lhs }) == root_history(RootHistoryNode::NoOp),
        root_history(RootHistoryNode::NoOp).dots =~= seq![trace_dot(0, 0)],
        trace_dot(0, 0).event == Some((None::<Symbol>, (0u32, 0u32))),
        root_history(RootHistoryNode::NoOp).nullable is None,
        root_history(RootHistoryNode::NoOp).weight is None,
        root_history(RootHistoryNode::NoOp).sequence is None,
{
}

/// Law: an origin root produces a single dot whose trace carries the
/// given original rule number, and sets the origin field to that number.
pub proof fn lemma_root_origin(origin: u32)
    ensures
        root_history(RootHistoryNode::Origin { origin: origin as usize }).origin == Some(
            Symbol(origin),
        ),
        root_history(RootHistoryNode::Origin { origin: origin as usize }).dots =~= seq![
            trace_dot(origin, 0),
        ],
        trace_dot(origin, 0).event == Some((None::<Symbol>, (origin, 0u32))),
        root_history(RootHistoryNode::Origin { origin: origin as usize }).nullable is None,
        root_history(RootHistoryNode::Origin { origin: origin as usize }).weight is None,
        root_history(RootHistoryNode::Origin { origin: origin as usize }).sequence is None,
{
}

/// Law: the binarize transform selects its three-slot dot window exactly
/// by the documented table, keeps the origin only at depth 0, and leaves
/// the remaining fields untouched.
pub proof fn lemma_binarize_table(h: HistoryView, depth: u32)
    ensures
        h.dots.len() == 0 ==> binarize_spec(h, depth).dots =~= seq![
            none_dot(),
            none_dot(),
            none_dot(),
        ],
        depth == 0 && h.dots.len() == 2 ==> binarize_spec(h, depth).dots =~= seq![
            h.dots[0],
            none_dot(),
            h.dots[1],
        ],
        depth == 0 && h.dots.len() >= 3 ==> binarize_spec(h, depth).dots =~= seq![
            h.dots[0],
            h.dots[h.dots.len() - 2],
            h.dots[h.dots.len() - 1],
        ],
        depth == 0 && h.dots.len() == 1 ==> binarize_spec(h, depth).dots =~= seq![
            h.dots[0],
            none_dot(),
            none_dot(),
        ],
        depth > 0 && h.dots.len() > 0 ==> binarize_spec(h, depth).dots =~= seq![
            none_dot(),
            h.dots[h.dots.len() - 2 - depth],
            none_dot(),
        ],
        depth == 0 ==> binarize_spec(h, depth).origin == h.origin,
        depth > 0 ==> binarize_spec(h, depth).origin is None,
        binarize_spec(h, depth).nullable == h.nullable,
        binarize_spec(h, depth).weight == h.weight,
        binarize_spec(h, depth).sequence == h.sequence,
{
}

/// Law: eliminating the whole right-hand side clears the dots, nullable
/// marker, weight and sequence metadata but preserves the origin.
pub proof fn lemma_eliminate_nulling_all(h: HistoryView, rhs0: Symbol, rhs1: Option<Symbol>)
    ensures
        eliminate_nulling_spec(h, rhs0, rhs1, BinarizedRhsRange::All).origin == h.origin,
        eliminate_nulling_spec(h, rhs0, rhs1, BinarizedRhsRange::All).dots =~= Seq::<
            RuleDot,
        >::empty(),
        eliminate_nulling_spec(h, rhs0, rhs1, BinarizedRhsRange::All).nullable is None,
        eliminate_nulling_spec(h, rhs0, rhs1, BinarizedRhsRange::All).weight is None,
        eliminate_nulling_spec(h, rhs0, rhs1, BinarizedRhsRange::All).sequence is None,
{
}

/// Law: eliminating the right part marks the second symbol as nulled on
/// the right; eliminating the left part marks the first symbol as nulled
/// on the left; everything else carries over unchanged.
pub proof fn lemma_eliminate_nulling_sides(
    h: HistoryView,
    rhs0: Symbol,
    rhs1: Symbol,
    any_rhs1: Option<Symbol>,
)
    ensures
        eliminate_nulling_spec(h, rhs0, Some(rhs1), BinarizedRhsRange::Right).nullable == Some(
            (rhs1, true),
        ),
        eliminate_nulling_spec(h, rhs0, any_rhs1, BinarizedRhsRange::Left).nullable == Some(
            (rhs0, false),
        ),
        eliminate_nulling_spec(h, rhs0, Some(rhs1), BinarizedRhsRange::Right).dots == h.dots,
        eliminate_nulling_spec(h, rhs0, Some(rhs1), BinarizedRhsRange::Right).origin == h.origin,
        eliminate_nulling_spec(h, rhs0, Some(rhs1), BinarizedRhsRange::Right).weight == h.weight,
        eliminate_nulling_spec(h, rhs0, Some(rhs1), BinarizedRhsRange::Right).sequence
            == h.sequence,
        eliminate_nulling_spec(h, rhs0, any_rhs1, BinarizedRhsRange::Left).dots == h.dots,
        eliminate_nulling_spec(h, rhs0, any_rhs1, BinarizedRhsRange::Left).origin == h.origin,
        eliminate_nulling_spec(h, rhs0, any_rhs1, BinarizedRhsRange::Left).weight == h.weight,
        eliminate_nulling_spec(h, rhs0, any_rhs1, BinarizedRhsRange::Left).sequence == h.sequence,
{
}

/// Law: a right-hand-side record always produces one dot per position of
/// the new right-hand side, including the end position — whether the dots
/// come from a pending sequence rewrite or from placeholder regeneration.
pub proof fn lemma_rhs_one_dot_per_position(h: HistoryView, rhs: Seq<Symbol>)
    ensures
        rhs_spec(h, rhs).dots.len() == rhs.len() + 1,
{
}

/// Law: the sequence rewrite of an outermost sequence rule preserves the
/// pre-transform origin; an internal helper rule never has an origin.
pub proof fn lemma_sequence_rewrite_origin(
    h: HistoryView,
    details: SequenceDetails,
    new_rhs: Seq<Symbol>,
)
    ensures
        details.top ==> rewrite_sequence_spec(h, details, new_rhs).origin == h.origin,
        !details.top ==> rewrite_sequence_spec(h, details, new_rhs).origin is None,
{
}

/// Classification of one symbol against the sequence metadata.
fn classify(details: SequenceDetails, sym: Symbol) -> (k: SymKind)
    ensures
        k == sym_kind(details, sym),
{
    if sym == details.rhs {
        SymKind::Element
    } else {
        let is_sep = match details.sep {
            Some(s) => s == sym,
            None => false,
        };
        if is_sep {
            SymKind::Separator
        } else {
            SymKind::Other
        }
    }
}

/// Whether `node` can be processed against the values already produced
/// for its predecessors.
pub open spec fn node_prev_ok(node: HistoryNode, prevs: Seq<History>) -> bool {
    match node {
        HistoryNode::Root(_) => true,
        HistoryNode::Linked { prev, node } => prev < prevs.len() && linked_step_ok(
            node,
            prevs[prev as int]@,
        ),
    }
}

/// The value of `node`, given the values already produced for its
/// predecessors.
pub open spec fn node_history(node: HistoryNode, prevs: Seq<History>) -> HistoryView {
    match node {
        HistoryNode::Root(root) => root_history(root),
        HistoryNode::Linked { prev, node } => linked_history(node, prevs[prev as int]@),
    }
}

/// The value of a root record; see [`root_history`].
pub fn process_root(root_node: RootHistoryNode) -> (h: History)
    ensures
        h@ == root_history(root_node),
{
    match root_node {
        RootHistoryNode::NoOp => History::new(0, 0),
        RootHistoryNode::Rule { .. } => History::new(0, 0),
        RootHistoryNode::Origin { origin } => History::new(
            #[verifier::truncate] (origin as u32),
            0,
        ),
    }
}

/// The value of a linked record, from its payload and its predecessor's
/// value; see [`linked_history`].
pub fn process_linked(linked_node: &LinkedHistoryNode, prev_history: &History) -> (h: History)
    requires
        linked_step_ok(*linked_node, prev_history@),
    ensures
        h@ == linked_history(*linked_node, prev_history@),
{
    match linked_node {
        LinkedHistoryNode::AssignPrecedence { .. } => prev_history.clone(),
        LinkedHistoryNode::Binarize { depth } => prev_history.binarize(*depth),
        LinkedHistoryNode::EliminateNulling { rhs0, rhs1, which } => prev_history
            .eliminate_nulling(*rhs0, *rhs1, *which),
        LinkedHistoryNode::RewriteSequence { top, rhs, sep } => History {
            dots: copy_dots(&prev_history.dots),
            origin: prev_history.origin,
            nullable: prev_history.nullable,
            weight: prev_history.weight,
            sequence: Some(SequenceDetails { top: *top, rhs: *rhs, sep: *sep }),
        },
        LinkedHistoryNode::Weight { weight } => History {
            dots: copy_dots(&prev_history.dots),
            origin: prev_history.origin,
            nullable: prev_history.nullable,
            weight: Some(*weight),
            sequence: prev_history.sequence,
        },
        LinkedHistoryNode::Rhs { rhs } => match prev_history.sequence {
            Some(details) => prev_history.rewrite_sequence(details, rhs.as_slice()),
            None => {
                let len = rhs.len();
                let mut dots: Vec<RuleDot> = Vec::new();
                let mut pos: usize = 0;
                while pos < len
                    invariant
                        pos <= len,
                        dots@.len() == pos,
                        forall|k: int| 0 <= k < pos ==> dots@[k] == trace_dot(0, k),
                    decreases len - pos,
                {
                    dots.push(RuleDot::new(0, pos));
                    pos += 1;
                }
                dots.push(RuleDot::new(0, len));
                let h = History {
                    dots,
                    origin: prev_history.origin,
                    nullable: prev_history.nullable,
                    weight: prev_history.weight,
                    sequence: None,
                };
                proof {
                    assert(h@.dots =~= placeholder_dots(rhs@.len() as int));
                }
                h
            },
        },
        LinkedHistoryNode::Distances { .. } => prev_history.clone(),
    }
}

/// The value of one record, given the values already produced for all
/// earlier records.
pub fn process_node(node: &HistoryNode, prev_histories: &[History]) -> (h: History)
    requires
        node_prev_ok(*node, prev_histories@),
    ensures
        h@ == node_history(*node, prev_histories@),
{
    match node {
        HistoryNode::Linked { prev, node: linked_node } => {
            let prev_history = &prev_histories[*prev];
            process_linked(linked_node, prev_history)
        },
        HistoryNode::Root(root) => process_root(*root),
    }
}

impl HistoryGraph {
    /// Replays the whole graph in insertion order, producing the finalized
    /// dot-trace value of every record: the value at index `i` is
    /// `replay(graph, i)`.
    pub fn final_history(&self) -> (result: Vec<History>)
        requires
            replayable(self@),
        ensures
            result@.len() == self@.len(),
            forall|i: int| 0 <= i < self@.len() ==> (#[trigger] result@[i])@ == replay(self@, i),
    {
        let mut result: Vec<History> = Vec::new();
        let n = self.len();
        let mut i: usize = 0;
        while i < n
            invariant
                replayable(self@),
                n == self@.len(),
                i <= n,
                result@.len() == i,
                forall|j: int| 0 <= j < i ==> (#[trigger] result@[j])@ == replay(self@, j),
            decreases n - i,
        {
            let node = self.node(i);
            proof {
                assert(node_ok(self@, i as int));
            }
            let h = process_node(node, result.as_slice());
            result.push(h);
            i += 1;
        }
        result
    }
}

/// The dot chosen at one boundary of the sequence rewrite.
fn pick_dot(dots: &Vec<RuleDot>, to_left: SymKind, to_right: SymKind) -> (d: RuleDot)
    requires
        pair_dot_index(to_left, to_right) matches Some(k) ==> k < dots@.len(),
    ensures
        d == pair_dot(dots@, to_left, to_right),
{
    if matches!(to_right, SymKind::Separator) {
        dots[1]
    } else if matches!(to_left, SymKind::Separator) {
        dots[2]
    } else if matches!(to_left, SymKind::Element) {
        dots[1]
    } else if matches!(to_right, SymKind::Element) {
        dots[0]
    } else {
        RuleDot::none()
    }
}

} // verus!
