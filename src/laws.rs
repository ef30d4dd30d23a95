use vstd::prelude::*;

use crate::geometry::{spec_coordinates, Point};
use crate::index::{cites, spec_status_of, status_from};
use crate::layout::{
    anchor_note_from, block_edges, is_anchor, Segment, spec_color_from_status, spec_edge, spec_edges, spec_layout,
    Color, LayoutView, ANCHOR_X, ANCHOR_Y,
};
use crate::model::{BlockReference, Decision, ProposerSlotState, StatementBlock};
use crate::navigation::{next_cursor, Command, Cursor, Policy};

verus! {

/// Coordinates depend on the slot alone: equal slots give equal positions. Along one
/// authority's lane a later round lies strictly further right, at the same height.
pub proof fn coordinates_law(a1: i64, r1: i64, a2: i64, r2: i64)
    ensures
        a1 == a2 && r1 == r2 ==> spec_coordinates(a1, r1) == spec_coordinates(a2, r2),
        a1 == a2 && r1 < r2 ==> spec_coordinates(a1, r1).x < spec_coordinates(a2, r2).x,
        a1 == a2 ==> spec_coordinates(a1, r1).y == spec_coordinates(a2, r2).y,
{
}

/// A block of round 0 and a block of round 1 that cites it as its only parent, both
/// of authority 0, give exactly one edge: from the first block's position to the
/// second's.
pub proof fn single_parent_edge_law(a: StatementBlock, b: StatementBlock, ds: Seq<Decision>)
    requires
        a.reference.round == 0 && a.reference.authority == 0,
        b.reference.round == 1 && b.reference.authority == 0,
        a.parents@.len() == 0,
        b.parents@ == seq![a.reference],
    ensures
        spec_layout(seq![a, b], ds).edges.len() == 1,
        spec_layout(seq![a, b], ds).edges[0].from == spec_coordinates(0, 0),
        spec_layout(seq![a, b], ds).edges[0].to == spec_coordinates(0, 1),
{
    let bs = seq![a, b];
    assert(bs.drop_last() =~= seq![a]);
    assert(seq![a].drop_last() =~= Seq::<StatementBlock>::empty());
    assert(block_edges(ds, a) =~= Seq::<Segment>::empty());
    assert(block_edges(ds, b) =~= seq![spec_edge(ds, a.reference, b.reference)]);
    assert(seq![a].last() == a);
    assert(spec_edges(ds, Seq::<StatementBlock>::empty()) =~= Seq::<Segment>::empty());
    assert(spec_edges(ds, seq![a]) == spec_edges(ds, Seq::<StatementBlock>::empty()) + block_edges(ds, a));
    assert(spec_edges(ds, seq![a]) =~= Seq::<Segment>::empty());
    assert(bs.last() == b);
    assert(spec_edges(ds, bs) =~= seq![spec_edge(ds, a.reference, b.reference)]);
}

/// With a single `Commit` decision for block `a`, `a` is committed and every other
/// block is undecided.
pub proof fn single_commit_status_law(d: Decision, a: BlockReference, other: BlockReference)
    requires
        d.status == ProposerSlotState::Commit,
        d.block.same_as(a),
        !a.same_as(other),
    ensures
        spec_status_of(seq![d], a) == ProposerSlotState::Commit,
        spec_status_of(seq![d], other) == ProposerSlotState::Undecided,
{
    assert(status_from(seq![d], other, 1) == ProposerSlotState::Undecided);
}

/// When the latest decision is direct and cites the single edge `(x, y)`, an edge is
/// highlighted exactly when it joins the blocks labelled `x` and `y`, in either
/// direction; every other edge keeps the ordinary colour.
pub proof fn direct_support_highlight_law(
    ds: Seq<Decision>,
    x: Seq<char>,
    y: Seq<char>,
    parent: BlockReference,
    child: BlockReference,
)
    requires
        ds.len() > 0,
        ds.last().log is DirectDecision,
        ds.last().log->DirectDecision_0.supporting_edges@.len() == 1,
        ds.last().log->DirectDecision_0.supporting_edges@[0].0@ == x,
        ds.last().log->DirectDecision_0.supporting_edges@[0].1@ == y,
    ensures
        spec_edge(ds, parent, child).color == (if (parent.label@ == x && child.label@ == y) || (
        parent.label@ == y && child.label@ == x) {
            Color::Green
        } else {
            Color::White
        }),
{
    let es = ds.last().log->DirectDecision_0.supporting_edges@;
    let p = parent.label@;
    let c = child.label@;
    if (p == x && c == y) || (p == y && c == x) {
        assert(cites(es, p, c));
    }
}

/// When the latest decision is indirect with anchor `x` and a block labelled `x` is
/// laid out, the anchor note names `x`, and the anchor's node keeps the colour of its
/// own status.
pub proof fn anchor_note_law(bs: Seq<StatementBlock>, ds: Seq<Decision>, x: Seq<char>, j: int)
    requires
        ds.len() > 0,
        ds.last().log is IndirectDecision,
        ds.last().log->IndirectDecision_0.anchor@ == x,
        0 <= j < bs.len(),
        bs[j].reference.label@ == x,
    ensures
        spec_layout(bs, ds).anchor_note is Some,
        spec_layout(bs, ds).anchor_note->0.text == "Anchor: "@ + x,
        spec_layout(bs, ds).anchor_note->0.at == (Point { x: ANCHOR_X, y: ANCHOR_Y }),
        spec_layout(bs, ds).nodes[j].label == x,
        spec_layout(bs, ds).nodes[j].color == spec_color_from_status(
            spec_status_of(ds, bs[j].reference),
        ),
{
    anchor_note_reaches(bs, ds, x, j, 0);
}

proof fn anchor_note_reaches(bs: Seq<StatementBlock>, ds: Seq<Decision>, x: Seq<char>, j: int, i: int)
    requires
        ds.len() > 0,
        ds.last().log is IndirectDecision,
        ds.last().log->IndirectDecision_0.anchor@ == x,
        0 <= i <= j < bs.len(),
        bs[j].reference.label@ == x,
    ensures
        anchor_note_from(ds, bs, i) is Some,
        anchor_note_from(ds, bs, i)->0.text == "Anchor: "@ + x,
        anchor_note_from(ds, bs, i)->0.at == (Point { x: ANCHOR_X, y: ANCHOR_Y }),
    decreases j - i,
{
    assert(is_anchor(ds, bs[j]));
    if !is_anchor(ds, bs[i]) {
        anchor_note_reaches(bs, ds, x, j, i + 1);
    }
}

/// Retreating from the first step changes nothing, advancing from the last step stays
/// there under `Clamp` and ends the session under `Exhaust`, and quitting ends the
/// session from every state.
pub proof fn navigation_bounds_law(policy: Policy, len: nat, c: Cursor)
    requires
        len > 0,
    ensures
        next_cursor(policy, len, Cursor::Active(0), Command::Retreat) == Cursor::Active(0),
        policy == Policy::Exhaust ==> next_cursor(policy, len, Cursor::Active(1), Command::Retreat)
            == Cursor::Active(1),
        len <= usize::MAX ==> next_cursor(
            Policy::Clamp,
            len,
            Cursor::Active((len - 1) as usize),
            Command::Advance,
        ) == Cursor::Active((len - 1) as usize),
        len <= usize::MAX ==> next_cursor(
            Policy::Exhaust,
            len,
            Cursor::Active((len - 1) as usize),
            Command::Advance,
        ) == Cursor::Terminated,
        next_cursor(policy, len, c, Command::Quit) == Cursor::Terminated,
{
}

/// Laying out the same blocks under the same decisions twice gives the same draw-list.
pub proof fn layout_determinism_law(
    bs: Seq<StatementBlock>,
    ds: Seq<Decision>,
    first: LayoutView,
    second: LayoutView,
)
    requires
        first == spec_layout(bs, ds),
        second == spec_layout(bs, ds),
    ensures
        first == second,
{
}

} // verus!
