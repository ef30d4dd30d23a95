use vstd::prelude::*;

use crate::geometry::{coordinates, spec_coordinates, Point};
use crate::index::{
    anchor_label, is_supporting_edge, spec_anchor_label, spec_is_supporting_edge, spec_status_of,
    status_of,
};
use crate::model::{BlockReference, Decision, ProposerSlotState, StatementBlock};
use crate::store::BlockStore;
use crate::text::{debug_str, log_text, quoted, show_log, show_status, status_text};

verus! {

/// The colours of the diagram, by what they mean: `Green` marks a committed slot or
/// a supporting edge, `Red` a skipped slot, `Blue` an undecided one, `White` an
/// ordinary edge.
#[derive(Clone, Copy, Debug, PartialEq, Eq, Structural)]
pub enum Color {
    Green,
    Red,
    Blue,
    White,
}

/// Where the summary of the latest decision is written, in tenths of a canvas unit.
pub const STATUS_X: i128 = 150;

pub const STATUS_Y: i128 = 180;

/// Where the anchor of an indirect decision is named, in tenths of a canvas unit.
pub const ANCHOR_X: i128 = 180;

pub const ANCHOR_Y: i128 = 170;

pub open spec fn spec_color_from_status(s: ProposerSlotState) -> Color {
    match s {
        ProposerSlotState::Commit => Color::Green,
        ProposerSlotState::Skip => Color::Red,
        ProposerSlotState::Undecided => Color::Blue,
    }
}

/// The colour that shows a slot's status.
pub fn color_from_status(s: ProposerSlotState) -> (c: Color)
    ensures
        c == spec_color_from_status(s),
{
    match s {
        ProposerSlotState::Commit => Color::Green,
        ProposerSlotState::Skip => Color::Red,
        ProposerSlotState::Undecided => Color::Blue,
    }
}

/// A block drawn as a labelled point.
#[derive(Clone, Debug)]
pub struct Node {
    pub label: String,
    pub at: Point,
    pub color: Color,
}

/// A line from a parent block to the block that cites it.
#[derive(Clone, Copy, Debug, PartialEq, Eq, Structural)]
pub struct Segment {
    pub from: Point,
    pub to: Point,
    pub color: Color,
}

/// A line of text on the canvas.
#[derive(Clone, Debug)]
pub struct Caption {
    pub text: String,
    pub at: Point,
    pub color: Color,
}

/// Everything the renderer draws for one step.
#[derive(Clone, Debug)]
pub struct DagLayout {
    pub nodes: Vec<Node>,
    pub edges: Vec<Segment>,
    pub status_line: Option<Caption>,
    pub anchor_note: Option<Caption>,
}

pub struct NodeView {
    pub label: Seq<char>,
    pub at: Point,
    pub color: Color,
}

pub struct CaptionView {
    pub text: Seq<char>,
    pub at: Point,
    pub color: Color,
}

pub struct LayoutView {
    pub nodes: Seq<NodeView>,
    pub edges: Seq<Segment>,
    pub status_line: Option<CaptionView>,
    pub anchor_note: Option<CaptionView>,
}

impl View for Node {
    type V = NodeView;

    open spec fn view(&self) -> NodeView {
        NodeView { label: self.label@, at: self.at, color: self.color }
    }
}

impl View for Caption {
    type V = CaptionView;

    open spec fn view(&self) -> CaptionView {
        CaptionView { text: self.text@, at: self.at, color: self.color }
    }
}

pub open spec fn caption_view(c: Option<Caption>) -> Option<CaptionView> {
    match c {
        Some(c) => Some(c@),
        None => None,
    }
}

impl View for DagLayout {
    type V = LayoutView;

    open spec fn view(&self) -> LayoutView {
        LayoutView {
            nodes: self.nodes@.map_values(|n: Node| n@),
            edges: self.edges@,
            status_line: caption_view(self.status_line),
            anchor_note: caption_view(self.anchor_note),
        }
    }
}

/// A block's node: its label at its slot's position, in the colour of its status.
pub open spec fn spec_node(ds: Seq<Decision>, b: StatementBlock) -> NodeView {
    NodeView {
        label: b.reference.label@,
        at: spec_coordinates(b.reference.authority, b.reference.round),
        color: spec_color_from_status(spec_status_of(ds, b.reference)),
    }
}

/// The edge from `parent` to `child`, highlighted when it supports the latest decision.
pub open spec fn spec_edge(ds: Seq<Decision>, parent: BlockReference, child: BlockReference) -> Segment {
    Segment {
        from: spec_coordinates(parent.authority, parent.round),
        to: spec_coordinates(child.authority, child.round),
        color: if spec_is_supporting_edge(ds, parent.label@, child.label@) {
            Color::Green
        } else {
            Color::White
        },
    }
}

/// The edges of one block, one per parent, in the order of its parents.
pub open spec fn block_edges(ds: Seq<Decision>, b: StatementBlock) -> Seq<Segment> {
    b.parents@.map_values(|p: BlockReference| spec_edge(ds, p, b.reference))
}

/// The edges of all blocks, block by block.
pub open spec fn spec_edges(ds: Seq<Decision>, bs: Seq<StatementBlock>) -> Seq<Segment>
    decreases bs.len(),
{
    if bs.len() == 0 {
        Seq::empty()
    } else {
        spec_edges(ds, bs.drop_last()) + block_edges(ds, bs.last())
    }
}

/// The summary of decision `d`: its block's quoted label, its status and its rationale.
pub open spec fn status_line_text(d: Decision) -> Seq<char> {
    debug_str(d.block.label@) + ": "@ + status_text(d.status) + " "@ + log_text(d.log)
}

pub open spec fn spec_status_line(ds: Seq<Decision>) -> Option<CaptionView> {
    if ds.len() == 0 {
        None
    } else {
        Some(
            CaptionView {
                text: status_line_text(ds.last()),
                at: Point { x: STATUS_X, y: STATUS_Y },
                color: spec_color_from_status(ds.last().status),
            },
        )
    }
}

/// The block is the anchor of the latest decision.
pub open spec fn is_anchor(ds: Seq<Decision>, b: StatementBlock) -> bool {
    spec_anchor_label(ds) == Some(b.reference.label@)
}

/// The note naming the anchor, in the colour of the anchor's own status, for the
/// first block at or after position `i` that is the anchor.
pub open spec fn anchor_note_from(ds: Seq<Decision>, bs: Seq<StatementBlock>, i: int) -> Option<
    CaptionView,
>
    decreases bs.len() - i,
{
    if i < 0 || i >= bs.len() {
        None
    } else if is_anchor(ds, bs[i]) {
        Some(
            CaptionView {
                text: "Anchor: "@ + bs[i].reference.label@,
                at: Point { x: ANCHOR_X, y: ANCHOR_Y },
                color: spec_color_from_status(spec_status_of(ds, bs[i].reference)),
            },
        )
    } else {
        anchor_note_from(ds, bs, i + 1)
    }
}

/// The draw-list of the blocks `bs` under the decisions `ds`.
pub open spec fn spec_layout(bs: Seq<StatementBlock>, ds: Seq<Decision>) -> LayoutView {
    LayoutView {
        nodes: bs.map_values(|b: StatementBlock| spec_node(ds, b)),
        edges: spec_edges(ds, bs),
        status_line: spec_status_line(ds),
        anchor_note: anchor_note_from(ds, bs, 0),
    }
}

/// The summary line of the latest decision.
fn status_caption(d: &Decision) -> (c: Caption)
    ensures
        c@ == (CaptionView {
            text: status_line_text(*d),
            at: Point { x: STATUS_X, y: STATUS_Y },
            color: spec_color_from_status(d.status),
        }),
{
    let mut text = quoted(&d.block.label);
    text.append(": ");
    let s = show_status(d.status);
    text.append(s.as_str());
    text.append(" ");
    let l = show_log(&d.log);
    text.append(l.as_str());
    Caption { text, at: Point { x: STATUS_X, y: STATUS_Y }, color: color_from_status(d.status) }
}

/// Lays out the blocks of `store` under the decisions `ds` (oldest first): one node
/// per block, one edge per parent reference, the summary of the latest decision, and
/// the note naming the latest decision's anchor.
pub fn build_layout(store: &BlockStore, ds: &[Decision]) -> (l: DagLayout)
    ensures
        l@ == spec_layout(store@, ds@),
{
    let bs = store.blocks();
    let anchor = anchor_label(ds);
    let mut nodes: Vec<Node> = Vec::new();
    let mut edges: Vec<Segment> = Vec::new();
    let mut anchor_note: Option<Caption> = None;
    let mut i: usize = 0;
    while i < bs.len()
        invariant
            bs@ == store@,
            i <= bs@.len(),
            crate::index::label_view(anchor) == spec_anchor_label(ds@),
            nodes@.len() == i,
            forall|k: int| 0 <= k < i ==> nodes@[k]@ == spec_node(ds@, bs@[k]),
            edges@ == spec_edges(ds@, bs@.take(i as int)),
            anchor_note is None ==> anchor_note_from(ds@, bs@, 0) == anchor_note_from(
                ds@,
                bs@,
                i as int,
            ),
            anchor_note is Some ==> caption_view(anchor_note) == anchor_note_from(ds@, bs@, 0),
        decreases bs@.len() - i,
    {
        let b = &bs[i];
        let status = status_of(ds, &b.reference);
        let color = color_from_status(status);
        let at = coordinates(b.reference.authority, b.reference.round);
        nodes.push(Node { label: b.reference.label.clone(), at, color });
        if anchor_note.is_none() {
            match &anchor {
                Some(a) => {
                    if *a == b.reference.label {
                        let mut text = String::from_str("Anchor: ");
                        text.append(b.reference.label.as_str());
                        anchor_note = Some(Caption { text, at: Point { x: ANCHOR_X, y: ANCHOR_Y }, color });
                    }
                },
                None => {},
            }
        }
        let ghost before = edges@;
        let mut j: usize = 0;
        while j < b.parents.len()
            invariant
                i < bs@.len(),
                b == bs@[i as int],
                at == spec_coordinates(b.reference.authority, b.reference.round),
                j <= b.parents@.len(),
                edges@ == before + block_edges(ds@, *b).take(j as int),
            decreases b.parents@.len() - j,
        {
            let p = &b.parents[j];
            let highlighted = is_supporting_edge(ds, &p.label, &b.reference.label);
            let seg = Segment {
                from: coordinates(p.authority, p.round),
                to: at,
                color: if highlighted {
                    Color::Green
                } else {
                    Color::White
                },
            };
            edges.push(seg);
            proof {
                assert(block_edges(ds@, *b).take(j + 1) =~= block_edges(ds@, *b).take(j as int).push(
                    seg,
                ));
            }
            j = j + 1;
        }
        proof {
            assert(block_edges(ds@, *b).take(b.parents@.len() as int) =~= block_edges(ds@, *b));
            assert(bs@.take(i + 1).drop_last() =~= bs@.take(i as int));
        }
        i = i + 1;
    }
    proof {
        assert(bs@.take(bs@.len() as int) =~= bs@);
    }
    let status_line = if ds.len() == 0 {
        None
    } else {
        Some(status_caption(&ds[ds.len() - 1]))
    };
    let l = DagLayout { nodes, edges, status_line, anchor_note };
    proof {
        assert(l@.nodes =~= spec_layout(store@, ds@).nodes);
    }
    l
}

} // verus!
