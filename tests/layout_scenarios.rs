use visualizer::geometry::{coordinates, Point};
use visualizer::layout::{build_layout, color_from_status, Color, Segment};
use visualizer::model::{
    BlockReference, Decision, DirectDecisionFields, IndirectDecisionFields, Log,
    ProposerSlotState, StatementBlock,
};
use visualizer::store::BlockStore;

fn block_ref(authority: i64, round: i64, label: &str) -> BlockReference {
    BlockReference { authority, round, label: label.to_string() }
}

fn block(r: &BlockReference, parents: &[&BlockReference]) -> StatementBlock {
    StatementBlock { reference: r.clone(), parents: parents.iter().map(|p| (*p).clone()).collect() }
}

fn two_blocks() -> (BlockReference, BlockReference, BlockStore) {
    let a = block_ref(0, 0, "A");
    let b = block_ref(0, 1, "B");
    let mut s = BlockStore::new();
    s.insert(block(&a, &[]));
    s.insert(block(&b, &[&a]));
    (a, b, s)
}

#[test]
fn one_parent_gives_one_edge() {
    let (_, _, s) = two_blocks();
    let l = build_layout(&s, &[]);
    assert_eq!(
        l.edges,
        vec![Segment { from: coordinates(0, 0), to: coordinates(0, 1), color: Color::White }]
    );
    assert_eq!(l.nodes.len(), 2);
}

#[test]
fn empty_history_is_neutral_without_status_line() {
    let (_, _, s) = two_blocks();
    let l = build_layout(&s, &[]);
    assert!(l.nodes.iter().all(|n| n.color == Color::Blue));
    assert!(l.edges.iter().all(|e| e.color == Color::White));
    assert!(l.status_line.is_none());
    assert!(l.anchor_note.is_none());
}

#[test]
fn direct_support_highlights_its_edge_only() {
    let a = block_ref(0, 0, "A");
    let b = block_ref(0, 1, "B");
    let c = block_ref(1, 1, "C");
    let mut s = BlockStore::new();
    s.insert(block(&a, &[]));
    s.insert(block(&b, &[&a]));
    s.insert(block(&c, &[&a]));
    let ds = vec![Decision {
        status: ProposerSlotState::Commit,
        block: a.clone(),
        log: Log::DirectDecision(DirectDecisionFields {
            certificate_blocks: vec!["B".to_string()],
            supporting_edges: vec![("A".to_string(), "B".to_string())],
        }),
    }];
    let l = build_layout(&s, &ds);
    assert_eq!(l.edges.len(), 2);
    assert_eq!(l.edges[0].color, Color::Green);
    assert_eq!(l.edges[1].color, Color::White);
    assert_eq!(l.nodes[0].color, Color::Green);
    assert_eq!(l.nodes[1].color, Color::Blue);
    let status = l.status_line.unwrap();
    assert_eq!(status.text, "\"A\": Commit DirectDecision, certificate blocks: [\"B\"]");
    assert_eq!(status.color, Color::Green);
    assert_eq!(status.at, Point { x: 150, y: 180 });
}

#[test]
fn indirect_anchor_note_keeps_node_color() {
    let a = block_ref(0, 0, "A");
    let b = block_ref(0, 1, "B");
    let mut s = BlockStore::new();
    s.insert(block(&a, &[]));
    s.insert(block(&b, &[&a]));
    let ds = vec![
        Decision { status: ProposerSlotState::Skip, block: a.clone(), log: Log::IncompleteWave },
        Decision {
            status: ProposerSlotState::Commit,
            block: b.clone(),
            log: Log::IndirectDecision(IndirectDecisionFields { anchor: "A".to_string(), edges: vec![] }),
        },
    ];
    let l = build_layout(&s, &ds);
    let note = l.anchor_note.clone().unwrap();
    assert_eq!(note.text, "Anchor: A");
    assert_eq!(note.at, Point { x: 180, y: 170 });
    assert_eq!(note.color, Color::Red);
    assert_eq!(l.nodes[0].label, "A");
    assert_eq!(l.nodes[0].color, Color::Red);
    assert_eq!(l.edges[0].color, Color::White);
    assert_eq!(
        l.status_line.unwrap().text,
        "\"B\": Commit IndirectDecision, anchor: A, edges: []"
    );
}

#[test]
fn status_line_quotes_label() {
    let (a, _, s) = two_blocks();
    let mut q = a.clone();
    q.label = "say \"hi\"".to_string();
    let ds = vec![Decision { status: ProposerSlotState::Skip, block: q, log: Log::Error }];
    let l = build_layout(&s, &ds);
    let st = l.status_line.unwrap();
    assert_eq!(st.text, "\"say \\\"hi\\\"\": Skip Error");
    assert_eq!(st.color, Color::Red);
}

#[test]
fn layout_is_deterministic() {
    let (a, _, s) = two_blocks();
    let ds = vec![Decision {
        status: ProposerSlotState::Commit,
        block: a,
        log: Log::IndirectDecision(IndirectDecisionFields {
            anchor: "A".to_string(),
            edges: vec![("A".to_string(), "B".to_string())],
        }),
    }];
    let l1 = build_layout(&s, &ds);
    let l2 = build_layout(&s, &ds);
    assert_eq!(format!("{:?}", l1), format!("{:?}", l2));
}

#[test]
fn status_colors() {
    assert_eq!(color_from_status(ProposerSlotState::Commit), Color::Green);
    assert_eq!(color_from_status(ProposerSlotState::Skip), Color::Red);
    assert_eq!(color_from_status(ProposerSlotState::Undecided), Color::Blue);
}

#[test]
fn block_without_parents_has_no_edges() {
    let mut s = BlockStore::new();
    s.insert(block(&block_ref(2, 0, "Z"), &[]));
    let l = build_layout(&s, &[]);
    assert!(l.edges.is_empty());
    assert_eq!(l.nodes[0].at, Point { x: 0, y: 65 });
}
