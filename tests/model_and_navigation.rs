use visualizer::geometry::{coordinates, Point};
use visualizer::index::{anchor_label, is_supporting_edge, status_of};
use visualizer::model::{
    BlockReference, Decision, DirectDecisionFields, IndirectDecisionFields, Log,
    ProposerSlotState, StatementBlock,
};
use visualizer::navigation::{command_for_char, Command, Cursor, Navigator, Policy};
use visualizer::store::BlockStore;
use visualizer::text::{show_log, show_status};

fn block_ref(authority: i64, round: i64, label: &str) -> BlockReference {
    BlockReference { authority, round, label: label.to_string() }
}

fn decision(status: ProposerSlotState, block: BlockReference, log: Log) -> Decision {
    Decision { status, block, log }
}

fn direct(edges: &[(&str, &str)]) -> Log {
    Log::DirectDecision(DirectDecisionFields {
        certificate_blocks: vec![],
        supporting_edges: edges.iter().map(|(a, b)| (a.to_string(), b.to_string())).collect(),
    })
}

#[test]
fn coordinates_exact_values() {
    assert_eq!(coordinates(0, 0), Point { x: 0, y: 165 });
    assert_eq!(coordinates(3, 2), Point { x: 300, y: 15 });
    assert_eq!(coordinates(1, 4), Point { x: 600, y: 115 });
    assert_eq!(coordinates(5, -1), Point { x: -150, y: -85 });
}

#[test]
fn coordinates_are_pure_and_rounds_move_right() {
    assert_eq!(coordinates(2, 7), coordinates(2, 7));
    for r in 0..10i64 {
        let a = coordinates(1, r);
        let b = coordinates(1, r + 1);
        assert!(a.x < b.x);
        assert_eq!(a.y, b.y);
    }
    assert!(coordinates(0, i64::MAX - 1).x < coordinates(0, i64::MAX).x);
}

#[test]
fn single_commit_decides_only_its_block() {
    let a = block_ref(0, 0, "A");
    let ds = vec![decision(ProposerSlotState::Commit, a.clone(), Log::IncompleteWave)];
    assert_eq!(status_of(&ds, &a), ProposerSlotState::Commit);
    assert_eq!(status_of(&ds, &block_ref(1, 0, "B")), ProposerSlotState::Undecided);
    assert_eq!(status_of(&ds, &block_ref(0, 0, "A2")), ProposerSlotState::Undecided);
    assert_eq!(status_of(&ds, &block_ref(0, 1, "A")), ProposerSlotState::Undecided);
}

#[test]
fn status_of_empty_history_is_undecided() {
    let ds: Vec<Decision> = vec![];
    assert_eq!(status_of(&ds, &block_ref(0, 0, "A")), ProposerSlotState::Undecided);
}

#[test]
fn status_of_uses_whole_history_and_earliest_match() {
    let a = block_ref(0, 0, "A");
    let b = block_ref(1, 0, "B");
    let ds = vec![
        decision(ProposerSlotState::Skip, a.clone(), Log::Error),
        decision(ProposerSlotState::Commit, b.clone(), Log::UnableToDecide),
        decision(ProposerSlotState::Commit, a.clone(), Log::IncompleteWave),
    ];
    assert_eq!(status_of(&ds, &a), ProposerSlotState::Skip);
    assert_eq!(status_of(&ds, &b), ProposerSlotState::Commit);
}

#[test]
fn supporting_edge_direct_either_direction() {
    let ds = vec![decision(ProposerSlotState::Commit, block_ref(0, 0, "A"), direct(&[("A", "B")]))];
    let a = "A".to_string();
    let b = "B".to_string();
    let c = "C".to_string();
    assert!(is_supporting_edge(&ds, &a, &b));
    assert!(is_supporting_edge(&ds, &b, &a));
    assert!(!is_supporting_edge(&ds, &a, &c));
    assert!(!is_supporting_edge(&ds, &a, &a));
}

#[test]
fn supporting_edge_only_latest_decision() {
    let ds = vec![
        decision(ProposerSlotState::Commit, block_ref(0, 0, "A"), direct(&[("A", "B")])),
        decision(ProposerSlotState::Skip, block_ref(0, 1, "C"), Log::IncompleteWave),
    ];
    assert!(!is_supporting_edge(&ds, &"A".to_string(), &"B".to_string()));
}

#[test]
fn supporting_edge_indirect_and_empty() {
    let log = Log::IndirectDecision(IndirectDecisionFields {
        anchor: "X".to_string(),
        edges: vec![("C".to_string(), "D".to_string())],
    });
    let ds = vec![decision(ProposerSlotState::Skip, block_ref(0, 0, "A"), log)];
    assert!(is_supporting_edge(&ds, &"D".to_string(), &"C".to_string()));
    assert!(!is_supporting_edge(&ds, &"C".to_string(), &"X".to_string()));
    let none: Vec<Decision> = vec![];
    assert!(!is_supporting_edge(&none, &"C".to_string(), &"D".to_string()));
}

#[test]
fn anchor_label_of_latest_decision() {
    let log = Log::IndirectDecision(IndirectDecisionFields { anchor: "A".to_string(), edges: vec![] });
    let ds = vec![decision(ProposerSlotState::Commit, block_ref(0, 2, "C"), log)];
    assert_eq!(anchor_label(&ds), Some("A".to_string()));
    let ds2 = vec![decision(ProposerSlotState::Commit, block_ref(0, 2, "C"), direct(&[]))];
    assert_eq!(anchor_label(&ds2), None);
    let none: Vec<Decision> = vec![];
    assert_eq!(anchor_label(&none), None);
}

#[test]
fn show_log_each_variant() {
    assert_eq!(show_log(&Log::IncompleteWave), "IncompleteWave");
    assert_eq!(show_log(&Log::Error), "Error");
    assert_eq!(show_log(&Log::UnableToDecide), "UnableToDecide");
    let d = Log::DirectDecision(DirectDecisionFields {
        certificate_blocks: vec!["a".to_string(), "b".to_string()],
        supporting_edges: vec![("a".to_string(), "c".to_string())],
    });
    assert_eq!(show_log(&d), "DirectDecision, certificate blocks: [\"a\", \"b\"]");
    let i = Log::IndirectDecision(IndirectDecisionFields {
        anchor: "A".to_string(),
        edges: vec![("A".to_string(), "B".to_string()), ("B".to_string(), "C".to_string())],
    });
    assert_eq!(show_log(&i), "IndirectDecision, anchor: A, edges: [(\"A\", \"B\"), (\"B\", \"C\")]");
}

#[test]
fn show_log_empty_lists_and_escapes() {
    let d = Log::DirectDecision(DirectDecisionFields { certificate_blocks: vec![], supporting_edges: vec![] });
    assert_eq!(show_log(&d), "DirectDecision, certificate blocks: []");
    let i = Log::IndirectDecision(IndirectDecisionFields { anchor: "A".to_string(), edges: vec![] });
    assert_eq!(show_log(&i), "IndirectDecision, anchor: A, edges: []");
    let q = Log::DirectDecision(DirectDecisionFields {
        certificate_blocks: vec!["x\"y".to_string()],
        supporting_edges: vec![],
    });
    assert_eq!(show_log(&q), "DirectDecision, certificate blocks: [\"x\\\"y\"]");
}

#[test]
fn show_status_names() {
    assert_eq!(show_status(ProposerSlotState::Commit), "Commit");
    assert_eq!(show_status(ProposerSlotState::Skip), "Skip");
    assert_eq!(show_status(ProposerSlotState::Undecided), "Undecided");
}

#[test]
fn store_insert_replaces_same_slot() {
    let mut s = BlockStore::new();
    assert_eq!(s.len(), 0);
    s.insert(StatementBlock { reference: block_ref(0, 0, "A"), parents: vec![] });
    s.insert(StatementBlock { reference: block_ref(1, 0, "B"), parents: vec![] });
    s.insert(StatementBlock { reference: block_ref(0, 0, "A'"), parents: vec![] });
    assert_eq!(s.len(), 2);
    assert_eq!(s.blocks()[0].reference.label, "A'");
    assert_eq!(s.blocks()[1].reference.label, "B");
}

#[test]
fn navigation_snapshot_policy_clamps() {
    let mut n = Navigator::new(Policy::Clamp, 3);
    assert_eq!(n.cursor(), Cursor::Active(0));
    n.retreat();
    assert_eq!(n.cursor(), Cursor::Active(0));
    n.advance();
    n.advance();
    assert_eq!(n.cursor(), Cursor::Active(2));
    n.advance();
    assert_eq!(n.cursor(), Cursor::Active(2));
    n.retreat();
    assert_eq!(n.cursor(), Cursor::Active(1));
    n.quit();
    assert_eq!(n.cursor(), Cursor::Terminated);
    assert!(n.is_terminated());
}

#[test]
fn navigation_replay_policy_terminates() {
    let mut n = Navigator::new(Policy::Exhaust, 2);
    n.retreat();
    assert_eq!(n.cursor(), Cursor::Active(0));
    n.advance();
    assert_eq!(n.cursor(), Cursor::Active(1));
    n.retreat();
    assert_eq!(n.cursor(), Cursor::Active(1));
    n.advance();
    assert_eq!(n.cursor(), Cursor::Terminated);
    n.advance();
    assert_eq!(n.cursor(), Cursor::Terminated);
}

#[test]
fn navigation_quit_from_every_state_and_empty() {
    let mut n = Navigator::new(Policy::Clamp, 0);
    assert!(n.is_terminated());
    n.quit();
    assert!(n.is_terminated());
    let mut m = Navigator::new(Policy::Exhaust, 5);
    m.apply(Command::Quit);
    assert_eq!(m.cursor(), Cursor::Terminated);
    assert_eq!(m.len(), 5);
    assert_eq!(m.policy(), Policy::Exhaust);
}

#[test]
fn key_bindings() {
    assert_eq!(command_for_char('q'), Some(Command::Quit));
    assert_eq!(command_for_char('h'), Some(Command::Retreat));
    assert_eq!(command_for_char('l'), Some(Command::Advance));
    assert_eq!(command_for_char('x'), None);
}
