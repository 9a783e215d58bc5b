use orchestration::digest::Digest;
use orchestration::graph_projection::{
    project_tactic_decision_diagnostics, project_tactic_decision_graph, TacticDiagnosticRecord,
    TacticGraphEndpoint, TacticGraphNodeKey, TacticGraphTransition,
    TACTIC_CAMPAIGN_GRAPH_PROJECTION_SCHEMA_V1,
};

fn key(checkpoint: u8, state: u8) -> TacticGraphNodeKey {
    TacticGraphNodeKey { checkpoint_sha256: Digest([checkpoint; 32]), state_sha256: Digest([state; 32]) }
}

fn endpoint(checkpoint: u8, state: u8, terminal: bool) -> TacticGraphEndpoint {
    TacticGraphEndpoint {
        key: key(checkpoint, state),
        stage: "F_SP103".to_string(),
        room: 1,
        player_position_bits: Some([1.0f32.to_bits(), 2.0f32.to_bits(), 3.0f32.to_bits()]),
        terminal,
    }
}

fn transition(index: u64, from: (u8, u8), to: (u8, u8), terminal: bool) -> TacticGraphTransition {
    TacticGraphTransition {
        decision_index: index,
        episode_group: 1000 + index,
        before: endpoint(from.0, from.1, false),
        after: endpoint(to.0, to.1, terminal),
        option_id: format!("option-{index}"),
        reward_bits: 0.5f64.to_bits(),
        duration_ticks: 12,
        start_frame: 10 * index,
        end_frame_exclusive: 10 * index + 12,
    }
}

#[test]
fn chain_projects_sorted_connected_nodes() {
    let journal = vec![transition(0, (9, 9), (5, 5), false), transition(1, (5, 5), (1, 1), true)];
    let retained = vec![Digest([5; 32])];
    let graph = project_tactic_decision_graph(&journal, &retained).unwrap();
    assert_eq!(graph.schema, TACTIC_CAMPAIGN_GRAPH_PROJECTION_SCHEMA_V1);
    assert_eq!(graph.root_checkpoint_sha256, Digest([9; 32]));
    assert_eq!(graph.root_state_sha256, Digest([9; 32]));
    assert!(graph.root_connected);
    assert_eq!(graph.frontier_cells, 1);
    let order: Vec<u8> = graph.nodes.iter().map(|node| node.checkpoint_sha256.0[0]).collect();
    assert_eq!(order, vec![1, 5, 9]);
    assert!(graph.nodes[0].current && graph.nodes[0].terminal);
    assert!(!graph.nodes[1].current && graph.nodes[1].retained_frontier);
    assert!(!graph.nodes[2].retained_frontier);
    assert_eq!(graph.edges.len(), 2);
    assert_eq!(graph.edges[1].edge_index, 1);
    assert_eq!(graph.edges[1].option_id, "option-1");
    assert!(graph.edges[1].terminal);
    assert_eq!(graph.edges[1].source_checkpoint_sha256, Digest([5; 32]));
    assert_eq!(graph.edges[1].next_checkpoint_sha256, Digest([1; 32]));
}

#[test]
fn detached_transition_loses_root_connectivity() {
    let journal = vec![transition(0, (9, 9), (5, 5), false), transition(1, (7, 7), (3, 3), false)];
    let graph = project_tactic_decision_graph(&journal, &Vec::new()).unwrap();
    assert!(!graph.root_connected);
    assert_eq!(graph.nodes.len(), 4);
}

#[test]
fn a_node_is_reached_through_a_later_edge() {
    let journal = vec![
        transition(0, (2, 2), (3, 3), false),
        transition(1, (9, 9), (2, 2), false),
        transition(2, (9, 9), (4, 4), false),
    ];
    let graph = project_tactic_decision_graph(&journal, &Vec::new()).unwrap();
    assert!(!graph.root_connected);
    let rooted = vec![
        transition(0, (9, 9), (4, 4), false),
        transition(1, (2, 2), (3, 3), false),
        transition(2, (9, 9), (2, 2), false),
    ];
    let graph = project_tactic_decision_graph(&rooted, &Vec::new()).unwrap();
    assert!(graph.root_connected);
}

#[test]
fn empty_journal_has_no_root() {
    let error = project_tactic_decision_graph(&Vec::new(), &Vec::new()).unwrap_err();
    assert_eq!(error.message, "tactic graph has no root transition");
}

#[test]
fn disagreeing_endpoints_conflict() {
    let mut second = transition(1, (5, 5), (1, 1), false);
    second.before.room = 2;
    let journal = vec![transition(0, (9, 9), (5, 5), false), second];
    let error = project_tactic_decision_graph(&journal, &Vec::new()).unwrap_err();
    assert_eq!(error.message, "tactic decision journal has conflicting graph nodes");
}

#[test]
fn signed_zero_positions_agree_and_the_last_is_shown() {
    let mut first = transition(0, (9, 9), (5, 5), false);
    first.after.player_position_bits = Some([(-0.0f32).to_bits(), 0, 0]);
    let mut second = transition(1, (5, 5), (1, 1), false);
    second.before.player_position_bits = Some([0.0f32.to_bits(), 0, 0]);
    let graph = project_tactic_decision_graph(&vec![first, second], &Vec::new()).unwrap();
    let node = graph.nodes.iter().find(|node| node.checkpoint_sha256 == Digest([5; 32])).unwrap();
    assert_eq!(node.player_position_bits, Some([0.0f32.to_bits(), 0, 0]));
}

#[test]
fn a_revisited_nan_position_conflicts() {
    let mut first = transition(0, (9, 9), (5, 5), false);
    first.after.player_position_bits = Some([f32::NAN.to_bits(), 0, 0]);
    let mut second = transition(1, (5, 5), (1, 1), false);
    second.before.player_position_bits = Some([f32::NAN.to_bits(), 0, 0]);
    assert!(project_tactic_decision_graph(&vec![first, second], &Vec::new()).is_err());
}

fn record(group: u64, action: u8) -> TacticDiagnosticRecord {
    TacticDiagnosticRecord {
        episode_group: group,
        selected_action_sha256: Digest([action; 32]),
        logical_frontier_records: 0,
        directly_restorable_native_frontiers: 0,
        replay_only_frontiers: 0,
    }
}

#[test]
fn diagnostics_report_diversity_and_repetition() {
    let journal = vec![transition(0, (9, 9), (5, 5), false), transition(1, (7, 7), (3, 3), false)];
    let graph = project_tactic_decision_graph(&journal, &vec![Digest([5; 32])]).unwrap();
    let records = vec![record(1, 1), record(1, 2), record(2, 1), record(2, 2)];
    let diagnostics = project_tactic_decision_diagnostics(&records, &graph, false);
    assert_eq!(diagnostics.replay_rows, 4);
    assert_eq!(diagnostics.unique_selected_actions, 2);
    assert!(!diagnostics.zero_diversity_selection);
    assert!(diagnostics.repeated_identical_compositions);
    assert!(diagnostics.frontier_lost_root_connectivity);
    assert_eq!(diagnostics.logical_frontier_records, 4);
    assert_eq!(diagnostics.directly_restorable_native_frontiers, 0);
    assert_eq!(diagnostics.replay_only_frontiers, 1);

    let reordered = vec![record(1, 1), record(1, 2), record(2, 2), record(2, 1)];
    let diagnostics = project_tactic_decision_diagnostics(&reordered, &graph, true);
    assert!(!diagnostics.repeated_identical_compositions);
    assert!(diagnostics.no_progress_loop);

    let mut monotone = vec![record(1, 7), record(2, 7)];
    monotone[1].logical_frontier_records = 9;
    monotone[1].directly_restorable_native_frontiers = 4;
    monotone[1].replay_only_frontiers = 5;
    let diagnostics = project_tactic_decision_diagnostics(&monotone, &graph, false);
    assert!(diagnostics.zero_diversity_selection);
    assert!(diagnostics.repeated_identical_compositions);
    assert_eq!(
        (
            diagnostics.logical_frontier_records,
            diagnostics.directly_restorable_native_frontiers,
            diagnostics.replay_only_frontiers
        ),
        (9, 4, 5)
    );
}
