use tei_core::engine::{BoardSnapshot, EngineAction, SearchOutcome, Session};
use tei_core::protocol::TeiCommand;
use tei_core::Color;

fn snapshot(w: u32, b: u32, side: Color) -> BoardSnapshot {
    BoardSnapshot { reserve_white: w, reserve_black: b, side_to_move: side }
}

#[test]
fn go_computes_budget_from_reserves_and_clock() {
    let mut s = Session::new(snapshot(10, 12, Color::White));
    let cmd = TeiCommand::Go("go wtime 120000 btime 120000".to_string());
    let acts = s.handle_command(&cmd);
    assert_eq!(acts.len(), 1);
    // est_plies = 2 * min(10, 12) = 20; 120000 / 22 / 1000 = 5
    assert!(matches!(acts[0], EngineAction::RunSearch(5)));
}

#[test]
fn go_never_changes_the_board() {
    let before = snapshot(31, 31, Color::Black);
    let mut s = Session::new(before);
    let acts = s.handle_command(&TeiCommand::Go("go wtime 9000".to_string()));
    assert_eq!(s.board, before);
    assert!(matches!(acts[0], EngineAction::RunSearch(_)));
}

#[test]
fn position_plans_reset_then_each_token_in_order() {
    let mut s = Session::new(snapshot(31, 31, Color::White));
    let cmd = TeiCommand::Position("position a1 b1 c3".to_string());
    let acts = s.handle_command(&cmd);
    assert_eq!(acts.len(), 5);
    assert!(matches!(acts[0], EngineAction::ResetBoard));
    let toks: Vec<&str> = ["position", "a1", "b1", "c3"].to_vec();
    for (k, t) in toks.iter().enumerate() {
        match &acts[k + 1] {
            EngineAction::TryMove(m) => assert_eq!(m, t),
            _ => panic!("expected a move attempt"),
        }
    }
}

#[test]
fn bare_position_only_resets() {
    let mut s = Session::new(snapshot(31, 31, Color::White));
    let acts = s.handle_command(&TeiCommand::Position("position".to_string()));
    assert_eq!(acts.len(), 2);
    assert!(matches!(acts[0], EngineAction::ResetBoard));
    assert!(matches!(&acts[1], EngineAction::TryMove(m) if m.as_str() == "position"));
}

#[test]
fn failed_search_leaves_board_unchanged() {
    let before = snapshot(7, 9, Color::White);
    let mut s = Session::new(before);
    let _ = s.handle_command(&TeiCommand::Go("go".to_string()));
    let lines = s.search_finished(None);
    assert_eq!(s.board, before);
    assert_eq!(lines, vec!["Something went wrong, search failed!"]);

    let lines = s.search_finished(Some(SearchOutcome {
        info: "depth 3".to_string(),
        best_move: None,
    }));
    assert_eq!(s.board, before);
    assert_eq!(lines, vec!["Something went wrong, search failed!"]);
}

#[test]
fn successful_search_reports_move_with_markers_stripped() {
    let mut s = Session::new(snapshot(31, 31, Color::White));
    let lines = s.search_finished(Some(SearchOutcome {
        info: "depth 6 score 42".to_string(),
        best_move: Some("c3**".to_string()),
    }));
    assert_eq!(lines, vec!["info depth 6 score 42", "bestmove c3"]);
}

#[test]
fn stop_quit_and_unknown() {
    let mut s = Session::new(snapshot(31, 31, Color::White));
    let acts = s.handle_command(&TeiCommand::Stop);
    assert_eq!(acts.len(), 1);
    assert!(matches!(acts[0], EngineAction::RequestStop));
    let acts = s.handle_command(&TeiCommand::Quit);
    assert_eq!(acts.len(), 1);
    assert!(matches!(acts[0], EngineAction::Terminate));
    let acts = s.handle_command(&TeiCommand::Unknown("huh".to_string()));
    assert_eq!(acts.len(), 1);
    match &acts[0] {
        EngineAction::Emit(m) => assert_eq!(m, "Unknown command: huh"),
        _ => panic!("expected a diagnostic"),
    }
}

#[test]
fn board_changes_only_when_reported() {
    let mut s = Session::new(snapshot(31, 31, Color::White));
    let after = snapshot(30, 31, Color::Black);
    s.board_changed(after);
    assert_eq!(s.board, after);
}
