//! The whole protocol session driven end to end: lines in through the
//! reader and the queue, commands consumed in order, search results
//! reported back.

use tei_core::engine::{BoardSnapshot, EngineAction, LoopStep, SearchOutcome, Session};
use tei_core::protocol::TeiCommand;
use tei_core::reader::CommandReader;
use tei_core::Color;

/// Feeds the lines through the reader and the real queue, then runs the
/// session on what arrives, answering every search request with the given
/// outcome. Returns every output line, in order.
fn run_session(lines: &[&str], outcome_move: Option<&str>) -> Vec<String> {
    let (tx, rx) = crossbeam_channel::unbounded();
    let reader = CommandReader::new(tx);
    let mut output: Vec<String> = Vec::new();
    for line in lines {
        let step = reader.process_line(line);
        output.extend(step.lines);
        if step.stop_reading {
            break;
        }
    }
    drop(reader);
    let mut session = Session::new(BoardSnapshot {
        reserve_white: 31,
        reserve_black: 31,
        side_to_move: Color::White,
    });
    while let Ok(cmd) = rx.try_recv() {
        let quit = matches!(cmd, TeiCommand::Quit);
        for act in session.handle_command(&cmd) {
            match act {
                EngineAction::Emit(s) => output.push(s),
                EngineAction::RunSearch(_) => {
                    let outcome = outcome_move.map(|m| SearchOutcome {
                        info: "nodes 1".to_string(),
                        best_move: Some(m.to_string()),
                    });
                    output.extend(session.search_finished(outcome));
                }
                EngineAction::ResetBoard
                | EngineAction::TryMove(_)
                | EngineAction::RequestStop
                | EngineAction::Terminate => {}
            }
        }
        if quit {
            break;
        }
    }
    output
}

#[test]
fn end_to_end_handshake_then_bestmove() {
    let out = run_session(
        &["tei", "isready", "position", "go wtime 5000 btime 5000", "quit"],
        Some("a1*"),
    );
    assert_eq!(out[0], "id name Topaz");
    assert_eq!(out[1], "id author Justin Kur");
    assert_eq!(out[2], "teiok");
    assert_eq!(out[3], "readyok");
    let best = out.iter().find(|l| l.starts_with("bestmove "));
    assert_eq!(best.map(|s| s.as_str()), Some("bestmove a1"));
    let info_at = out.iter().position(|l| l.starts_with("info ")).unwrap();
    let best_at = out.iter().position(|l| l.starts_with("bestmove ")).unwrap();
    assert!(3 < info_at && info_at < best_at);
}

#[test]
fn failed_search_reports_and_session_goes_on() {
    let out = run_session(&["tei", "go", "isready", "quit"], None);
    assert!(out.contains(&"Something went wrong, search failed!".to_string()));
    assert!(!out.iter().any(|l| l.starts_with("bestmove")));
}

#[test]
fn reader_reports_closed_queue() {
    let (tx, rx) = crossbeam_channel::unbounded::<TeiCommand>();
    let reader = CommandReader::new(tx);
    drop(rx);
    let step = reader.process_line("go wtime 1");
    assert!(step.stop_reading && step.channel_closed);
    let step = reader.process_line("isready");
    assert!(!step.stop_reading);
    assert_eq!(step.lines, vec!["readyok"]);
}

#[test]
fn loop_consumes_from_queue_and_ends_on_disconnect() {
    let (tx, rx) = crossbeam_channel::unbounded();
    let reader = CommandReader::new(tx);
    let _ = reader.process_line("stop");
    drop(reader);
    let mut session = Session::new(BoardSnapshot {
        reserve_white: 31,
        reserve_black: 31,
        side_to_move: Color::White,
    });
    match session.consume_next(&rx) {
        LoopStep::Actions(acts) => {
            assert_eq!(acts.len(), 1);
            assert!(matches!(acts[0], EngineAction::RequestStop));
        }
        LoopStep::Disconnected => panic!("the queued command was lost"),
    }
    assert!(matches!(session.consume_next(&rx), LoopStep::Disconnected));
}

#[test]
fn quit_stops_the_reader() {
    let (tx, _rx) = crossbeam_channel::unbounded::<TeiCommand>();
    let reader = CommandReader::new(tx);
    let step = reader.process_line("quit");
    assert!(step.stop_reading && !step.channel_closed);
}
