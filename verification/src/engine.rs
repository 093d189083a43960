//! The engine loop's state machine: one command in, board actions and
//! protocol output out. The board, move legality and the search belong to
//! the outside engine; the session reads them only as plain values and
//! directs them through actions.

use vstd::prelude::*;
use crate::clock::{time_left_spec, TimeLeft};
use crate::protocol::{CommandModel, TeiCommand};
use crate::text::{
    concat_str, drop_trailing_stars, split_ws, split_ws_spec, trim_end_stars, views_of,
};
use crate::Color;

verus! {

/// What the session reads from the engine's board: the two reserves (the
/// proxy for game length) and whose turn it is.
#[derive(Clone, Copy, PartialEq, Eq, Structural, Debug)]
pub struct BoardSnapshot {
    pub reserve_white: u32,
    pub reserve_black: u32,
    pub side_to_move: Color,
}

/// What one search produced: diagnostic text, and the best move if the
/// search found one. A missing best move is a failure state, not an error.
pub struct SearchOutcome {
    pub info: String,
    pub best_move: Option<String>,
}

/// One thing the session asks its driver to do, in order.
pub enum EngineAction {
    /// Print this protocol line.
    Emit(String),
    /// Put the board back to the initial position.
    ResetBoard,
    /// Parse this token against the current board; apply it if well-formed,
    /// skip it otherwise.
    TryMove(String),
    /// Run the search on the current board with this time budget (ms),
    /// reusing the carried-over search-support storage.
    RunSearch(u64),
    /// Ask the collaborator to end an in-flight search early.
    RequestStop,
    /// End the session cleanly.
    Terminate,
}

/// The model of a session action.
pub enum EngineActionModel {
    Emit(Seq<char>),
    ResetBoard,
    TryMove(Seq<char>),
    RunSearch(int),
    RequestStop,
    Terminate,
}

impl View for EngineAction {
    type V = EngineActionModel;

    open spec fn view(&self) -> EngineActionModel {
        match self {
            EngineAction::Emit(s) => EngineActionModel::Emit(s@),
            EngineAction::ResetBoard => EngineActionModel::ResetBoard,
            EngineAction::TryMove(s) => EngineActionModel::TryMove(s@),
            EngineAction::RunSearch(b) => EngineActionModel::RunSearch(*b as int),
            EngineAction::RequestStop => EngineActionModel::RequestStop,
            EngineAction::Terminate => EngineActionModel::Terminate,
        }
    }
}

/// The views of a vector of actions.
pub open spec fn action_views(v: Seq<EngineAction>) -> Seq<EngineActionModel> {
    v.map_values(|a: EngineAction| a@)
}

/// Twice the smaller reserve: the estimate of plies left in the game.
pub open spec fn est_plies_spec(b: BoardSnapshot) -> int {
    if b.reserve_white <= b.reserve_black {
        2 * b.reserve_white as int
    } else {
        2 * b.reserve_black as int
    }
}

/// The time budget a `go` command with parameters `s` earns on board `b`.
pub open spec fn go_budget_spec(b: BoardSnapshot, s: Seq<char>) -> int {
    let t = time_left_spec(s);
    t.bank_of(b.side_to_move) as int / (est_plies_spec(b) + 2) / 1000 + t.inc_of(
        b.side_to_move,
    ) as int / 1000
}

/// The replay plan of a `position` command: reset, then each whitespace
/// token of the line tried in order through the board's own mutation.
pub open spec fn replay_plan_spec(s: Seq<char>) -> Seq<EngineActionModel> {
    seq![EngineActionModel::ResetBoard] + split_ws_spec(s).map_values(
        |t: Seq<char>| EngineActionModel::TryMove(t),
    )
}

/// A `position` replay touches the board only through the board's own
/// mutation operation, sequentially: one reset, then exactly the
/// command's whitespace tokens, each as a move attempt, in command order.
pub proof fn lemma_replay_in_order(s: Seq<char>, k: int)
    requires
        0 <= k < split_ws_spec(s).len(),
    ensures
        replay_plan_spec(s).len() == split_ws_spec(s).len() + 1,
        replay_plan_spec(s)[0] == EngineActionModel::ResetBoard,
        replay_plan_spec(s)[k + 1] == EngineActionModel::TryMove(split_ws_spec(s)[k]),
{
}

/// What one command asks of the driver, on a given board.
pub open spec fn actions_for(board: BoardSnapshot, cm: CommandModel) -> Seq<EngineActionModel> {
    match cm {
        CommandModel::Go(s) => seq![EngineActionModel::RunSearch(go_budget_spec(board, s))],
        CommandModel::Position(s) => replay_plan_spec(s),
        CommandModel::Stop => seq![EngineActionModel::RequestStop],
        CommandModel::Quit => seq![EngineActionModel::Terminate],
        CommandModel::Unknown(s) => seq![EngineActionModel::Emit("Unknown command: "@ + s)],
    }
}

/// The lines printed when a search ends: on success the diagnostic line
/// and the best move with trailing markers stripped; on failure (no
/// outcome, or an outcome without a best move) one failure report.
pub open spec fn search_report_spec(outcome: Option<SearchOutcome>) -> Seq<Seq<char>> {
    match outcome {
        Some(o) => match o.best_move {
            Some(m) => seq!["info "@ + o.info@, "bestmove "@ + drop_trailing_stars(m@)],
            None => seq!["Something went wrong, search failed!"@],
        },
        None => seq!["Something went wrong, search failed!"@],
    }
}

/// The protocol session: it owns the authoritative board (held by the
/// engine; mirrored here as the plain values the control logic reads).
pub struct Session {
    pub board: BoardSnapshot,
}

#[verifier::external_type_specification]
#[verifier::external_body]
#[verifier::reject_recursive_types(T)]
pub struct ExReceiver<T>(crossbeam_channel::Receiver<T>);

/// Relies on crossbeam_channel::Receiver::recv: it blocks until a message
/// is available, delivers messages in the order they were sent, and
/// returns an error exactly when the channel is empty and every sender
/// has been dropped. Which command arrives is outside this crate's
/// reasoning, so nothing is promised of the value.
#[verifier::external_body]
fn recv_command(chan: &crossbeam_channel::Receiver<TeiCommand>) -> (r: Option<TeiCommand>) {
    match chan.recv() {
        Ok(c) => Some(c),
        Err(_) => None,
    }
}

/// How one engine-loop iteration ended.
pub enum LoopStep {
    /// The queue disconnected before `quit`: the session failed.
    Disconnected,
    /// One command was consumed; the driver performs these in order.
    Actions(Vec<EngineAction>),
}

impl Session {
    /// A session over a board in the initial position, as the driver
    /// reports it.
    pub fn new(initial: BoardSnapshot) -> (r: Session)
        ensures
            r.board == initial,
    {
        Session { board: initial }
    }

    /// The driver reports the board after it performed a replay plan.
    pub fn board_changed(&mut self, snapshot: BoardSnapshot)
        ensures
            final(self).board == snapshot,
    {
        self.board = snapshot;
    }

    /// Consumes one command. `go` computes the budget and requests the
    /// search; `position` plans a reset-and-replay; `stop` asks for early
    /// termination; `quit` ends the session; anything else is reported.
    /// No command changes the board here: the board advances only when
    /// the driver replays a `position` plan and reports back.
    pub fn handle_command(&mut self, cmd: &TeiCommand) -> (acts: Vec<EngineAction>)
        ensures
            *final(self) == *old(self),
            action_views(acts@) == actions_for(old(self).board, cmd@),
    {
        let mut acts: Vec<EngineAction> = Vec::new();
        match cmd {
            TeiCommand::Go(s) => {
                let low_flats: u32 = if self.board.reserve_white <= self.board.reserve_black {
                    self.board.reserve_white
                } else {
                    self.board.reserve_black
                };
                let est_plies: u64 = 2 * (low_flats as u64);
                let time_left = TimeLeft::new(s.as_str());
                let budget = time_left.use_time(est_plies, self.board.side_to_move);
                acts.push(EngineAction::RunSearch(budget));
                proof {
                    assert(action_views(acts@) =~= seq![
                        EngineActionModel::RunSearch(go_budget_spec(self.board, s@)),
                    ]);
                }
            },
            TeiCommand::Position(s) => {
                acts.push(EngineAction::ResetBoard);
                let toks = split_ws(s.as_str());
                let n = toks.len();
                let mut k: usize = 0;
                proof {
                    assert(action_views(acts@) =~= seq![EngineActionModel::ResetBoard]);
                }
                while k < n
                    invariant
                        0 <= k <= n,
                        n == toks@.len(),
                        views_of(toks@) == split_ws_spec(s@),
                        action_views(acts@) =~= seq![EngineActionModel::ResetBoard] + views_of(
                            toks@,
                        ).take(k as int).map_values(|t: Seq<char>| EngineActionModel::TryMove(t)),
                    decreases n - k,
                {
                    let ghost prev = acts@;
                    acts.push(EngineAction::TryMove(toks[k].clone()));
                    proof {
                        assert(action_views(acts@) =~= action_views(prev).push(
                            EngineActionModel::TryMove(toks@[k as int]@),
                        ));
                        assert(views_of(toks@).take(k as int + 1).map_values(
                            |t: Seq<char>| EngineActionModel::TryMove(t),
                        ) =~= views_of(toks@).take(k as int).map_values(
                            |t: Seq<char>| EngineActionModel::TryMove(t),
                        ).push(EngineActionModel::TryMove(toks@[k as int]@)));
                    }
                    k = k + 1;
                }
                proof {
                    assert(views_of(toks@).take(n as int) =~= views_of(toks@));
                    assert(action_views(acts@) =~= replay_plan_spec(s@));
                }
            },
            TeiCommand::Stop => {
                acts.push(EngineAction::RequestStop);
                proof {
                    assert(action_views(acts@) =~= seq![EngineActionModel::RequestStop]);
                }
            },
            TeiCommand::Quit => {
                acts.push(EngineAction::Terminate);
                proof {
                    assert(action_views(acts@) =~= seq![EngineActionModel::Terminate]);
                }
            },
            TeiCommand::Unknown(s) => {
                acts.push(EngineAction::Emit(concat_str("Unknown command: ", s.as_str())));
                proof {
                    assert(action_views(acts@) =~= seq![
                        EngineActionModel::Emit("Unknown command: "@ + s@),
                    ]);
                }
            },
        }
        acts
    }

    /// One iteration of the engine loop: blocks for the next command and
    /// consumes it. The session fails when the queue disconnects before
    /// `quit`; otherwise the driver performs the actions of exactly one
    /// command, ending with `Terminate` exactly when that command was
    /// `quit`. The board never changes here.
    pub fn consume_next(
        &mut self,
        commands: &crossbeam_channel::Receiver<TeiCommand>,
    ) -> (r: LoopStep)
        ensures
            *final(self) == *old(self),
            match r {
                LoopStep::Disconnected => true,
                LoopStep::Actions(acts) => exists|cm: CommandModel|
                    action_views(acts@) == #[trigger] actions_for(old(self).board, cm),
            },
    {
        match recv_command(commands) {
            None => LoopStep::Disconnected,
            Some(cmd) => {
                let ghost cm = cmd@;
                let acts = self.handle_command(&cmd);
                proof {
                    assert(action_views(acts@) == actions_for(self.board, cm));
                }
                LoopStep::Actions(acts)
            },
        }
    }

    /// Reports a finished search. Whatever the outcome, the board is left
    /// exactly as it was before the search was requested: a failed search
    /// changes nothing, and even a successful one only prints its move.
    pub fn search_finished(&mut self, outcome: Option<SearchOutcome>) -> (lines: Vec<String>)
        ensures
            *final(self) == *old(self),
            views_of(lines@) == search_report_spec(outcome),
    {
        let mut lines: Vec<String> = Vec::new();
        match outcome {
            Some(o) => match o.best_move {
                Some(m) => {
                    lines.push(concat_str("info ", o.info.as_str()));
                    let stripped = trim_end_stars(m.as_str());
                    lines.push(concat_str("bestmove ", stripped.as_str()));
                    proof {
                        assert(views_of(lines@) =~= search_report_spec(
                            Some(SearchOutcome { info: o.info, best_move: Some(m) }),
                        ));
                    }
                },
                None => {
                    lines.push(String::from_str("Something went wrong, search failed!"));
                    proof {
                        assert(views_of(lines@) =~= search_report_spec(
                            Some(SearchOutcome { info: o.info, best_move: None }),
                        ));
                    }
                },
            },
            None => {
                lines.push(String::from_str("Something went wrong, search failed!"));
                proof {
                    assert(views_of(lines@) =~= search_report_spec(None));
                }
            },
        }
        lines
    }
}

} // verus!
