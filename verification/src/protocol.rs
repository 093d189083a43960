//! The line protocol: command classification done by the background
//! reader, the handshake, and the order in which commands are published
//! to the engine loop.

use vstd::prelude::*;
use crate::text::{starts_with_spec, str_eq, str_starts_with, trim_line, trimmed};

verus! {

/// A protocol command, as published by the reader and consumed by the
/// engine loop. `Go` and `Position` carry the whole trimmed line.
pub enum TeiCommand {
    Go(String),
    Position(String),
    Stop,
    Quit,
    Unknown(String),
}

/// The mathematical model of a command: the same shape over `Seq<char>`.
pub enum CommandModel {
    Go(Seq<char>),
    Position(Seq<char>),
    Stop,
    Quit,
    Unknown(Seq<char>),
}

impl View for TeiCommand {
    type V = CommandModel;

    open spec fn view(&self) -> CommandModel {
        match self {
            TeiCommand::Go(s) => CommandModel::Go(s@),
            TeiCommand::Position(s) => CommandModel::Position(s@),
            TeiCommand::Stop => CommandModel::Stop,
            TeiCommand::Quit => CommandModel::Quit,
            TeiCommand::Unknown(s) => CommandModel::Unknown(s@),
        }
    }
}

/// What the reader does with one input line.
pub enum LineAction {
    /// Emit the identification handshake directly.
    Identify,
    /// Emit the readiness reply directly, bypassing the queue.
    ReadyOk,
    /// Publish a command to the engine loop.
    Publish(TeiCommand),
    /// Emit a diagnostic for an unrecognized line; publish nothing.
    Diagnostic(String),
}

/// The model of a reader action.
pub enum ActionModel {
    Identify,
    ReadyOk,
    Publish(CommandModel),
    Diagnostic(Seq<char>),
}

impl View for LineAction {
    type V = ActionModel;

    open spec fn view(&self) -> ActionModel {
        match self {
            LineAction::Identify => ActionModel::Identify,
            LineAction::ReadyOk => ActionModel::ReadyOk,
            LineAction::Publish(c) => ActionModel::Publish(c@),
            LineAction::Diagnostic(s) => ActionModel::Diagnostic(s@),
        }
    }
}

/// How one raw line is classified: the trimmed line decides, exact words
/// first, then the `position` and `go` prefixes; anything else is only
/// reported.
pub open spec fn classify_spec(line: Seq<char>) -> ActionModel {
    let t = trimmed(line);
    if t == "tei"@ {
        ActionModel::Identify
    } else if t == "isready"@ {
        ActionModel::ReadyOk
    } else if t == "quit"@ {
        ActionModel::Publish(CommandModel::Quit)
    } else if t == "stop"@ {
        ActionModel::Publish(CommandModel::Stop)
    } else if starts_with_spec(t, "position"@) {
        ActionModel::Publish(CommandModel::Position(t))
    } else if starts_with_spec(t, "go"@) {
        ActionModel::Publish(CommandModel::Go(t))
    } else {
        ActionModel::Diagnostic(t)
    }
}

/// Classifies one raw input line.
pub fn classify_line(line: &str) -> (a: LineAction)
    ensures
        a@ == classify_spec(line@),
{
    let t = trim_line(line);
    if str_eq(t.as_str(), "tei") {
        LineAction::Identify
    } else if str_eq(t.as_str(), "isready") {
        LineAction::ReadyOk
    } else if str_eq(t.as_str(), "quit") {
        LineAction::Publish(TeiCommand::Quit)
    } else if str_eq(t.as_str(), "stop") {
        LineAction::Publish(TeiCommand::Stop)
    } else if str_starts_with(t.as_str(), "position") {
        LineAction::Publish(TeiCommand::Position(t))
    } else if str_starts_with(t.as_str(), "go") {
        LineAction::Publish(TeiCommand::Go(t))
    } else {
        LineAction::Diagnostic(t)
    }
}

/// The identification handshake, sent once before any command is acted on.
pub fn handshake_lines() -> (r: Vec<String>)
    ensures
        r@.len() == 3,
        r@[0]@ == "id name Topaz"@,
        r@[1]@ == "id author Justin Kur"@,
        r@[2]@ == "teiok"@,
{
    let mut v: Vec<String> = Vec::new();
    v.push(String::from_str("id name Topaz"));
    v.push(String::from_str("id author Justin Kur"));
    v.push(String::from_str("teiok"));
    v
}

/// The commands the reader publishes for the lines from position `k` on,
/// in reading order; reading stops for good once `quit` is published.
pub open spec fn published_acc(lines: Seq<Seq<char>>, k: int) -> Seq<CommandModel>
    decreases lines.len() - k,
    when 0 <= k <= lines.len()
{
    if k >= lines.len() {
        Seq::empty()
    } else {
        match classify_spec(lines[k]) {
            ActionModel::Publish(c) => if c is Quit {
                seq![c]
            } else {
                seq![c] + published_acc(lines, k + 1)
            },
            _ => published_acc(lines, k + 1),
        }
    }
}

/// The commands published for a whole sequence of input lines.
pub open spec fn published_spec(lines: Seq<Seq<char>>) -> Seq<CommandModel> {
    published_acc(lines, 0)
}

/// The views of a vector of commands.
pub open spec fn command_views(v: Seq<TeiCommand>) -> Seq<CommandModel> {
    v.map_values(|c: TeiCommand| c@)
}

/// The reader model over a finite input: the commands published for
/// `lines`, in reading order. For any sequence of lines, the consumer of
/// a first-in-first-out queue fed by the reader observes exactly these
/// commands in exactly this relative order; the readiness probe never
/// enters the queue at all.
pub fn pump_lines(lines: &Vec<String>) -> (cmds: Vec<TeiCommand>)
    ensures
        command_views(cmds@) == published_spec(crate::text::views_of(lines@)),
{
    let ghost lv = crate::text::views_of(lines@);
    let n = lines.len();
    let mut cmds: Vec<TeiCommand> = Vec::new();
    let mut stopped = false;
    let mut k: usize = 0;
    proof {
        assert(command_views(cmds@) + published_acc(lv, 0) =~= published_acc(lv, 0));
    }
    while k < n && !stopped
        invariant
            0 <= k <= n,
            n == lines@.len(),
            lv == crate::text::views_of(lines@),
            !stopped ==> command_views(cmds@) + published_acc(lv, k as int) == published_spec(lv),
            stopped ==> command_views(cmds@) == published_spec(lv),
        decreases n - k,
    {
        proof {
            assert(lv[k as int] == lines@[k as int]@);
        }
        let a = classify_line(lines[k].as_str());
        match a {
            LineAction::Publish(c) => {
                let is_quit = match &c {
                    TeiCommand::Quit => true,
                    _ => false,
                };
                let ghost prev = cmds@;
                let ghost cm = c@;
                cmds.push(c);
                proof {
                    assert(command_views(cmds@) =~= command_views(prev) + seq![cm]);
                }
                if is_quit {
                    stopped = true;
                } else {
                    proof {
                        assert(command_views(cmds@) + published_acc(lv, k as int + 1)
                            =~= command_views(prev) + (seq![cm] + published_acc(
                            lv,
                            k as int + 1,
                        )));
                    }
                }
            },
            _ => {},
        }
        k = k + 1;
    }
    proof {
        if !stopped {
            assert(command_views(cmds@) + published_acc(lv, k as int) =~= command_views(cmds@));
        }
    }
    cmds
}

} // verus!
