//! Decisions of the outer driver: the first-line mode dispatch, the named
//! starting positions of the tinue mode, and the per-line choices of the
//! two-player console game.

use vstd::prelude::*;
use crate::text::{str_eq, trim_line, trimmed};

verus! {

/// What the driver does after reading its first line.
pub enum StartMode {
    /// Speak the line protocol.
    Protocol,
    /// Console game, computer playing white.
    PlayWhite,
    /// Console game, computer playing black.
    PlayBlack,
    /// Report the line and exit.
    Unknown(String),
}

/// The model of a start mode.
pub enum StartModeModel {
    Protocol,
    PlayWhite,
    PlayBlack,
    Unknown(Seq<char>),
}

impl View for StartMode {
    type V = StartModeModel;

    open spec fn view(&self) -> StartModeModel {
        match self {
            StartMode::Protocol => StartModeModel::Protocol,
            StartMode::PlayWhite => StartModeModel::PlayWhite,
            StartMode::PlayBlack => StartModeModel::PlayBlack,
            StartMode::Unknown(s) => StartModeModel::Unknown(s@),
        }
    }
}

pub open spec fn start_mode_spec(line: Seq<char>) -> StartModeModel {
    let t = trimmed(line);
    if t == "tei"@ {
        StartModeModel::Protocol
    } else if t == "play white"@ {
        StartModeModel::PlayWhite
    } else if t == "play black"@ {
        StartModeModel::PlayBlack
    } else {
        StartModeModel::Unknown(t)
    }
}

/// Dispatches on the first input line of a no-argument start.
pub fn start_mode(line: &str) -> (r: StartMode)
    ensures
        r@ == start_mode_spec(line@),
{
    let t = trim_line(line);
    if str_eq(t.as_str(), "tei") {
        StartMode::Protocol
    } else if str_eq(t.as_str(), "play white") {
        StartMode::PlayWhite
    } else if str_eq(t.as_str(), "play black") {
        StartMode::PlayBlack
    } else {
        StartMode::Unknown(t)
    }
}

/// What one human input line asks of the console game.
pub enum ConsoleAction {
    /// Leave the game.
    Quit,
    /// Print the current position and ask again.
    ShowBoard,
    /// Try the line as a move in the game's notation.
    TryMove(String),
}

/// The model of a console action.
pub enum ConsoleActionModel {
    Quit,
    ShowBoard,
    TryMove(Seq<char>),
}

impl View for ConsoleAction {
    type V = ConsoleActionModel;

    open spec fn view(&self) -> ConsoleActionModel {
        match self {
            ConsoleAction::Quit => ConsoleActionModel::Quit,
            ConsoleAction::ShowBoard => ConsoleActionModel::ShowBoard,
            ConsoleAction::TryMove(s) => ConsoleActionModel::TryMove(s@),
        }
    }
}

pub open spec fn console_line_spec(line: Seq<char>) -> ConsoleActionModel {
    let t = trimmed(line);
    if t == "q"@ {
        ConsoleActionModel::Quit
    } else if t == "tps"@ {
        ConsoleActionModel::ShowBoard
    } else {
        ConsoleActionModel::TryMove(t)
    }
}

/// Classifies one human input line of the console game.
pub fn console_line(line: &str) -> (r: ConsoleAction)
    ensures
        r@ == console_line_spec(line@),
{
    let t = trim_line(line);
    if str_eq(t.as_str(), "q") {
        ConsoleAction::Quit
    } else if str_eq(t.as_str(), "tps") {
        ConsoleAction::ShowBoard
    } else {
        ConsoleAction::TryMove(t)
    }
}

/// What the console game does with one human answer, given the outside
/// collaborators' verdicts on it.
pub enum ConsoleTurn {
    /// Leave the game.
    Quit,
    /// Print the current position; the same player answers again.
    ShowBoard,
    /// The text did not parse as a move; report it, same player again.
    BadMove(String),
    /// The move parsed but the board refuses it; report the illegal
    /// attempt, same player again.
    Illegal,
    /// Apply this move through the board's own mutation and hand the turn
    /// to the other player.
    Apply(String),
}

/// The model of a console turn.
pub enum ConsoleTurnModel {
    Quit,
    ShowBoard,
    BadMove(Seq<char>),
    Illegal,
    Apply(Seq<char>),
}

impl View for ConsoleTurn {
    type V = ConsoleTurnModel;

    open spec fn view(&self) -> ConsoleTurnModel {
        match self {
            ConsoleTurn::Quit => ConsoleTurnModel::Quit,
            ConsoleTurn::ShowBoard => ConsoleTurnModel::ShowBoard,
            ConsoleTurn::BadMove(s) => ConsoleTurnModel::BadMove(s@),
            ConsoleTurn::Illegal => ConsoleTurnModel::Illegal,
            ConsoleTurn::Apply(s) => ConsoleTurnModel::Apply(s@),
        }
    }
}

/// The decision of one human answer: `parsed` and `legal` are the move
/// parser's and the board's verdicts on the trimmed line (each read only
/// when the line is a move attempt, and `legal` only when it parsed).
/// The turn passes to the other player exactly when the move is applied.
pub open spec fn console_turn_spec(line: Seq<char>, parsed: bool, legal: bool) -> ConsoleTurnModel {
    match console_line_spec(line) {
        ConsoleActionModel::Quit => ConsoleTurnModel::Quit,
        ConsoleActionModel::ShowBoard => ConsoleTurnModel::ShowBoard,
        ConsoleActionModel::TryMove(m) => if !parsed {
            ConsoleTurnModel::BadMove(m)
        } else if !legal {
            ConsoleTurnModel::Illegal
        } else {
            ConsoleTurnModel::Apply(m)
        },
    }
}

/// Decides one human answer of the console game.
pub fn console_turn(line: &str, parsed: bool, legal: bool) -> (r: ConsoleTurn)
    ensures
        r@ == console_turn_spec(line@, parsed, legal),
        r@ is Apply <==> (console_line_spec(line@) is TryMove && parsed && legal),
{
    match console_line(line) {
        ConsoleAction::Quit => ConsoleTurn::Quit,
        ConsoleAction::ShowBoard => ConsoleTurn::ShowBoard,
        ConsoleAction::TryMove(m) => {
            if !parsed {
                ConsoleTurn::BadMove(m)
            } else if !legal {
                ConsoleTurn::Illegal
            } else {
                ConsoleTurn::Apply(m)
            }
        },
    }
}

/// The named starting positions of the tinue mode: an alias stands for
/// its position text; anything else is taken as position text itself.
pub open spec fn tinue_tps_spec(s: Seq<char>) -> Seq<char> {
    if s == "alion1"@ {
        "2,1221122,1,1,1,2S/1,1,1,x,1C,1111212/x2,2,212,2C,11/2,2,x2,1,1/x3,1,1,x/x2,2,21,x,112S 2 32"@
    } else if s == "alion2"@ {
        "2,212221C,2,2,2C,1/1,2,1,1,2,1/12,x,1S,2S,2,1/2,2,2,x2,1/1,2212121S,2,12,1,1S/x,2,2,2,x,1 1 30"@
    } else if s == "alion3"@ {
        "x2,1,21,2,2/1,2,21,1,21,2/1S,2,2,2C,2,2/21S,1,121C,x,1,12/2,2,121,1,1,1/2,2,x3,22S 1 27"@
    } else if s == "alion4"@ {
        "x,1,x4/2,2,1,1,1,1/2221,x,1,21C,x2/2,2,2C,1,2,x/2,2,1,1,1,2/2,x2,2,x,1 2 18"@
    } else if s == "alion5"@ {
        "2,x4,11/x5,221/x,2,2,2,x,221/2,1,12C,1,21C,2/2,x,2,x2,2/x,2,2,2,x,121 1 25"@
    } else if s == "test5"@ {
        "2,2,x2,1/2,2,x,1,1/1221S,1,122221C,x,1/1,12,x,2C,2/1S,2,2,x2 1 20"@
    } else if s == "test7"@ {
        "2,2,21S,2,1,1,1/2,1,x,2,1,x,1/2,2,2,2,21112C,121S,x/x2,1112C,2,1,1112S,x/121,22211C,1S,1,1,121,1221C/x,2,2,2,1,12,2/2,x3,1,122,x 2 50"@
    } else {
        s
    }
}

/// Resolves a tinue-mode argument to position text.
pub fn tinue_tps(s: &str) -> (r: String)
    ensures
        r@ == tinue_tps_spec(s@),
{
    if str_eq(s, "alion1") {
        String::from_str(
            "2,1221122,1,1,1,2S/1,1,1,x,1C,1111212/x2,2,212,2C,11/2,2,x2,1,1/x3,1,1,x/x2,2,21,x,112S 2 32",
        )
    } else if str_eq(s, "alion2") {
        String::from_str(
            "2,212221C,2,2,2C,1/1,2,1,1,2,1/12,x,1S,2S,2,1/2,2,2,x2,1/1,2212121S,2,12,1,1S/x,2,2,2,x,1 1 30",
        )
    } else if str_eq(s, "alion3") {
        String::from_str(
            "x2,1,21,2,2/1,2,21,1,21,2/1S,2,2,2C,2,2/21S,1,121C,x,1,12/2,2,121,1,1,1/2,2,x3,22S 1 27",
        )
    } else if str_eq(s, "alion4") {
        String::from_str(
            "x,1,x4/2,2,1,1,1,1/2221,x,1,21C,x2/2,2,2C,1,2,x/2,2,1,1,1,2/2,x2,2,x,1 2 18",
        )
    } else if str_eq(s, "alion5") {
        String::from_str(
            "2,x4,11/x5,221/x,2,2,2,x,221/2,1,12C,1,21C,2/2,x,2,x2,2/x,2,2,2,x,121 1 25",
        )
    } else if str_eq(s, "test5") {
        String::from_str("2,2,x2,1/2,2,x,1,1/1221S,1,122221C,x,1/1,12,x,2C,2/1S,2,2,x2 1 20")
    } else if str_eq(s, "test7") {
        String::from_str(
            "2,2,21S,2,1,1,1/2,1,x,2,1,x,1/2,2,2,2,21112C,121S,x/x2,1112C,2,1,1112S,x/121,22211C,1S,1,1,121,1221C/x,2,2,2,1,12,2/2,x3,1,122,x 2 50",
        )
    } else {
        String::from_str(s)
    }
}

} // verus!
