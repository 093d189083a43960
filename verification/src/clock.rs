//! The time manager: remaining-clock state parsed from a `go` command's
//! parameters, and the per-move time budget computed from it.

use vstd::prelude::*;
use crate::Color;
use crate::text::{parse_u64, parse_u64_spec, split_ws, split_ws_spec, str_eq, views_of};

verus! {

/// Remaining clock time and increments, in milliseconds, for both sides.
#[derive(Clone, Copy, PartialEq, Eq, Structural, Debug)]
pub struct TimeLeft {
    pub wtime: u64,
    pub btime: u64,
    pub winc: u64,
    pub binc: u64,
}

/// The defaults used when a field is absent from the parameters.
pub open spec fn default_time_left() -> TimeLeft {
    TimeLeft { wtime: 1000, btime: 1000, winc: 0, binc: 0 }
}

/// One key/value pair applied to the budget: a recognized key whose value
/// parses as a number replaces that field; anything else changes nothing.
pub open spec fn pair_update(t: TimeLeft, key: Seq<char>, val: Seq<char>) -> TimeLeft {
    match parse_u64_spec(val) {
        Some(v) => if key == "wtime"@ {
            TimeLeft { wtime: v, btime: t.btime, winc: t.winc, binc: t.binc }
        } else if key == "btime"@ {
            TimeLeft { wtime: t.wtime, btime: v, winc: t.winc, binc: t.binc }
        } else if key == "winc"@ {
            TimeLeft { wtime: t.wtime, btime: t.btime, winc: v, binc: t.binc }
        } else if key == "binc"@ {
            TimeLeft { wtime: t.wtime, btime: t.btime, winc: t.winc, binc: v }
        } else {
            t
        },
        None => t,
    }
}

/// The budget after applying every adjacent token pair from position `k` on.
pub open spec fn budget_after(toks: Seq<Seq<char>>, k: int, t: TimeLeft) -> TimeLeft
    decreases toks.len() - k,
    when 0 <= k <= toks.len()
{
    if k + 1 >= toks.len() {
        t
    } else {
        budget_after(toks, k + 1, pair_update(t, toks[k], toks[k + 1]))
    }
}

/// The clock state a parameter string denotes: defaults overridden by each
/// recognized `key value` pair, later pairs winning.
pub open spec fn time_left_spec(s: Seq<char>) -> TimeLeft {
    budget_after(split_ws_spec(s), 0, default_time_left())
}

impl TimeLeft {
    /// Parses the whitespace-delimited parameters of a `go` command.
    /// Unknown keys and malformed values are ignored, not errors.
    pub fn new(tei_str: &str) -> (r: Self)
        ensures
            r == time_left_spec(tei_str@),
    {
        let toks = split_ws(tei_str);
        let mut t = TimeLeft { wtime: 1000, btime: 1000, winc: 0, binc: 0 };
        let n = toks.len();
        if n == 0 {
            return t;
        }
        let mut k: usize = 0;
        while k + 1 < n
            invariant
                0 <= k < n,
                n == toks@.len(),
                views_of(toks@) == split_ws_spec(tei_str@),
                budget_after(views_of(toks@), k as int, t) == time_left_spec(tei_str@),
            decreases n - k,
        {
            let key = &toks[k];
            let val = &toks[k + 1];
            let parsed = parse_u64(val.as_str());
            match parsed {
                Some(v) => {
                    if str_eq(key.as_str(), "wtime") {
                        t = TimeLeft { wtime: v, btime: t.btime, winc: t.winc, binc: t.binc };
                    } else if str_eq(key.as_str(), "btime") {
                        t = TimeLeft { wtime: t.wtime, btime: v, winc: t.winc, binc: t.binc };
                    } else if str_eq(key.as_str(), "winc") {
                        t = TimeLeft { wtime: t.wtime, btime: t.btime, winc: v, binc: t.binc };
                    } else if str_eq(key.as_str(), "binc") {
                        t = TimeLeft { wtime: t.wtime, btime: t.btime, winc: t.winc, binc: v };
                    }
                },
                None => {},
            }
            proof {
                assert(views_of(toks@)[k as int] == toks@[k as int]@);
                assert(views_of(toks@)[k as int + 1] == toks@[k as int + 1]@);
            }
            k = k + 1;
        }
        t
    }

    /// The remaining clock time of one side.
    pub open spec fn bank_of(self, side: Color) -> u64 {
        match side {
            Color::White => self.wtime,
            Color::Black => self.btime,
        }
    }

    /// The increment of one side.
    pub open spec fn inc_of(self, side: Color) -> u64 {
        match side {
            Color::White => self.winc,
            Color::Black => self.binc,
        }
    }

    /// The per-move budget in milliseconds: the side's bank divided by the
    /// padded estimate of plies left and by 1000, plus the undivided
    /// increment in seconds. Never more than `bank/1000 + inc/1000`.
    pub fn use_time(&self, est_plies: u64, side_to_move: Color) -> (r: u64)
        ensures
            r == self.bank_of(side_to_move) as int / (est_plies as int + 2) / 1000
                + self.inc_of(side_to_move) as int / 1000,
            r <= self.bank_of(side_to_move) as int / 1000 + self.inc_of(side_to_move) as int
                / 1000,
    {
        let (time_bank, inc): (u64, u64) = match side_to_move {
            Color::White => (self.wtime, self.winc),
            Color::Black => (self.btime, self.binc),
        };
        let use_bank: u128 = (time_bank as u128) / ((est_plies as u128) + 2) / 1000;
        let extra: u128 = (inc as u128) / 1000;
        proof {
            assert((time_bank as int) / ((est_plies as int) + 2) <= time_bank as int)
                by (nonlinear_arith)
                requires
                    time_bank >= 0,
                    est_plies >= 0,
            ;
            assert((time_bank as int) / ((est_plies as int) + 2) / 1000 <= (time_bank as int)
                / 1000) by (nonlinear_arith)
                requires
                    (time_bank as int) / ((est_plies as int) + 2) <= time_bank as int,
                    time_bank >= 0,
                    est_plies >= 0,
            ;
        }
        (use_bank + extra) as u64
    }
}

} // verus!
