//! The interactive proof-tree shell: a cursor over one already-computed
//! search tree. The tree itself belongs to the outside engine; the library
//! owns the view state (the committed root path and the force-expanded
//! lines), the flag grammar of the shell, and the per-line transition.

use vstd::prelude::*;
use crate::text::{split_slash, split_slash_spec, split_ws, split_ws_spec, str_eq, views_of};

verus! {

/// The navigable cursor: a root path committed from the tree's true root,
/// and the lines the user asked to see regardless of truncation rules.
pub struct ExplorerView {
    pub root: Vec<String>,
    pub expanded: Vec<Vec<String>>,
}

/// The model of a view: paths as sequences of move names.
pub struct ViewModel {
    pub root: Seq<Seq<char>>,
    pub expanded: Seq<Seq<Seq<char>>>,
}

/// The views of a vector of move paths.
pub open spec fn line_views(v: Seq<Vec<String>>) -> Seq<Seq<Seq<char>>> {
    v.map_values(|l: Vec<String>| views_of(l@))
}

impl View for ExplorerView {
    type V = ViewModel;

    open spec fn view(&self) -> ViewModel {
        ViewModel { root: views_of(self.root@), expanded: line_views(self.expanded@) }
    }
}

/// The view at the tree's true root, with nothing force-expanded.
pub open spec fn default_view() -> ViewModel {
    ViewModel { root: Seq::empty(), expanded: Seq::empty() }
}

/// Marking one line as force-expanded.
pub open spec fn expand_op(v: ViewModel, line: Seq<Seq<char>>) -> ViewModel {
    ViewModel { root: v.root, expanded: v.expanded.push(line) }
}

/// Clearing every force-expanded line; the root path stays.
pub open spec fn reset_expansion_op(v: ViewModel) -> ViewModel {
    ViewModel { root: v.root, expanded: Seq::empty() }
}

/// Restoring the root path to the tree's true root; expansions stay.
pub open spec fn reset_view_op(v: ViewModel) -> ViewModel {
    ViewModel { root: Seq::empty(), expanded: v.expanded }
}

/// Committing an accepted move request: the path is appended to the root,
/// never partially applied.
pub open spec fn commit_move_op(v: ViewModel, segments: Seq<Seq<char>>) -> ViewModel {
    ViewModel { root: v.root + segments, expanded: v.expanded }
}

impl ExplorerView {
    /// A fresh view at the tree's true root.
    pub fn new() -> (r: ExplorerView)
        ensures
            r@ == default_view(),
    {
        let r = ExplorerView { root: Vec::new(), expanded: Vec::new() };
        proof {
            assert(r@.root =~= default_view().root);
            assert(r@.expanded =~= default_view().expanded);
        }
        r
    }

    /// Restores the root path to the tree's true root.
    pub fn reset_view(&mut self)
        ensures
            final(self)@ == reset_view_op(old(self)@),
    {
        self.root = Vec::new();
        proof {
            assert(self@.root =~= reset_view_op(old(self)@).root);
        }
    }

    /// Clears every force-expanded line, leaving the root path untouched.
    pub fn reset_expansion(&mut self)
        ensures
            final(self)@ == reset_expansion_op(old(self)@),
    {
        self.expanded = Vec::new();
        proof {
            assert(self@.expanded =~= reset_expansion_op(old(self)@).expanded);
        }
    }

    /// Marks one line (an ordered sequence of moves from the current root)
    /// as force-expanded for rendering.
    pub fn expand_line(&mut self, segments: Vec<String>)
        ensures
            final(self)@ == expand_op(old(self)@, views_of(segments@)),
    {
        let ghost segs = views_of(segments@);
        self.expanded.push(segments);
        proof {
            assert(self@.expanded =~= expand_op(old(self)@, segs).expanded);
        }
    }

    /// Commits an accepted move request by appending its path to the root.
    pub fn commit_move(&mut self, segments: Vec<String>)
        ensures
            final(self)@ == commit_move_op(old(self)@, views_of(segments@)),
    {
        let ghost segs = views_of(segments@);
        let mut rest = segments;
        let n = rest.len();
        let mut k: usize = 0;
        proof {
            assert(self@.root + segs.take(0) =~= old(self)@.root);
        }
        while k < n
            invariant
                0 <= k <= n,
                n == rest@.len(),
                segs == views_of(rest@),
                views_of(self.root@) == old(self)@.root + segs.take(k as int),
                self@.expanded == old(self)@.expanded,
            decreases n - k,
        {
            let ghost prevroot = views_of(self.root@);
            let m = rest[k].clone();
            self.root.push(m);
            proof {
                assert(views_of(self.root@) =~= prevroot.push(segs[k as int]));
                assert(old(self)@.root + segs.take(k as int + 1) =~= (old(self)@.root + segs.take(
                    k as int,
                )).push(segs[k as int]));
            }
            k = k + 1;
        }
        proof {
            assert(segs.take(n as int) =~= segs);
        }
    }
}

/// The flags found on one shell line.
pub struct ExplorerInput {
    pub help: bool,
    pub quit: bool,
    pub reset: bool,
    pub move_arg: Option<String>,
    pub expand_arg: Option<String>,
    /// An unrecognized token, or an option missing its value.
    pub malformed: bool,
}

/// The model of a parsed shell line.
pub struct InputModel {
    pub help: bool,
    pub quit: bool,
    pub reset: bool,
    pub move_arg: Option<Seq<char>>,
    pub expand_arg: Option<Seq<char>>,
    pub malformed: bool,
}

impl View for ExplorerInput {
    type V = InputModel;

    open spec fn view(&self) -> InputModel {
        InputModel {
            help: self.help,
            quit: self.quit,
            reset: self.reset,
            move_arg: match self.move_arg {
                Some(ref s) => Some(s@),
                None => None,
            },
            expand_arg: match self.expand_arg {
                Some(ref s) => Some(s@),
                None => None,
            },
            malformed: self.malformed,
        }
    }
}

/// The flag grammar, one whitespace token at a time: `-h`/`--help`,
/// `-q`/`--quit`, `-r`/`--reset`, and `-m`/`--move`, `-e`/`--expand`,
/// each followed by a value token. An unknown option (a dashed token), or
/// an option with no value, marks the line malformed; a bare token is a
/// free argument and is ignored; later tokens still parse, and a repeated
/// option keeps its last value.
pub open spec fn parse_flags_acc(toks: Seq<Seq<char>>, k: int, cur: InputModel) -> InputModel
    decreases toks.len() - k,
    when 0 <= k <= toks.len()
{
    if k >= toks.len() {
        cur
    } else {
        let t = toks[k];
        if t == "-h"@ || t == "--help"@ {
            parse_flags_acc(toks, k + 1, InputModel { help: true, ..cur })
        } else if t == "-q"@ || t == "--quit"@ {
            parse_flags_acc(toks, k + 1, InputModel { quit: true, ..cur })
        } else if t == "-r"@ || t == "--reset"@ {
            parse_flags_acc(toks, k + 1, InputModel { reset: true, ..cur })
        } else if t == "-m"@ || t == "--move"@ {
            if k + 1 < toks.len() {
                parse_flags_acc(toks, k + 2, InputModel { move_arg: Some(toks[k + 1]), ..cur })
            } else {
                InputModel { malformed: true, ..cur }
            }
        } else if t == "-e"@ || t == "--expand"@ {
            if k + 1 < toks.len() {
                parse_flags_acc(toks, k + 2, InputModel { expand_arg: Some(toks[k + 1]), ..cur })
            } else {
                InputModel { malformed: true, ..cur }
            }
        } else if t.len() > 0 && t[0] == '-' {
            parse_flags_acc(toks, k + 1, InputModel { malformed: true, ..cur })
        } else {
            parse_flags_acc(toks, k + 1, cur)
        }
    }
}

/// The parse of one whole shell line.
pub open spec fn parse_flags_spec(line: Seq<char>) -> InputModel {
    parse_flags_acc(
        split_ws_spec(line),
        0,
        InputModel {
            help: false,
            quit: false,
            reset: false,
            move_arg: None,
            expand_arg: None,
            malformed: false,
        },
    )
}

/// Parses the flags of one shell line.
pub fn parse_flags(line: &str) -> (r: ExplorerInput)
    ensures
        r@ == parse_flags_spec(line@),
{
    let toks = split_ws(line);
    let ghost tv = views_of(toks@);
    let n = toks.len();
    let mut cur = ExplorerInput {
        help: false,
        quit: false,
        reset: false,
        move_arg: None,
        expand_arg: None,
        malformed: false,
    };
    let mut k: usize = 0;
    while k < n
        invariant
            0 <= k <= n,
            n == toks@.len(),
            tv == views_of(toks@),
            parse_flags_acc(tv, k as int, cur@) == parse_flags_spec(line@),
        decreases n - k,
    {
        proof {
            assert(tv[k as int] == toks@[k as int]@);
        }
        let t = &toks[k];
        if str_eq(t.as_str(), "-h") || str_eq(t.as_str(), "--help") {
            cur.help = true;
            k = k + 1;
        } else if str_eq(t.as_str(), "-q") || str_eq(t.as_str(), "--quit") {
            cur.quit = true;
            k = k + 1;
        } else if str_eq(t.as_str(), "-r") || str_eq(t.as_str(), "--reset") {
            cur.reset = true;
            k = k + 1;
        } else if str_eq(t.as_str(), "-m") || str_eq(t.as_str(), "--move") {
            if k + 1 < n {
                proof {
                    assert(tv[k as int + 1] == toks@[k as int + 1]@);
                }
                cur.move_arg = Some(toks[k + 1].clone());
                k = k + 2;
            } else {
                cur.malformed = true;
                return cur;
            }
        } else if str_eq(t.as_str(), "-e") || str_eq(t.as_str(), "--expand") {
            if k + 1 < n {
                proof {
                    assert(tv[k as int + 1] == toks@[k as int + 1]@);
                }
                cur.expand_arg = Some(toks[k + 1].clone());
                k = k + 2;
            } else {
                cur.malformed = true;
                return cur;
            }
        } else if t.unicode_len() > 0 && t.as_str().get_char(0) == '-' {
            cur.malformed = true;
            k = k + 1;
        } else {
            k = k + 1;
        }
    }
    cur
}

/// The view after one shell line: a malformed line, a quit and a help
/// line change nothing; otherwise a reset flag restores the default view,
/// an accepted move request appends its path, a rejected one is rolled
/// back atomically (the prior root stays committed), and an expand flag
/// marks its line.
pub open spec fn step_view(v: ViewModel, i: InputModel, move_accepted: bool) -> ViewModel {
    if i.malformed || i.quit || i.help {
        v
    } else {
        let v1 = if i.reset {
            reset_view_op(reset_expansion_op(v))
        } else {
            v
        };
        let v2 = match i.move_arg {
            Some(m) => if move_accepted {
                commit_move_op(v1, split_slash_spec(m))
            } else {
                v1
            },
            None => v1,
        };
        match i.expand_arg {
            Some(e) => expand_op(v2, split_slash_spec(e)),
            None => v2,
        }
    }
}

/// What one shell step asks of its caller.
pub struct StepResult {
    /// Diagnostics or usage text to print.
    pub outputs: Vec<String>,
    /// Re-render the view before the next line is read.
    pub render: bool,
    /// The shell is closed.
    pub quit: bool,
}

impl ExplorerView {
    /// One step of the shell on an already-parsed line. `move_accepted`
    /// is the tree's answer to the move request (it is read only when the
    /// line carries one). Whatever the answer, the view afterwards is
    /// never partially applied, and the view is re-rendered before the
    /// next line unless the shell is closing.
    pub fn step(&mut self, inp: &ExplorerInput, move_accepted: bool) -> (r: StepResult)
        ensures
            final(self)@ == step_view(old(self)@, inp@, move_accepted),
            r.quit == (!inp.malformed && inp.quit),
            r.render == !r.quit,
            ({
                let o = views_of(r.outputs@);
                if inp.malformed {
                    o == seq!["Unrecognized flags, ignoring the line."@]
                } else if inp.quit {
                    o == Seq::<Seq<char>>::empty()
                } else if inp.help {
                    o == usage_spec()
                } else if inp.move_arg is Some && !move_accepted {
                    o == seq!["Failed to change view, keeping the current view!"@]
                } else {
                    o == Seq::<Seq<char>>::empty()
                }
            }),
    {
        let mut outputs: Vec<String> = Vec::new();
        if inp.malformed {
            outputs.push(String::from_str("Unrecognized flags, ignoring the line."));
            proof {
                assert(views_of(outputs@) =~= seq!["Unrecognized flags, ignoring the line."@]);
            }
            return StepResult { outputs, render: true, quit: false };
        }
        if inp.quit {
            proof {
                assert(views_of(outputs@) =~= Seq::<Seq<char>>::empty());
            }
            return StepResult { outputs, render: false, quit: true };
        }
        if inp.help {
            let u = usage_lines();
            return StepResult { outputs: u, render: true, quit: false };
        }
        if inp.reset {
            self.reset_expansion();
            self.reset_view();
        }
        match &inp.move_arg {
            Some(m) => {
                if move_accepted {
                    let segments = split_slash(m.as_str());
                    self.commit_move(segments);
                } else {
                    outputs.push(String::from_str("Failed to change view, keeping the current view!"));
                    proof {
                        assert(views_of(outputs@) =~= seq![
                            "Failed to change view, keeping the current view!"@,
                        ]);
                    }
                }
            },
            None => {},
        }
        match &inp.expand_arg {
            Some(e) => {
                let segments = split_slash(e.as_str());
                self.expand_line(segments);
            },
            None => {},
        }
        proof {
            if !(inp@.move_arg is Some && !move_accepted) {
                assert(views_of(outputs@) =~= Seq::<Seq<char>>::empty());
            }
        }
        StepResult { outputs, render: true, quit: false }
    }
}

/// What the usage text says.
pub open spec fn usage_spec() -> Seq<Seq<char>> {
    seq![
        "Options:"@,
        "    -m, --move PTN/PTN      Move the root of the tree"@,
        "    -e, --expand PTN/PTN    Expand the tree of a certain move"@,
        "    -h, --help              Print the help text"@,
        "    -q, --quit              Quit"@,
        "    -r, --reset             Resets the view back to the default root view"@,
    ]
}

/// The usage text of the shell.
pub fn usage_lines() -> (r: Vec<String>)
    ensures
        views_of(r@) == usage_spec(),
{
    let mut v: Vec<String> = Vec::new();
    v.push(String::from_str("Options:"));
    v.push(String::from_str("    -m, --move PTN/PTN      Move the root of the tree"));
    v.push(String::from_str("    -e, --expand PTN/PTN    Expand the tree of a certain move"));
    v.push(String::from_str("    -h, --help              Print the help text"));
    v.push(String::from_str("    -q, --quit              Quit"));
    v.push(
        String::from_str("    -r, --reset             Resets the view back to the default root view"),
    );
    proof {
        assert(views_of(v@) =~= usage_spec());
    }
    v
}

/// The report printed once, before the first shell line: the verdict, the
/// principal variation one move per line, and the elapsed time.
pub open spec fn startup_spec(tinue: bool, pv: Seq<Seq<char>>, seconds: int) -> Seq<Seq<char>> {
    seq![
        if tinue {
            "Tinue Found!"@
        } else {
            "No Tinue Found."@
        },
    ] + pv + seq!["Done in "@ + crate::text::dec_str(seconds) + " seconds"@]
}

/// Builds the one-time startup report from the proof computation's
/// results: verdict, principal variation, elapsed seconds.
pub fn startup_report(tinue: bool, pv: &Vec<String>, seconds: u64) -> (r: Vec<String>)
    ensures
        views_of(r@) == startup_spec(tinue, views_of(pv@), seconds as int),
{
    let mut r: Vec<String> = Vec::new();
    if tinue {
        r.push(String::from_str("Tinue Found!"));
    } else {
        r.push(String::from_str("No Tinue Found."));
    }
    let n = pv.len();
    let mut k: usize = 0;
    while k < n
        invariant
            0 <= k <= n,
            n == pv@.len(),
            views_of(r@) =~= seq![
                if tinue {
                    "Tinue Found!"@
                } else {
                    "No Tinue Found."@
                },
            ] + views_of(pv@).take(k as int),
        decreases n - k,
    {
        let ghost prev = views_of(r@);
        r.push(pv[k].clone());
        proof {
            assert(views_of(r@) =~= prev.push(pv@[k as int]@));
            assert(views_of(pv@).take(k as int + 1) =~= views_of(pv@).take(k as int).push(
                pv@[k as int]@,
            ));
        }
        k = k + 1;
    }
    proof {
        assert(views_of(pv@).take(n as int) =~= views_of(pv@));
    }
    let ghost prev = views_of(r@);
    let mut done = String::from_str("Done in ");
    done.append(crate::text::u64_to_string(seconds).as_str());
    done.append(" seconds");
    r.push(done);
    proof {
        assert(views_of(r@) =~= prev.push("Done in "@ + crate::text::dec_str(seconds as int)
            + " seconds"@));
        assert(views_of(r@) =~= startup_spec(tinue, views_of(pv@), seconds as int));
    }
    r
}

/// A rejected move request is rolled back atomically: the committed root
/// path stays exactly what it was (the true root if the same line also
/// reset the view), the requested path is never committed, not even in
/// part, and the root provably differs from what an accepted request
/// would have committed.
pub proof fn lemma_move_rollback(v: ViewModel, i: InputModel, q: Seq<char>)
    requires
        !i.malformed,
        !i.quit,
        !i.help,
        i.move_arg == Some(q),
    ensures
        step_view(v, i, false).root == (if i.reset {
            Seq::<Seq<char>>::empty()
        } else {
            v.root
        }),
        !i.reset ==> step_view(v, i, false).root == v.root,
        step_view(v, i, false).root != step_view(v, i, true).root,
{
    crate::text::lemma_split_slash_nonempty(q);
    assert(step_view(v, i, true).root.len() > step_view(v, i, false).root.len());
}

/// Expanding two lines marks both; clearing the expansions afterwards
/// removes both and leaves the root path untouched. Only a view reset
/// moves the root.
pub proof fn lemma_expand_compose(v: ViewModel, l1: Seq<Seq<char>>, l2: Seq<Seq<char>>)
    ensures
        expand_op(expand_op(v, l1), l2).expanded.contains(l1),
        expand_op(expand_op(v, l1), l2).expanded.contains(l2),
        expand_op(expand_op(v, l1), l2).root == v.root,
        reset_expansion_op(expand_op(expand_op(v, l1), l2)).expanded.len() == 0,
        reset_expansion_op(expand_op(expand_op(v, l1), l2)).root == v.root,
        reset_view_op(reset_expansion_op(expand_op(expand_op(v, l1), l2))).root
            == Seq::<Seq<char>>::empty(),
{
    let e2 = expand_op(expand_op(v, l1), l2).expanded;
    assert(e2[e2.len() - 2] == l1);
    assert(e2[e2.len() - 1] == l2);
}

} // verus!
