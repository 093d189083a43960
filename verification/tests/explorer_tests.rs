use tei_core::explorer::{parse_flags, startup_report, usage_lines, ExplorerView};

fn input(line: &str) -> tei_core::explorer::ExplorerInput {
    parse_flags(line)
}

#[test]
fn parse_recognizes_all_flags() {
    let i = input("-m a1/b2 -e c3/d4 -r");
    assert!(!i.help && !i.quit && i.reset && !i.malformed);
    assert_eq!(i.move_arg.as_deref(), Some("a1/b2"));
    assert_eq!(i.expand_arg.as_deref(), Some("c3/d4"));
    let i = input("--help --quit");
    assert!(i.help && i.quit && !i.malformed);
}

#[test]
fn parse_flags_missing_value_is_malformed() {
    assert!(input("-m").malformed);
    assert!(input("-e").malformed);
    assert!(input("-x").malformed);
    assert!(input("--frobnicate").malformed);
    assert!(!input("").malformed);
}

#[test]
fn bare_tokens_are_ignored_free_arguments() {
    let i = input("frobnicate -r stray");
    assert!(!i.malformed);
    assert!(i.reset);
    let mut v = ExplorerView::new();
    let r = v.step(&i, true);
    assert!(r.render && r.outputs.is_empty());
}

#[test]
fn accepted_moves_append_to_root() {
    let mut v = ExplorerView::new();
    let r = v.step(&input("-m a1/b2"), true);
    assert!(r.render && !r.quit && r.outputs.is_empty());
    assert_eq!(v.root, vec!["a1", "b2"]);
    let _ = v.step(&input("-m c3"), true);
    assert_eq!(v.root, vec!["a1", "b2", "c3"]);
}

#[test]
fn rejected_move_rolls_back_to_prior_root() {
    // A view standing at the true root keeps its root path on a rejected
    // move request: not the requested path, nothing partially applied.
    let mut v = ExplorerView::new();
    let before = v.root.clone();
    let r = v.step(&input("-m nosuch/path"), false);
    assert_eq!(v.root, before);
    assert!(v.root.is_empty());
    assert_eq!(r.outputs, vec!["Failed to change view, keeping the current view!"]);
    assert!(r.render);

    // A deeper view keeps its committed path: never the requested path,
    // never partially applied, never undefined.
    let mut v = ExplorerView::new();
    let _ = v.step(&input("-m a1"), true);
    assert_eq!(v.root, vec!["a1"]);
    let _ = v.step(&input("-m b2/c3"), false);
    assert_eq!(v.root, vec!["a1"]);
}

#[test]
fn expansions_compose_and_reset_leaves_root() {
    let mut v = ExplorerView::new();
    let _ = v.step(&input("-m a1"), true);
    let _ = v.step(&input("-e a1/b2"), true);
    let _ = v.step(&input("-e a1/c3"), true);
    assert_eq!(v.expanded.len(), 2);
    assert_eq!(v.expanded[0], vec!["a1", "b2"]);
    assert_eq!(v.expanded[1], vec!["a1", "c3"]);
    assert_eq!(v.root, vec!["a1"]);
    // Clearing the expansions alone leaves the root path untouched.
    v.reset_expansion();
    assert!(v.expanded.is_empty());
    assert_eq!(v.root, vec!["a1"]);
    // The reset flag clears expansions and restores the true root.
    let _ = v.step(&input("-e b2"), true);
    let r = v.step(&input("-r"), true);
    assert!(r.render);
    assert!(v.expanded.is_empty());
    assert!(v.root.is_empty());
}

#[test]
fn quit_and_help_change_nothing() {
    let mut v = ExplorerView::new();
    let _ = v.step(&input("-m a1"), true);
    let r = v.step(&input("-q"), true);
    assert!(r.quit && !r.render);
    assert_eq!(v.root, vec!["a1"]);
    // Help prints the usage text, changes nothing, and still re-renders
    // the view before the next line.
    let r = v.step(&input("-h"), true);
    assert!(!r.quit && r.render);
    assert_eq!(r.outputs, usage_lines());
    assert_eq!(v.root, vec!["a1"]);
    // A malformed line is only reported; the view is still re-rendered.
    let r = v.step(&input("-x"), true);
    assert!(!r.quit && r.render);
    assert_eq!(r.outputs, vec!["Unrecognized flags, ignoring the line."]);
    assert_eq!(v.root, vec!["a1"]);
}

#[test]
fn startup_report_prints_verdict_variation_and_time() {
    let pv: Vec<String> = vec!["a1".to_string(), "b2>".to_string()];
    let r = startup_report(true, &pv, 42);
    assert_eq!(r, vec!["Tinue Found!", "a1", "b2>", "Done in 42 seconds"]);
    let r = startup_report(false, &Vec::new(), 0);
    assert_eq!(r, vec!["No Tinue Found.", "Done in 0 seconds"]);
}
