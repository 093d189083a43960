use tei_core::cli::{
    console_line, console_turn, start_mode, tinue_tps, ConsoleAction, ConsoleTurn, StartMode,
};
use tei_core::text::{parse_u64, split_slash, split_ws, trim_end_stars, trim_line, u64_to_string};

#[test]
fn trimming_and_splitting() {
    assert_eq!(trim_line("  go wtime 5 \r\n"), "go wtime 5");
    assert_eq!(trim_line(""), "");
    assert_eq!(split_ws("  a  bb\tc "), vec!["a", "bb", "c"]);
    assert!(split_ws("   ").is_empty());
    assert_eq!(split_slash("a1/b2"), vec!["a1", "b2"]);
    assert_eq!(split_slash("a1/"), vec!["a1", ""]);
    assert_eq!(split_slash(""), vec![""]);
    assert_eq!(split_slash("c3"), vec!["c3"]);
}

#[test]
fn decimal_parsing_exact_bounds() {
    assert_eq!(parse_u64("0"), Some(0));
    assert_eq!(parse_u64("120000"), Some(120000));
    assert_eq!(parse_u64("18446744073709551615"), Some(u64::MAX));
    assert_eq!(parse_u64("18446744073709551616"), None);
    assert_eq!(parse_u64(""), None);
    assert_eq!(parse_u64("12a"), None);
    assert_eq!(parse_u64("-4"), None);
    assert_eq!(parse_u64(" 7"), None);
}

#[test]
fn decimal_rendering() {
    assert_eq!(u64_to_string(0), "0");
    assert_eq!(u64_to_string(907), "907");
    assert_eq!(u64_to_string(u64::MAX), "18446744073709551615");
}

#[test]
fn marker_stripping() {
    assert_eq!(trim_end_stars("c3*"), "c3");
    assert_eq!(trim_end_stars("c3**"), "c3");
    assert_eq!(trim_end_stars("c3"), "c3");
    assert_eq!(trim_end_stars("***"), "");
}

#[test]
fn start_mode_dispatch() {
    assert!(matches!(start_mode("tei\n"), StartMode::Protocol));
    assert!(matches!(start_mode("play white"), StartMode::PlayWhite));
    assert!(matches!(start_mode("play black\n"), StartMode::PlayBlack));
    assert!(matches!(start_mode("chess"), StartMode::Unknown(s) if s == "chess"));
}

#[test]
fn console_line_dispatch() {
    assert!(matches!(console_line("q\n"), ConsoleAction::Quit));
    assert!(matches!(console_line("tps"), ConsoleAction::ShowBoard));
    assert!(matches!(console_line("a1"), ConsoleAction::TryMove(m) if m == "a1"));
}

#[test]
fn console_turn_decisions() {
    assert!(matches!(console_turn("q", false, false), ConsoleTurn::Quit));
    assert!(matches!(console_turn("tps\n", false, false), ConsoleTurn::ShowBoard));
    assert!(matches!(console_turn("zz9", false, false), ConsoleTurn::BadMove(m) if m == "zz9"));
    assert!(matches!(console_turn("a7", true, false), ConsoleTurn::Illegal));
    assert!(matches!(console_turn("a1\n", true, true), ConsoleTurn::Apply(m) if m == "a1"));
}

#[test]
fn tinue_aliases_resolve() {
    assert_eq!(
        tinue_tps("test5"),
        "2,2,x2,1/2,2,x,1,1/1221S,1,122221C,x,1/1,12,x,2C,2/1S,2,2,x2 1 20"
    );
    assert!(tinue_tps("alion1").starts_with("2,1221122,"));
    assert!(tinue_tps("alion5").ends_with("1 25"));
    let custom = "x6/x6/x6/x6/x6/x6 1 1";
    assert_eq!(tinue_tps(custom), custom);
}
