use tei_core::clock::TimeLeft;
use tei_core::Color;

#[test]
fn allocate_even_clock() {
    let t = TimeLeft::new("go wtime 120000 btime 120000 winc 0 binc 0");
    assert_eq!(t.wtime, 120000);
    assert_eq!(t.btime, 120000);
    assert_eq!(t.winc, 0);
    assert_eq!(t.binc, 0);
    assert_eq!(t.use_time(20, Color::White), 120000 / 22 / 1000);
    assert_eq!(t.use_time(20, Color::White), 5);
}

#[test]
fn allocate_defaults_when_absent() {
    let t = TimeLeft::new("go");
    assert_eq!(t.wtime, 1000);
    assert_eq!(t.btime, 1000);
    assert_eq!(t.winc, 0);
    assert_eq!(t.binc, 0);
    let t = TimeLeft::new("");
    assert_eq!(t.wtime, 1000);
    assert_eq!(t.btime, 1000);
}

#[test]
fn allocate_ignores_malformed_pairs() {
    let t = TimeLeft::new("go wtime abc btime 3000 depth 9 binc -4");
    assert_eq!(t.wtime, 1000);
    assert_eq!(t.btime, 3000);
    assert_eq!(t.winc, 0);
    assert_eq!(t.binc, 0);
}

#[test]
fn allocate_side_selects_bank() {
    let t = TimeLeft::new("go wtime 50000 btime 9000 winc 2000 binc 7000");
    assert_eq!(t.use_time(8, Color::White), 50000 / 10 / 1000 + 2);
    assert_eq!(t.use_time(8, Color::Black), 9000 / 10 / 1000 + 7);
}

#[test]
fn increment_added_undivided() {
    let t = TimeLeft::new("go wtime 1000 winc 3000");
    assert_eq!(t.use_time(100, Color::White), 1000 / 102 / 1000 + 3);
    assert_eq!(t.use_time(100, Color::White), 3);
}

#[test]
fn allocate_bounded_by_bank_and_inc() {
    let cases: [(u64, u64, u64); 5] = [
        (120000, 0, 20),
        (1, 999, 0),
        (u64::MAX, u64::MAX, 3),
        (0, 0, 0),
        (777777, 55555, 9),
    ];
    for (bank, inc, plies) in cases {
        let t = TimeLeft { wtime: bank, btime: 0, winc: inc, binc: 0 };
        let r = t.use_time(plies, Color::White);
        assert!(r <= bank / 1000 + inc / 1000);
    }
}

#[test]
fn later_pairs_win() {
    let t = TimeLeft::new("wtime 1 wtime 2");
    assert_eq!(t.wtime, 2);
}
