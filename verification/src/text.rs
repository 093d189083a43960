//! Character-level text utilities for the protocol and shell grammars:
//! trimming, token splitting, decimal parsing, prefix tests.
//!
//! All contracts are stated over `Seq<char>` views of the inputs.

use vstd::prelude::*;

verus! {

/// The whitespace characters the grammars treat as separators.
pub open spec fn is_space_char(c: char) -> bool {
    c == ' ' || c == '\t' || c == '\r' || c == '\n'
}

pub fn is_space(c: char) -> (r: bool)
    ensures
        r == is_space_char(c),
{
    c == ' ' || c == '\t' || c == '\r' || c == '\n'
}

pub open spec fn drop_leading_spaces(s: Seq<char>) -> Seq<char>
    decreases s.len(),
{
    if s.len() > 0 && is_space_char(s[0]) {
        drop_leading_spaces(s.drop_first())
    } else {
        s
    }
}

pub open spec fn drop_trailing_spaces(s: Seq<char>) -> Seq<char>
    decreases s.len(),
{
    if s.len() > 0 && is_space_char(s[s.len() - 1]) {
        drop_trailing_spaces(s.drop_last())
    } else {
        s
    }
}

/// A line with leading and trailing whitespace removed.
pub open spec fn trimmed(s: Seq<char>) -> Seq<char> {
    drop_trailing_spaces(drop_leading_spaces(s))
}

/// Trims ASCII whitespace from both ends of a line.
pub fn trim_line(s: &str) -> (r: String)
    ensures
        r@ == trimmed(s@),
{
    let n = s.unicode_len();
    let mut a: usize = 0;
    proof {
        assert(s@.skip(0) =~= s@);
    }
    while a < n && is_space(s.get_char(a))
        invariant
            0 <= a <= n,
            n == s@.len(),
            drop_leading_spaces(s@) == drop_leading_spaces(s@.skip(a as int)),
        decreases n - a,
    {
        proof {
            assert(s@.skip(a as int).drop_first() =~= s@.skip(a as int + 1));
        }
        a = a + 1;
    }
    proof {
        assert(drop_leading_spaces(s@.skip(a as int)) == s@.skip(a as int));
    }
    let mut b: usize = n;
    while b > a && is_space(s.get_char(b - 1))
        invariant
            a <= b <= n,
            n == s@.len(),
            a <= s@.len(),
            drop_leading_spaces(s@) == s@.skip(a as int),
            drop_trailing_spaces(s@.skip(a as int)) == drop_trailing_spaces(
                s@.subrange(a as int, b as int),
            ),
        decreases b,
    {
        proof {
            assert(s@.subrange(a as int, b as int).drop_last() =~= s@.subrange(
                a as int,
                b as int - 1,
            ));
            assert(s@.subrange(a as int, b as int).last() == s@[b as int - 1]);
        }
        b = b - 1;
    }
    proof {
        assert(drop_trailing_spaces(s@.subrange(a as int, b as int)) == s@.subrange(
            a as int,
            b as int,
        ));
    }
    let part = s.substring_char(a, b);
    String::from_str(part)
}

/// Character equality of two string slices.
pub fn str_eq(a: &str, b: &str) -> (r: bool)
    ensures
        r == (a@ == b@),
{
    let na = a.unicode_len();
    let nb = b.unicode_len();
    if na != nb {
        return false;
    }
    let mut i: usize = 0;
    while i < na
        invariant
            0 <= i <= na,
            na == a@.len(),
            na == b@.len(),
            forall|j: int| 0 <= j < i ==> a@[j] == b@[j],
        decreases na - i,
    {
        if a.get_char(i) != b.get_char(i) {
            return false;
        }
        i = i + 1;
    }
    proof {
        assert(a@ =~= b@);
    }
    true
}

/// `s` begins with the characters of `p`.
pub open spec fn starts_with_spec(s: Seq<char>, p: Seq<char>) -> bool {
    s.len() >= p.len() && s.subrange(0, p.len() as int) == p
}

pub fn str_starts_with(s: &str, p: &str) -> (r: bool)
    ensures
        r == starts_with_spec(s@, p@),
{
    let ns = s.unicode_len();
    let np = p.unicode_len();
    if ns < np {
        return false;
    }
    let mut i: usize = 0;
    while i < np
        invariant
            0 <= i <= np,
            ns == s@.len(),
            np == p@.len(),
            np <= ns,
            forall|j: int| 0 <= j < i ==> s@[j] == p@[j],
        decreases np - i,
    {
        if s.get_char(i) != p.get_char(i) {
            proof {
                if starts_with_spec(s@, p@) {
                    assert(s@.subrange(0, p@.len() as int)[i as int] == s@[i as int]);
                }
            }
            return false;
        }
        i = i + 1;
    }
    proof {
        assert(s@.subrange(0, p@.len() as int) =~= p@);
    }
    true
}

/// The whitespace-separated tokens of `s[i..]`, with `cur` the token read
/// so far: empty runs of separators produce no tokens.
pub open spec fn split_ws_acc(s: Seq<char>, i: int, cur: Seq<char>) -> Seq<Seq<char>>
    decreases s.len() - i,
    when 0 <= i <= s.len()
{
    if i >= s.len() {
        if cur.len() > 0 {
            seq![cur]
        } else {
            Seq::empty()
        }
    } else if is_space_char(s[i]) {
        if cur.len() > 0 {
            seq![cur] + split_ws_acc(s, i + 1, Seq::empty())
        } else {
            split_ws_acc(s, i + 1, Seq::empty())
        }
    } else {
        split_ws_acc(s, i + 1, cur.push(s[i]))
    }
}

/// The whitespace-separated tokens of `s`, in order, without empties.
pub open spec fn split_ws_spec(s: Seq<char>) -> Seq<Seq<char>> {
    split_ws_acc(s, 0, Seq::empty())
}

/// The views of a vector of owned strings.
pub open spec fn views_of(v: Seq<String>) -> Seq<Seq<char>> {
    v.map_values(|t: String| t@)
}

/// Splits `s` on runs of whitespace.
pub fn split_ws(s: &str) -> (r: Vec<String>)
    ensures
        views_of(r@) == split_ws_spec(s@),
{
    let n = s.unicode_len();
    let mut out: Vec<String> = Vec::new();
    let mut cur: String = String::new();
    let mut i: usize = 0;
    while i < n
        invariant
            0 <= i <= n,
            n == s@.len(),
            split_ws_spec(s@) == views_of(out@) + split_ws_acc(s@, i as int, cur@),
        decreases n - i,
    {
        let c = s.get_char(i);
        if is_space(c) {
            if cur.unicode_len() > 0 {
                let ghost prev = out@;
                out.push(cur);
                proof {
                    assert(views_of(out@) =~= views_of(prev).push(out@[prev.len() as int]@));
                    assert(views_of(out@) + split_ws_acc(s@, i as int + 1, Seq::empty())
                        =~= views_of(prev) + (seq![out@[prev.len() as int]@] + split_ws_acc(
                        s@,
                        i as int + 1,
                        Seq::empty(),
                    )));
                }
                cur = String::new();
            } else {
                proof {
                    assert(cur@ =~= Seq::<char>::empty());
                }
            }
        } else {
            let ghost oldcur = cur@;
            cur.append(s.substring_char(i, i + 1));
            proof {
                assert(s@.subrange(i as int, i as int + 1) =~= seq![s@[i as int]]);
                assert(cur@ =~= oldcur.push(s@[i as int]));
            }
        }
        i = i + 1;
    }
    if cur.unicode_len() > 0 {
        let ghost prev = out@;
        out.push(cur);
        proof {
            assert(views_of(out@) =~= views_of(prev).push(out@[prev.len() as int]@));
            assert(views_of(out@) =~= views_of(prev) + seq![out@[prev.len() as int]@]);
        }
    }
    out
}

/// The `/`-separated fields of `s[i..]`, with `cur` the field read so far:
/// empty fields are kept, and an empty input yields one empty field.
pub open spec fn split_slash_acc(s: Seq<char>, i: int, cur: Seq<char>) -> Seq<Seq<char>>
    decreases s.len() - i,
    when 0 <= i <= s.len()
{
    if i >= s.len() {
        seq![cur]
    } else if s[i] == '/' {
        seq![cur] + split_slash_acc(s, i + 1, Seq::empty())
    } else {
        split_slash_acc(s, i + 1, cur.push(s[i]))
    }
}

/// The `/`-separated fields of `s`, in order, empties kept.
pub open spec fn split_slash_spec(s: Seq<char>) -> Seq<Seq<char>> {
    split_slash_acc(s, 0, Seq::empty())
}

proof fn lemma_split_slash_acc_nonempty(s: Seq<char>, i: int, cur: Seq<char>)
    requires
        0 <= i <= s.len(),
    ensures
        split_slash_acc(s, i, cur).len() >= 1,
    decreases s.len() - i,
{
    if i < s.len() && !(s[i] == '/') {
        lemma_split_slash_acc_nonempty(s, i + 1, cur.push(s[i]));
    }
}

/// Splitting on `/` always yields at least one field.
pub proof fn lemma_split_slash_nonempty(s: Seq<char>)
    ensures
        split_slash_spec(s).len() >= 1,
{
    lemma_split_slash_acc_nonempty(s, 0, Seq::empty());
}

/// Splits `s` on every `/`.
pub fn split_slash(s: &str) -> (r: Vec<String>)
    ensures
        views_of(r@) == split_slash_spec(s@),
{
    let n = s.unicode_len();
    let mut out: Vec<String> = Vec::new();
    let mut cur: String = String::new();
    let mut i: usize = 0;
    while i < n
        invariant
            0 <= i <= n,
            n == s@.len(),
            split_slash_spec(s@) == views_of(out@) + split_slash_acc(s@, i as int, cur@),
        decreases n - i,
    {
        let c = s.get_char(i);
        if c == '/' {
            let ghost prev = out@;
            out.push(cur);
            proof {
                assert(views_of(out@) =~= views_of(prev).push(out@[prev.len() as int]@));
                assert(views_of(out@) + split_slash_acc(s@, i as int + 1, Seq::empty())
                    =~= views_of(prev) + (seq![out@[prev.len() as int]@] + split_slash_acc(
                    s@,
                    i as int + 1,
                    Seq::empty(),
                )));
            }
            cur = String::new();
        } else {
            let ghost oldcur = cur@;
            cur.append(s.substring_char(i, i + 1));
            proof {
                assert(s@.subrange(i as int, i as int + 1) =~= seq![s@[i as int]]);
                assert(cur@ =~= oldcur.push(s@[i as int]));
            }
        }
        i = i + 1;
    }
    let ghost prev = out@;
    out.push(cur);
    proof {
        assert(views_of(out@) =~= views_of(prev).push(out@[prev.len() as int]@));
        assert(views_of(out@) =~= views_of(prev) + seq![out@[prev.len() as int]@]);
    }
    out
}

/// The value of a decimal digit, or 10 for any other character.
pub open spec fn digit_val(c: char) -> int {
    if c == '0' {
        0
    } else if c == '1' {
        1
    } else if c == '2' {
        2
    } else if c == '3' {
        3
    } else if c == '4' {
        4
    } else if c == '5' {
        5
    } else if c == '6' {
        6
    } else if c == '7' {
        7
    } else if c == '8' {
        8
    } else if c == '9' {
        9
    } else {
        10
    }
}

pub open spec fn is_digit_char(c: char) -> bool {
    digit_val(c) < 10
}

pub open spec fn all_digits(s: Seq<char>) -> bool {
    forall|j: int| 0 <= j < s.len() ==> is_digit_char(s[j])
}

/// The number a digit string denotes, by Horner evaluation.
pub open spec fn dec_val(s: Seq<char>) -> int
    decreases s.len(),
{
    if s.len() == 0 {
        0
    } else {
        dec_val(s.drop_last()) * 10 + digit_val(s.last())
    }
}

/// A token parses as a number exactly when it is a nonempty digit string
/// whose value fits the result type; anything else is malformed.
pub open spec fn parse_u64_spec(s: Seq<char>) -> Option<u64> {
    if s.len() > 0 && all_digits(s) && dec_val(s) <= u64::MAX {
        Some(dec_val(s) as u64)
    } else {
        None
    }
}

proof fn lemma_dec_val_nonneg(s: Seq<char>)
    requires
        all_digits(s),
    ensures
        dec_val(s) >= 0,
    decreases s.len(),
{
    if s.len() > 0 {
        assert(all_digits(s.drop_last()));
        lemma_dec_val_nonneg(s.drop_last());
    }
}

proof fn lemma_dec_val_prefix(s: Seq<char>, k: int)
    requires
        all_digits(s),
        0 <= k <= s.len(),
    ensures
        dec_val(s.take(k)) <= dec_val(s),
    decreases s.len() - k,
{
    if k < s.len() {
        assert(s.take(k + 1).drop_last() =~= s.take(k));
        assert(s.take(k + 1).last() == s[k]);
        assert(all_digits(s.take(k)));
        lemma_dec_val_nonneg(s.take(k));
        assert(dec_val(s.take(k)) <= dec_val(s.take(k + 1)));
        lemma_dec_val_prefix(s, k + 1);
    } else {
        assert(s.take(k) =~= s);
    }
}

fn digit_of(c: char) -> (d: Option<u8>)
    ensures
        d is Some <==> is_digit_char(c),
        d is Some ==> d->0 == digit_val(c),
{
    match c {
        '0' => Some(0),
        '1' => Some(1),
        '2' => Some(2),
        '3' => Some(3),
        '4' => Some(4),
        '5' => Some(5),
        '6' => Some(6),
        '7' => Some(7),
        '8' => Some(8),
        '9' => Some(9),
        _ => None,
    }
}

/// Parses a nonnegative decimal number; `None` on an empty token, a
/// non-digit character, or a value over the type's range.
pub fn parse_u64(s: &str) -> (r: Option<u64>)
    ensures
        r == parse_u64_spec(s@),
{
    let n = s.unicode_len();
    if n == 0 {
        return None;
    }
    let mut acc: u128 = 0;
    let mut i: usize = 0;
    while i < n
        invariant
            0 <= i <= n,
            n == s@.len(),
            n > 0,
            all_digits(s@.take(i as int)),
            acc == dec_val(s@.take(i as int)),
            acc <= u64::MAX,
        decreases n - i,
    {
        let c = s.get_char(i);
        match digit_of(c) {
            None => {
                assert(!is_digit_char(s@[i as int]));
                return None;
            },
            Some(d) => {
                let next: u128 = acc * 10 + (d as u128);
                proof {
                    assert(s@.take(i as int + 1).drop_last() =~= s@.take(i as int));
                    assert(s@.take(i as int + 1).last() == s@[i as int]);
                }
                if next > u64::MAX as u128 {
                    proof {
                        if all_digits(s@) && dec_val(s@) <= u64::MAX {
                            lemma_dec_val_prefix(s@, i as int + 1);
                        }
                    }
                    return None;
                }
                acc = next;
            },
        }
        i = i + 1;
    }
    proof {
        assert(s@.take(n as int) =~= s@);
    }
    Some(acc as u64)
}

/// The concatenation of two string slices as an owned string.
pub fn concat_str(a: &str, b: &str) -> (r: String)
    ensures
        r@ == a@ + b@,
{
    let mut s = String::from_str(a);
    s.append(b);
    s
}

/// The character of one decimal digit.
pub open spec fn digit_char(d: int) -> char {
    if d == 0 {
        '0'
    } else if d == 1 {
        '1'
    } else if d == 2 {
        '2'
    } else if d == 3 {
        '3'
    } else if d == 4 {
        '4'
    } else if d == 5 {
        '5'
    } else if d == 6 {
        '6'
    } else if d == 7 {
        '7'
    } else if d == 8 {
        '8'
    } else {
        '9'
    }
}

/// The decimal rendering of a nonnegative number, most significant digit
/// first, without leading zeros (a lone zero for zero).
pub open spec fn dec_str(n: int) -> Seq<char>
    decreases n,
    when n >= 0
{
    if n < 10 {
        seq![digit_char(n)]
    } else {
        dec_str(n / 10).push(digit_char(n % 10))
    }
}

fn digit_str(d: u64) -> (r: &'static str)
    requires
        d < 10,
    ensures
        r@ == seq![digit_char(d as int)],
{
    if d == 0 {
        proof {
            reveal_strlit("0");
            assert("0"@ =~= seq![digit_char(0)]);
        }
        "0"
    } else if d == 1 {
        proof {
            reveal_strlit("1");
            assert("1"@ =~= seq![digit_char(1)]);
        }
        "1"
    } else if d == 2 {
        proof {
            reveal_strlit("2");
            assert("2"@ =~= seq![digit_char(2)]);
        }
        "2"
    } else if d == 3 {
        proof {
            reveal_strlit("3");
            assert("3"@ =~= seq![digit_char(3)]);
        }
        "3"
    } else if d == 4 {
        proof {
            reveal_strlit("4");
            assert("4"@ =~= seq![digit_char(4)]);
        }
        "4"
    } else if d == 5 {
        proof {
            reveal_strlit("5");
            assert("5"@ =~= seq![digit_char(5)]);
        }
        "5"
    } else if d == 6 {
        proof {
            reveal_strlit("6");
            assert("6"@ =~= seq![digit_char(6)]);
        }
        "6"
    } else if d == 7 {
        proof {
            reveal_strlit("7");
            assert("7"@ =~= seq![digit_char(7)]);
        }
        "7"
    } else if d == 8 {
        proof {
            reveal_strlit("8");
            assert("8"@ =~= seq![digit_char(8)]);
        }
        "8"
    } else {
        proof {
            reveal_strlit("9");
            assert("9"@ =~= seq![digit_char(9)]);
        }
        "9"
    }
}

/// Renders a number in decimal.
pub fn u64_to_string(n: u64) -> (r: String)
    ensures
        r@ == dec_str(n as int),
    decreases n,
{
    if n < 10 {
        String::from_str(digit_str(n))
    } else {
        let mut s = u64_to_string(n / 10);
        let ghost prefix = s@;
        s.append(digit_str(n % 10));
        proof {
            assert(s@ =~= prefix.push(digit_char(n as int % 10)));
        }
        s
    }
}

/// A move string with any trailing markers removed.
pub open spec fn drop_trailing_stars(s: Seq<char>) -> Seq<char>
    decreases s.len(),
{
    if s.len() > 0 && s.last() == '*' {
        drop_trailing_stars(s.drop_last())
    } else {
        s
    }
}

/// Removes every trailing `*` marker from a move string.
pub fn trim_end_stars(s: &str) -> (r: String)
    ensures
        r@ == drop_trailing_stars(s@),
{
    let n = s.unicode_len();
    let mut b: usize = n;
    proof {
        assert(s@.take(n as int) =~= s@);
    }
    while b > 0 && s.get_char(b - 1) == '*'
        invariant
            0 <= b <= n,
            n == s@.len(),
            drop_trailing_stars(s@) == drop_trailing_stars(s@.take(b as int)),
        decreases b,
    {
        proof {
            assert(s@.take(b as int).drop_last() =~= s@.take(b as int - 1));
            assert(s@.take(b as int).last() == s@[b as int - 1]);
        }
        b = b - 1;
    }
    proof {
        assert(drop_trailing_stars(s@.take(b as int)) == s@.take(b as int));
    }
    let part = s.substring_char(0, b);
    String::from_str(part)
}

} // verus!
