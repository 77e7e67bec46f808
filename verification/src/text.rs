//! Character-level text helpers: Unicode white space, trimming and decimal numerals.
use vstd::prelude::*;

use crate::clock::ascii_digit;

verus! {

/// The Unicode `White_Space` property, the set that `char::is_whitespace` and `str::trim` use.
pub open spec fn is_white_space(c: char) -> bool {
    let u: u32 = c as u32;
    ||| 0x09 <= u <= 0x0D
    ||| u == 0x20
    ||| u == 0x85
    ||| u == 0xA0
    ||| u == 0x1680
    ||| 0x2000 <= u <= 0x200A
    ||| u == 0x2028
    ||| u == 0x2029
    ||| u == 0x202F
    ||| u == 0x205F
    ||| u == 0x3000
}

/// `s` without its leading white space.
pub open spec fn trim_start(s: Seq<char>) -> Seq<char>
    decreases s.len(),
{
    if s.len() > 0 && is_white_space(s[0]) {
        trim_start(s.drop_first())
    } else {
        s
    }
}

/// `s` without its trailing white space.
pub open spec fn trim_end(s: Seq<char>) -> Seq<char>
    decreases s.len(),
{
    if s.len() > 0 && is_white_space(s.last()) {
        trim_end(s.drop_last())
    } else {
        s
    }
}

/// `s` without leading and trailing white space.
pub open spec fn trimmed(s: Seq<char>) -> Seq<char> {
    trim_end(trim_start(s))
}

/// Whether `c` is white space.
pub fn is_white_space_char(c: char) -> (r: bool)
    ensures
        r == is_white_space(c),
{
    let u: u32 = c as u32;
    (0x09 <= u && u <= 0x0D) || u == 0x20 || u == 0x85 || u == 0xA0 || u == 0x1680 || (0x2000
        <= u && u <= 0x200A) || u == 0x2028 || u == 0x2029 || u == 0x202F || u == 0x205F || u
        == 0x3000
}

proof fn lemma_trim_start_skip(s: Seq<char>, i: int)
    requires
        0 <= i <= s.len(),
        forall|k: int| 0 <= k < i ==> is_white_space(#[trigger] s[k]),
    ensures
        trim_start(s) == trim_start(s.subrange(i, s.len() as int)),
    decreases i,
{
    if i > 0 {
        let t = s.drop_first();
        assert forall|k: int| 0 <= k < i - 1 implies is_white_space(#[trigger] t[k]) by {
            assert(t[k] == s[k + 1]);
        }
        lemma_trim_start_skip(t, i - 1);
        assert(t.subrange(i - 1, t.len() as int) =~= s.subrange(i, s.len() as int));
    } else {
        assert(s.subrange(0, s.len() as int) =~= s);
    }
}

proof fn lemma_trim_end_skip(s: Seq<char>, j: int)
    requires
        0 <= j <= s.len(),
        forall|k: int| j <= k < s.len() ==> is_white_space(#[trigger] s[k]),
    ensures
        trim_end(s) == trim_end(s.subrange(0, j)),
    decreases s.len() - j,
{
    if j < s.len() {
        let t = s.drop_last();
        assert forall|k: int| j <= k < t.len() implies is_white_space(#[trigger] t[k]) by {
            assert(t[k] == s[k]);
        }
        assert(is_white_space(s[s.len() - 1]));
        lemma_trim_end_skip(t, j);
        assert(t.subrange(0, j) =~= s.subrange(0, j));
    } else {
        assert(s.subrange(0, j) =~= s);
    }
}

/// `s` with leading and trailing white space removed, as `str::trim` does.
pub fn trim_white_space(s: &str) -> (r: String)
    ensures
        r@ == trimmed(s@),
{
    let n: usize = s.unicode_len();
    let mut start: usize = 0;
    while start < n && is_white_space_char(s.get_char(start))
        invariant
            n == s@.len(),
            start <= n,
            forall|k: int| 0 <= k < start ==> is_white_space(#[trigger] s@[k]),
        decreases n - start,
    {
        start = start + 1;
    }
    let ghost tail = s@.subrange(start as int, n as int);
    proof {
        lemma_trim_start_skip(s@, start as int);
        if start < n {
            assert(tail[0] == s@[start as int]);
        }
        assert(trim_start(s@) == tail);
    }
    let mut end: usize = n;
    while end > start && is_white_space_char(s.get_char(end - 1))
        invariant
            n == s@.len(),
            start <= end <= n,
            tail == s@.subrange(start as int, n as int),
            forall|k: int| end <= k < n ==> is_white_space(#[trigger] s@[k]),
        decreases end - start,
    {
        end = end - 1;
    }
    let ghost kept = s@.subrange(start as int, end as int);
    proof {
        let j: int = end - start;
        assert forall|k: int| j <= k < tail.len() implies is_white_space(#[trigger] tail[k]) by {
            assert(tail[k] == s@[start + k]);
        }
        lemma_trim_end_skip(tail, j);
        assert(tail.subrange(0, j) =~= kept);
        if end > start {
            assert(kept.last() == s@[end - 1]);
        }
        assert(trim_end(kept) == kept);
    }
    let piece = s.substring_char(start, end);
    String::from_str(piece)
}

/// The decimal digit character for `d` (meaningful for `d < 10`).
pub open spec fn digit_char(d: nat) -> char {
    if d == 0 {
        '0'
    } else if d == 1 {
        '1'
    } else if d == 2 {
        '2'
    } else if d == 3 {
        '3'
    } else if d == 4 {
        '4'
    } else if d == 5 {
        '5'
    } else if d == 6 {
        '6'
    } else if d == 7 {
        '7'
    } else if d == 8 {
        '8'
    } else {
        '9'
    }
}

/// Decimal digits of a natural number, most significant first, without leading zeros.
pub open spec fn decimal_digits(n: nat) -> Seq<char>
    decreases n,
{
    if n < 10 {
        seq![digit_char(n)]
    } else {
        decimal_digits(n / 10) + seq![digit_char(n % 10)]
    }
}

/// An integer written in decimal, with a leading `-` when negative (as `{}` formats integers).
pub open spec fn decimal(n: int) -> Seq<char> {
    if n < 0 {
        seq!['-'] + decimal_digits((-n) as nat)
    } else {
        decimal_digits(n as nat)
    }
}

fn digit_str(d: u64) -> (r: &'static str)
    requires
        d < 10,
    ensures
        r@ == seq![digit_char(d as nat)],
{
    proof {
        reveal_strlit("0");
        reveal_strlit("1");
        reveal_strlit("2");
        reveal_strlit("3");
        reveal_strlit("4");
        reveal_strlit("5");
        reveal_strlit("6");
        reveal_strlit("7");
        reveal_strlit("8");
        reveal_strlit("9");
    }
    if d == 0 {
        "0"
    } else if d == 1 {
        "1"
    } else if d == 2 {
        "2"
    } else if d == 3 {
        "3"
    } else if d == 4 {
        "4"
    } else if d == 5 {
        "5"
    } else if d == 6 {
        "6"
    } else if d == 7 {
        "7"
    } else if d == 8 {
        "8"
    } else {
        "9"
    }
}

/// The decimal numeral of `n`, as `format!("{}", n)` writes it.
pub fn decimal_string(n: i64) -> (r: String)
    ensures
        r@ == decimal(n as int),
{
    let mag: u64 = if n < 0 {
        (0i128 - (n as i128)) as u64
    } else {
        n as u64
    };
    let mut m: u64 = mag;
    let mut acc = String::new();
    while m >= 10
        invariant
            decimal_digits(mag as nat) == decimal_digits(m as nat) + acc@,
        decreases m,
    {
        let d: u64 = m % 10;
        let piece = String::from_str(digit_str(d));
        let ghost before = acc@;
        acc = piece.concat(acc.as_str());
        proof {
            assert(decimal_digits(m as nat) == decimal_digits((m / 10) as nat) + seq![
                digit_char((m % 10) as nat),
            ]);
            assert(decimal_digits((m / 10) as nat) + acc@ =~= decimal_digits((m / 10) as nat)
                + seq![digit_char((m % 10) as nat)] + before);
        }
        m = m / 10;
    }
    let first = String::from_str(digit_str(m));
    let digits = first.concat(acc.as_str());
    assert(digits@ =~= decimal_digits(mag as nat));
    if n < 0 {
        proof {
            reveal_strlit("-");
        }
        let minus = String::from_str("-");
        let r = minus.concat(digits.as_str());
        assert(r@ =~= decimal(n as int));
        r
    } else {
        digits
    }
}

proof fn lemma_trim_start_first(s: Seq<char>)
    ensures
        trim_start(s).len() == 0 || !is_white_space(trim_start(s)[0]),
    decreases s.len(),
{
    if s.len() > 0 && is_white_space(s[0]) {
        lemma_trim_start_first(s.drop_first());
    }
}

proof fn lemma_trim_end_prefix(s: Seq<char>)
    ensures
        trim_end(s).len() <= s.len(),
        trim_end(s) == s.subrange(0, trim_end(s).len() as int),
        trim_end(s).len() == 0 || !is_white_space(trim_end(s).last()),
    decreases s.len(),
{
    if s.len() > 0 && is_white_space(s.last()) {
        let t = s.drop_last();
        lemma_trim_end_prefix(t);
        assert(t.subrange(0, trim_end(t).len() as int) =~= s.subrange(
            0,
            trim_end(t).len() as int,
        ));
    } else {
        assert(s.subrange(0, s.len() as int) =~= s);
    }
}

/// Trimming leaves text that neither starts nor ends with white space.
pub proof fn lemma_trimmed_is_clean(s: Seq<char>)
    ensures
        trimmed(s).len() == 0 || (!is_white_space(trimmed(s)[0]) && !is_white_space(
            trimmed(s).last(),
        )),
{
    let t = trim_start(s);
    lemma_trim_start_first(s);
    lemma_trim_end_prefix(t);
    if trimmed(s).len() > 0 {
        assert(trimmed(s)[0] == t[0]);
    }
}

/// Trimming twice is trimming once.
pub proof fn lemma_trim_idempotent(s: Seq<char>)
    ensures
        trimmed(trimmed(s)) == trimmed(s),
{
    let c = trimmed(s);
    lemma_trimmed_is_clean(s);
    assert(trim_start(c) == c);
    assert(trim_end(c) == c);
}

/// Trimming keeps exactly the text from the first to the last character that is not white
/// space: when everything before `i` and from `j` on is white space and the characters at `i`
/// and `j - 1` are not, the trimmed text is the piece from `i` up to `j`.
pub proof fn lemma_trimmed_characterized(s: Seq<char>, i: int, j: int)
    requires
        0 <= i < j <= s.len(),
        forall|k: int| 0 <= k < i ==> is_white_space(#[trigger] s[k]),
        forall|k: int| j <= k < s.len() ==> is_white_space(#[trigger] s[k]),
        !is_white_space(s[i]),
        !is_white_space(s[j - 1]),
    ensures
        trimmed(s) == s.subrange(i, j),
{
    let tail = s.subrange(i, s.len() as int);
    lemma_trim_start_skip(s, i);
    assert(tail[0] == s[i]);
    assert(trim_start(tail) == tail);
    let m = j - i;
    assert forall|k: int| m <= k < tail.len() implies is_white_space(#[trigger] tail[k]) by {
        assert(tail[k] == s[i + k]);
    }
    lemma_trim_end_skip(tail, m);
    let kept = tail.subrange(0, m);
    assert(kept =~= s.subrange(i, j));
    assert(kept.last() == s[j - 1]);
    assert(trim_end(kept) == kept);
}

/// Text made only of white space trims to nothing.
pub proof fn lemma_trimmed_all_white(s: Seq<char>)
    requires
        forall|k: int| 0 <= k < s.len() ==> is_white_space(#[trigger] s[k]),
    ensures
        trimmed(s).len() == 0,
{
    lemma_trim_start_skip(s, s.len() as int);
    assert(s.subrange(s.len() as int, s.len() as int).len() == 0);
}

/// The number that a string of decimal digits denotes.
pub open spec fn numeral_value(s: Seq<char>) -> int
    decreases s.len(),
{
    if s.len() == 0 {
        0
    } else {
        numeral_value(s.drop_last()) * 10 + ((s.last() as u32) as int - 48)
    }
}

proof fn lemma_digit_char_value(d: nat)
    requires
        d < 10,
    ensures
        (digit_char(d) as u32) as int - 48 == d,
        ascii_digit(digit_char(d)),
        d > 0 ==> digit_char(d) != '0',
{
}

/// The decimal digits of `n` are ASCII digits, without a leading zero unless `n` is 0, and
/// denote `n`.
pub proof fn lemma_decimal_digits_denote(n: nat)
    ensures
        decimal_digits(n).len() > 0,
        forall|k: int| 0 <= k < decimal_digits(n).len() ==> ascii_digit(#[trigger] decimal_digits(n)[k]),
        decimal_digits(n).len() > 1 ==> decimal_digits(n)[0] != '0',
        n >= 10 ==> decimal_digits(n).len() > 1,
        numeral_value(decimal_digits(n)) == n,
    decreases n,
{
    if n < 10 {
        lemma_digit_char_value(n);
        let s = decimal_digits(n);
        assert(s.drop_last() =~= Seq::<char>::empty());
        assert(numeral_value(s.drop_last()) == 0);
        assert(numeral_value(s) == numeral_value(s.drop_last()) * 10 + ((s.last() as u32) as int
            - 48));
    } else {
        let q: nat = n / 10;
        let r: nat = n % 10;
        lemma_decimal_digits_denote(q);
        lemma_digit_char_value(r);
        let s = decimal_digits(n);
        assert(s == decimal_digits(q) + seq![digit_char(r)]);
        assert(s.drop_last() =~= decimal_digits(q));
        assert(s.last() == digit_char(r));
        assert(numeral_value(s) == numeral_value(s.drop_last()) * 10 + ((s.last() as u32) as int
            - 48));
        assert(q * 10 + r == n) by (nonlinear_arith)
            requires
                q == n / 10,
                r == n % 10,
        ;
        assert forall|k: int| 0 <= k < s.len() implies ascii_digit(#[trigger] s[k]) by {
            if k < s.len() - 1 {
                assert(s[k] == decimal_digits(q)[k]);
            }
        }
        assert(s[0] == decimal_digits(q)[0]);
        if q < 10 {
            lemma_digit_char_value(q);
            assert(decimal_digits(q) == seq![digit_char(q)]);
        }
    }
}

/// The decimal numeral of an integer is its digits, preceded by `-` exactly when it is
/// negative, and the digits denote its magnitude.
pub proof fn lemma_decimal_denotes(n: int)
    ensures
        n >= 0 ==> numeral_value(decimal(n)) == n && decimal(n)[0] != '-',
        n < 0 ==> decimal(n)[0] == '-' && numeral_value(decimal(n).drop_first()) == -n,
{
    if n >= 0 {
        lemma_decimal_digits_denote(n as nat);
    } else {
        lemma_decimal_digits_denote((-n) as nat);
        assert(decimal(n).drop_first() =~= decimal_digits((-n) as nat));
    }
}

} // verus!
