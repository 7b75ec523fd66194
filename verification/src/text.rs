//! Text helpers: trimming, searching and number formatting on `&str`.
use vstd::prelude::*;
use vstd::string::{StrSliceExecFns, StringExecFns};

verus! {

/// Decoded bytes, or the text of the error that the decoder reported.
pub type Decoded = Result<Seq<u8>, Seq<char>>;

/// The Unicode `White_Space` property.
pub open spec fn is_white_space(c: char) -> bool {
    ||| '\u{9}' <= c <= '\u{d}'
    ||| c == ' '
    ||| c == '\u{85}'
    ||| c == '\u{a0}'
    ||| c == '\u{1680}'
    ||| '\u{2000}' <= c <= '\u{200a}'
    ||| c == '\u{2028}'
    ||| c == '\u{2029}'
    ||| c == '\u{202f}'
    ||| c == '\u{205f}'
    ||| c == '\u{3000}'
}

/// `s` without its leading white space.
pub open spec fn trimmed_start(s: Seq<char>) -> Seq<char>
    decreases s.len(),
{
    if s.len() > 0 && is_white_space(s.first()) {
        trimmed_start(s.drop_first())
    } else {
        s
    }
}

/// `s` without its trailing white space.
pub open spec fn trimmed_end(s: Seq<char>) -> Seq<char>
    decreases s.len(),
{
    if s.len() > 0 && is_white_space(s.last()) {
        trimmed_end(s.drop_last())
    } else {
        s
    }
}

/// `s` without leading and trailing white space.
pub open spec fn trimmed(s: Seq<char>) -> Seq<char> {
    trimmed_end(trimmed_start(s))
}

/// `s` without the run of `c` at its end.
pub open spec fn without_trailing(s: Seq<char>, c: char) -> Seq<char>
    decreases s.len(),
{
    if s.len() > 0 && s.last() == c {
        without_trailing(s.drop_last(), c)
    } else {
        s
    }
}

/// Tests one character for the `White_Space` property.
fn white_space(c: char) -> (r: bool)
    ensures
        r == is_white_space(c),
{
    ('\u{9}' <= c && c <= '\u{d}') || c == ' ' || c == '\u{85}' || c == '\u{a0}' || c == '\u{1680}'
        || ('\u{2000}' <= c && c <= '\u{200a}') || c == '\u{2028}' || c == '\u{2029}'
        || c == '\u{202f}' || c == '\u{205f}' || c == '\u{3000}'
}

/// Removes leading and trailing white space.
pub fn trim<'a>(s: &'a str) -> (r: &'a str)
    ensures
        r@ == trimmed(s@),
{
    let n: usize = s.unicode_len();
    let mut from: usize = 0;
    assert(s@.subrange(0, n as int) =~= s@);
    while from < n && white_space(s.get_char(from))
        invariant
            from <= n,
            n == s@.len(),
            trimmed_start(s@) == trimmed_start(s@.subrange(from as int, n as int)),
        decreases n - from,
    {
        proof {
            let rest = s@.subrange(from as int, n as int);
            assert(rest.drop_first() =~= s@.subrange(from + 1, n as int));
        }
        from = from + 1;
    }
    let ghost rest = s@.subrange(from as int, n as int);
    assert(trimmed_start(s@) == rest);
    let mut to: usize = n;
    while from < to && white_space(s.get_char(to - 1))
        invariant
            from <= to <= n,
            n == s@.len(),
            trimmed_end(rest) == trimmed_end(s@.subrange(from as int, to as int)),
        decreases to - from,
    {
        proof {
            let cur = s@.subrange(from as int, to as int);
            assert(cur.drop_last() =~= s@.subrange(from as int, to - 1));
        }
        to = to - 1;
    }
    s.substring_char(from, to)
}

/// Removes the run of `c` at the end of `s`.
pub fn trim_end_matches<'a>(s: &'a str, c: char) -> (r: &'a str)
    ensures
        r@ == without_trailing(s@, c),
{
    let n: usize = s.unicode_len();
    let mut to: usize = n;
    assert(s@.subrange(0, n as int) =~= s@);
    while 0 < to && s.get_char(to - 1) == c
        invariant
            to <= n,
            n == s@.len(),
            without_trailing(s@, c) == without_trailing(s@.subrange(0, to as int), c),
        decreases to,
    {
        proof {
            assert(s@.subrange(0, to as int).drop_last() =~= s@.subrange(0, to - 1));
        }
        to = to - 1;
    }
    s.substring_char(0, to)
}

/// Tests whether `s` begins with `prefix`.
pub fn starts_with(s: &str, prefix: &str) -> (r: bool)
    ensures
        r == prefix@.is_prefix_of(s@),
{
    let n: usize = prefix.unicode_len();
    if s.unicode_len() < n {
        return false;
    }
    let mut i: usize = 0;
    while i < n
        invariant
            i <= n,
            n == prefix@.len(),
            n <= s@.len(),
            forall|j: int| 0 <= j < i ==> s@[j] == prefix@[j],
        decreases n - i,
    {
        if s.get_char(i) != prefix.get_char(i) {
            assert(s@.subrange(0, n as int)[i as int] != prefix@[i as int]);
            return false;
        }
        i = i + 1;
    }
    assert(prefix@ =~= s@.subrange(0, n as int));
    true
}

/// Tests whether `c` occurs in `s`.
pub fn contains_char(s: &str, c: char) -> (r: bool)
    ensures
        r == s@.contains(c),
{
    for x in it: s.chars()
        invariant
            it.seq() == s@,
            forall|j: int| 0 <= j < it.index() ==> s@[j] != c,
    {
        if x == c {
            assert(s@[it.index()] == c);
            return true;
        }
    }
    false
}

/// Tests two texts for equality.
pub fn same(a: &str, b: &str) -> (r: bool)
    ensures
        r == (a@ == b@),
{
    a.to_owned() == b.to_owned()
}

/// Tests whether a text holds nothing.
pub fn is_empty(s: &str) -> (r: bool)
    ensures
        r == (s@.len() == 0),
{
    s.unicode_len() == 0
}

/// The character for a digit of base sixteen, in lower case.
pub open spec fn digit_char(d: int) -> char {
    if d < 10 {
        ('0' as int + d) as char
    } else {
        ('a' as int + d - 10) as char
    }
}

/// `n` in decimal, without leading zeros.
pub open spec fn decimal_digits(n: nat) -> Seq<char>
    decreases n,
{
    if n < 10 {
        seq![digit_char(n as int)]
    } else {
        decimal_digits(n / 10).push(digit_char((n % 10) as int))
    }
}

/// `n` in decimal, with zeros in front up to `width` characters.
pub open spec fn padded_digits(n: nat, width: nat) -> Seq<char> {
    let digits = decimal_digits(n);
    if digits.len() < width {
        Seq::new((width - digits.len()) as nat, |i: int| '0') + digits
    } else {
        digits
    }
}

/// Two hexadecimal digits for each byte, the high half first.
pub open spec fn hex_digits(bytes: Seq<u8>) -> Seq<char>
    decreases bytes.len(),
{
    if bytes.len() == 0 {
        Seq::empty()
    } else {
        hex_digits(bytes.drop_last()) + seq![
            digit_char(bytes.last() as int / 16),
            digit_char(bytes.last() as int % 16),
        ]
    }
}

/// The text of one digit of base sixteen.
fn digit(d: u8) -> (r: &'static str)
    requires
        d < 16,
    ensures
        r@ == seq![digit_char(d as int)],
{
    proof {
        reveal_strlit("0");
        reveal_strlit("1");
        reveal_strlit("2");
        reveal_strlit("3");
        reveal_strlit("4");
        reveal_strlit("5");
        reveal_strlit("6");
        reveal_strlit("7");
        reveal_strlit("8");
        reveal_strlit("9");
        reveal_strlit("a");
        reveal_strlit("b");
        reveal_strlit("c");
        reveal_strlit("d");
        reveal_strlit("e");
        reveal_strlit("f");
    }
    match d {
        0 => "0",
        1 => "1",
        2 => "2",
        3 => "3",
        4 => "4",
        5 => "5",
        6 => "6",
        7 => "7",
        8 => "8",
        9 => "9",
        10 => "a",
        11 => "b",
        12 => "c",
        13 => "d",
        14 => "e",
        _ => "f",
    }
}

/// Writes `n` in decimal.
pub fn decimal(n: u64) -> (r: String)
    ensures
        r@ == decimal_digits(n as nat),
    decreases n,
{
    if n < 10 {
        digit(n as u8).to_owned()
    } else {
        let head = decimal(n / 10);
        let r = head.concat(digit((n % 10) as u8));
        assert(r@ =~= decimal_digits(n as nat));
        r
    }
}

/// Writes `n` in decimal, with zeros in front up to `width` characters.
pub fn padded(n: u64, width: usize) -> (r: String)
    ensures
        r@ == padded_digits(n as nat, width as nat),
{
    let digits = decimal(n);
    let len: usize = digits.as_str().unicode_len();
    let mut zeros = String::new();
    let mut i: usize = len;
    assert(zeros@ =~= Seq::new(0, |i: int| '0'));
    while i < width
        invariant
            len <= i,
            i <= width || i == len,
            zeros@ == Seq::new((i - len) as nat, |i: int| '0'),
        decreases width - i,
    {
        proof {
            reveal_strlit("0");
        }
        zeros.append("0");
        i = i + 1;
        assert(zeros@ =~= Seq::new((i - len) as nat, |i: int| '0'));
    }
    let r = zeros.concat(digits.as_str());
    assert(r@ =~= padded_digits(n as nat, width as nat));
    r
}

/// Writes each byte as two lower-case hexadecimal digits.
pub fn hex(bytes: &[u8]) -> (r: String)
    ensures
        r@ == hex_digits(bytes@),
        r@.len() == 2 * bytes@.len(),
{
    let mut r = String::new();
    let n: usize = bytes.len();
    let mut i: usize = 0;
    assert(bytes@.subrange(0, 0) =~= Seq::<u8>::empty());
    while i < n
        invariant
            i <= n,
            n == bytes@.len(),
            r@ == hex_digits(bytes@.subrange(0, i as int)),
            r@.len() == 2 * i,
        decreases n - i,
    {
        let b: u8 = bytes[i];
        proof {
            assert(bytes@.subrange(0, i + 1).drop_last() =~= bytes@.subrange(0, i as int));
        }
        r.append(digit(b / 16));
        r.append(digit(b % 16));
        i = i + 1;
        assert(r@ =~= hex_digits(bytes@.subrange(0, i as int)));
    }
    assert(bytes@.subrange(0, n as int) =~= bytes@);
    r
}

/// Joins two texts.
pub fn join(a: &str, b: &str) -> (r: String)
    ensures
        r@ == a@ + b@,
{
    a.to_owned().concat(b)
}

/// Joins three texts.
pub fn join3(a: &str, b: &str, c: &str) -> (r: String)
    ensures
        r@ == a@ + b@ + c@,
{
    join(a, b).concat(c)
}

/// White space in front is trimmed away.
proof fn lemma_trimmed_start_skips(before: Seq<char>, s: Seq<char>)
    requires
        forall|i: int| 0 <= i < before.len() ==> is_white_space(#[trigger] before[i]),
    ensures
        trimmed_start(before + s) == trimmed_start(s),
    decreases before.len(),
{
    if before.len() > 0 {
        assert((before + s).drop_first() =~= before.drop_first() + s);
        lemma_trimmed_start_skips(before.drop_first(), s);
    } else {
        assert(before + s =~= s);
    }
}

/// White space behind is trimmed away.
proof fn lemma_trimmed_end_skips(s: Seq<char>, after: Seq<char>)
    requires
        forall|i: int| 0 <= i < after.len() ==> is_white_space(#[trigger] after[i]),
    ensures
        trimmed_end(s + after) == trimmed_end(s),
    decreases after.len(),
{
    if after.len() > 0 {
        assert((s + after).drop_last() =~= s + after.drop_last());
        lemma_trimmed_end_skips(s, after.drop_last());
    } else {
        assert(s + after =~= s);
    }
}

/// Leading white space is the same with white space appended, unless there is nothing else.
proof fn lemma_trimmed_start_keeps(s: Seq<char>, after: Seq<char>)
    ensures
        trimmed_start(s).len() > 0 ==> trimmed_start(s + after) == trimmed_start(s) + after,
        trimmed_start(s).len() == 0 ==> trimmed_start(s + after) == trimmed_start(after),
    decreases s.len(),
{
    if s.len() > 0 {
        assert((s + after).drop_first() =~= s.drop_first() + after);
        lemma_trimmed_start_keeps(s.drop_first(), after);
    } else {
        assert(s + after =~= after);
    }
}

/// White space around a text does not change its trimming.
pub proof fn lemma_trimmed_ignores_white_space(before: Seq<char>, s: Seq<char>, after: Seq<char>)
    requires
        forall|i: int| 0 <= i < before.len() ==> is_white_space(#[trigger] before[i]),
        forall|i: int| 0 <= i < after.len() ==> is_white_space(#[trigger] after[i]),
    ensures
        trimmed(before + s + after) == trimmed(s),
{
    assert(before + s + after =~= before + (s + after));
    lemma_trimmed_start_skips(before, s + after);
    lemma_trimmed_start_keeps(s, after);
    lemma_trimmed_end_skips(trimmed_start(s), after);
    if trimmed_start(s).len() == 0 {
        assert(after + Seq::<char>::empty() =~= after);
        lemma_trimmed_start_skips(after, Seq::empty());
    }
}

/// A text that trimming leaves alone begins and ends with a character other than white space.
pub proof fn lemma_trimmed_ends(s: Seq<char>)
    requires
        s.len() > 0,
        trimmed(s) == s,
    ensures
        !is_white_space(s.first()),
        !is_white_space(s.last()),
{
    lemma_trimmed_end_len(trimmed_start(s));
    lemma_trimmed_start_len(s);
}

/// A number of up to four digits, padded: as many characters as asked for, all of them digits.
pub proof fn lemma_padded_digits(n: nat, width: nat)
    requires
        1 <= width <= 4,
        width == 1 ==> n <= 9,
        width == 2 ==> n <= 99,
        width == 3 ==> n <= 999,
        width == 4 ==> n <= 9999,
    ensures
        padded_digits(n, width).len() == width,
        forall|i: int|
            0 <= i < width ==> '0' <= #[trigger] padded_digits(n, width)[i] <= '9',
{
    reveal_with_fuel(decimal_digits, 4);
    lemma_decimal_are_digits(n);
    let digits = decimal_digits(n);
    assert(digits.len() <= width);
    let zeros = width - digits.len();
    assert forall|i: int| 0 <= i < width implies '0' <= #[trigger] padded_digits(n, width)[i]
        <= '9' by {
        if i >= zeros {
            assert(padded_digits(n, width)[i] == digits[i - zeros]);
        }
    }
}

/// A number in decimal is made of digits, of one at least.
pub proof fn lemma_decimal_are_digits(n: nat)
    ensures
        decimal_digits(n).len() > 0,
        forall|i: int|
            0 <= i < decimal_digits(n).len() ==> '0' <= #[trigger] decimal_digits(n)[i] <= '9',
    decreases n,
{
    if n >= 10 {
        lemma_decimal_are_digits(n / 10);
        let head = decimal_digits(n / 10);
        let all = decimal_digits(n);
        assert forall|i: int| 0 <= i < all.len() implies '0' <= #[trigger] all[i] <= '9' by {
            if i < head.len() {
                assert(all[i] == head[i]);
            }
        }
    }
}

/// What trimming leaves begins and ends with a character other than white space.
pub proof fn lemma_trimmed_has_no_ends(s: Seq<char>)
    ensures
        trimmed(s).len() > 0 ==> !is_white_space(trimmed(s).first()) && !is_white_space(
            trimmed(s).last(),
        ),
    decreases s.len(),
{
    if s.len() > 0 && is_white_space(s.first()) {
        lemma_trimmed_has_no_ends(s.drop_first());
    } else {
        lemma_trimmed_end_keeps_first(s);
    }
}

/// Trimming behind leaves the first character where it leaves any, and no white space at the end.
proof fn lemma_trimmed_end_keeps_first(s: Seq<char>)
    ensures
        trimmed_end(s).len() > 0 ==> s.len() > 0 && trimmed_end(s).first() == s.first()
            && !is_white_space(trimmed_end(s).last()),
    decreases s.len(),
{
    if s.len() > 0 && is_white_space(s.last()) {
        lemma_trimmed_end_keeps_first(s.drop_last());
    }
}

/// A longer run at the end leaves the same text before it.
pub proof fn lemma_without_trailing_more(s: Seq<char>, run: Seq<char>, c: char)
    requires
        forall|i: int| 0 <= i < run.len() ==> #[trigger] run[i] == c,
    ensures
        without_trailing(s + run, c) == without_trailing(s, c),
    decreases run.len(),
{
    if run.len() == 0 {
        assert(s + run =~= s);
    } else {
        assert((s + run).last() == run[run.len() - 1]);
        assert((s + run).drop_last() =~= s + run.drop_last());
        lemma_without_trailing_more(s, run.drop_last(), c);
    }
}

/// Trimming in front does not lengthen a text, and shortens it where it begins with white space.
proof fn lemma_trimmed_start_len(s: Seq<char>)
    ensures
        trimmed_start(s).len() <= s.len(),
        s.len() > 0 && is_white_space(s.first()) ==> trimmed_start(s).len() < s.len(),
    decreases s.len(),
{
    if s.len() > 0 && is_white_space(s.first()) {
        lemma_trimmed_start_len(s.drop_first());
    }
}

/// Trimming behind does not lengthen a text, and shortens it where it ends with white space.
proof fn lemma_trimmed_end_len(s: Seq<char>)
    ensures
        trimmed_end(s).len() <= s.len(),
        s.len() > 0 && is_white_space(s.last()) ==> trimmed_end(s).len() < s.len(),
    decreases s.len(),
{
    if s.len() > 0 && is_white_space(s.last()) {
        lemma_trimmed_end_len(s.drop_last());
    }
}

} // verus!
