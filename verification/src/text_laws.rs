//! What the text helpers do, call by call, in plain characters and numbers.
//!
//! Each law is about the result of a call, whatever it is.
use vstd::prelude::*;

use crate::text::{
    self, contains_char, decimal, hex, is_empty, join, join3, padded, same, starts_with, trim,
    trim_end_matches,
};

verus! {

/// An optional text, by its characters.
pub open spec fn chars(text: Option<String>) -> Option<Seq<char>> {
    match text {
        Some(t) => Some(t@),
        None => None,
    }
}

/// The number that decimal digits give.
pub open spec fn number(digits: Seq<char>) -> int
    decreases digits.len(),
{
    if digits.len() == 0 {
        0
    } else {
        10 * number(digits.drop_last()) + (digits.last() as int - 48)
    }
}

/// The characters that Unicode counts as white space, by their numbers.
pub open spec fn is_blank(n: int) -> bool {
    9 <= n <= 13 || n == 32 || n == 133 || n == 160 || n == 5760 || 8192 <= n <= 8202 || n == 8232
        || n == 8233 || n == 8239 || n == 8287 || n == 12288
}

/// The value of a hexadecimal digit in lower case.
pub open spec fn hex_value(c: char) -> int {
    if '0' <= c <= '9' {
        c as int - 48
    } else {
        c as int - 87
    }
}

/// A hexadecimal digit in lower case.
pub open spec fn is_hex(c: char) -> bool {
    48 <= c as int <= 57 || 97 <= c as int <= 102
}

/// White space is what Unicode counts as such.
pub proof fn law_white_space_is_unicode(c: char)
    ensures
        text::is_white_space(c) <==> is_blank(c as int),
{
}

/// Trimming takes white space away at both ends, all of it and nothing else.
pub proof fn law_trim_takes_white_space_away(s: &str, r: &str)
    requires
        call_ensures(trim, (s,), r),
    ensures
        exists|before: Seq<char>, after: Seq<char>|
            s@ == #[trigger] (before + r@ + after) && (forall|i: int|
                0 <= i < before.len() ==> is_blank(#[trigger] before[i] as int)) && (forall|i: int|
                0 <= i < after.len() ==> is_blank(#[trigger] after[i] as int)),
        r@.len() > 0 ==> !is_blank(r@.first() as int) && !is_blank(r@.last() as int),
{
    text::lemma_trimmed_has_no_ends(s@);
    let front = lemma_start(s@);
    let rest = text::trimmed_start(s@);
    let back = lemma_end(rest);
    assert(s@ =~= front + r@ + back);
}

/// What trimming in front takes away.
proof fn lemma_start(s: Seq<char>) -> (before: Seq<char>)
    ensures
        s == before + text::trimmed_start(s),
        forall|i: int| 0 <= i < before.len() ==> is_blank(#[trigger] before[i] as int),
    decreases s.len(),
{
    if s.len() > 0 && text::is_white_space(s.first()) {
        let rest = lemma_start(s.drop_first());
        let before = seq![s.first()] + rest;
        assert(s =~= seq![s.first()] + s.drop_first());
        assert(seq![s.first()] + (rest + text::trimmed_start(s)) =~= before + text::trimmed_start(
            s,
        ));
        before
    } else {
        assert(s =~= Seq::<char>::empty() + s);
        Seq::empty()
    }
}

/// What trimming behind takes away.
proof fn lemma_end(s: Seq<char>) -> (after: Seq<char>)
    ensures
        s == text::trimmed_end(s) + after,
        forall|i: int| 0 <= i < after.len() ==> is_blank(#[trigger] after[i] as int),
    decreases s.len(),
{
    if s.len() > 0 && text::is_white_space(s.last()) {
        let rest = lemma_end(s.drop_last());
        let after = rest.push(s.last());
        assert(s =~= s.drop_last().push(s.last()));
        assert((text::trimmed_end(s) + rest).push(s.last()) =~= text::trimmed_end(s) + after);
        after
    } else {
        assert(s =~= s + Seq::<char>::empty());
        Seq::empty()
    }
}

/// The run of a character at the end goes, all of it and nothing else.
pub proof fn law_run_at_the_end_goes(s: &str, c: char, r: &str)
    requires
        call_ensures(trim_end_matches, (s, c), r),
    ensures
        r@.len() <= s@.len(),
        forall|i: int| 0 <= i < r@.len() ==> #[trigger] r@[i] == s@[i],
        forall|i: int| r@.len() <= i < s@.len() ==> #[trigger] s@[i] == c,
        r@.len() > 0 ==> r@.last() != c,
{
    lemma_run(s@, c);
}

/// The run of a character at the end.
proof fn lemma_run(s: Seq<char>, c: char)
    ensures
        ({
            let r = text::without_trailing(s, c);
            &&& r.len() <= s.len()
            &&& forall|i: int| 0 <= i < r.len() ==> #[trigger] r[i] == s[i]
            &&& forall|i: int| r.len() <= i < s.len() ==> #[trigger] s[i] == c
            &&& r.len() > 0 ==> r.last() != c
        }),
    decreases s.len(),
{
    if s.len() > 0 && s.last() == c {
        let rest = s.drop_last();
        lemma_run(rest, c);
        let r = text::without_trailing(s, c);
        assert forall|i: int| 0 <= i < r.len() implies #[trigger] r[i] == s[i] by {
            assert(r[i] == rest[i]);
        }
        assert forall|i: int| r.len() <= i < s.len() implies #[trigger] s[i] == c by {
            if i < rest.len() {
                assert(rest[i] == s[i]);
            }
        }
    }
}

/// The tests on texts say what their names say.
pub proof fn law_tests_on_texts(
    a: &str,
    b: &str,
    c: char,
    begins: bool,
    holds: bool,
    equal: bool,
    empty: bool,
)
    requires
        call_ensures(starts_with, (a, b), begins),
        call_ensures(contains_char, (a, c), holds),
        call_ensures(same, (a, b), equal),
        call_ensures(is_empty, (a,), empty),
    ensures
        begins <==> a@.len() >= b@.len() && (forall|i: int|
            0 <= i < b@.len() ==> #[trigger] a@[i] == b@[i]),
        holds <==> exists|i: int| 0 <= i < a@.len() && #[trigger] a@[i] == c,
        equal <==> a@.len() == b@.len() && (forall|i: int|
            0 <= i < b@.len() ==> #[trigger] a@[i] == b@[i]),
        empty <==> a@.len() == 0,
{
    if a@.len() >= b@.len() && (forall|i: int| 0 <= i < b@.len() ==> #[trigger] a@[i] == b@[i]) {
        assert(b@ =~= a@.subrange(0, b@.len() as int));
        if a@.len() == b@.len() {
            assert(a@ =~= b@);
        }
    }
    if begins {
        assert forall|i: int| 0 <= i < b@.len() implies #[trigger] a@[i] == b@[i] by {
            assert(a@.subrange(0, b@.len() as int)[i] == a@[i]);
        }
    }
}

/// Texts are joined one behind the other.
pub proof fn law_joined_texts(a: &str, b: &str, c: &str, two: String, three: String)
    requires
        call_ensures(join, (a, b), two),
        call_ensures(join3, (a, b, c), three),
    ensures
        two@.len() == a@.len() + b@.len(),
        three@.len() == a@.len() + b@.len() + c@.len(),
        forall|i: int|
            0 <= i < a@.len() ==> #[trigger] a@[i] == two@[i] && a@[i] == three@[i],
        forall|i: int|
            0 <= i < b@.len() ==> #[trigger] b@[i] == two@[a@.len() + i] && b@[i] == three@[a@.len()
                + i],
        forall|i: int|
            0 <= i < c@.len() ==> #[trigger] c@[i] == three@[a@.len() + b@.len() + i],
{
}

/// A number in decimal is made of digits, gives the number back, and has no zero in front.
pub proof fn law_decimal_gives_the_number_back(n: nat)
    ensures
        number(text::decimal_digits(n)) == n,
        forall|i: int|
            0 <= i < text::decimal_digits(n).len() ==> 48 <= #[trigger] text::decimal_digits(
                n,
            )[i] as int <= 57,
        n > 0 ==> text::decimal_digits(n).first() != '0',
        n < 10 ==> text::decimal_digits(n).len() == 1,
        text::decimal_digits(n).len() > 0,
    decreases n,
{
    text::lemma_decimal_are_digits(n);
    reveal_with_fuel(number, 2);
    let all = text::decimal_digits(n);
    if n >= 10 {
        law_decimal_gives_the_number_back(n / 10);
        let head = text::decimal_digits(n / 10);
        assert(all.drop_last() =~= head);
        assert(all.first() == head.first());
    }
}

/// What is written in decimal is the number, with as many digits as it takes.
pub proof fn law_decimal_is_written(n: u64, r: String)
    requires
        call_ensures(decimal, (n,), r),
    ensures
        number(r@) == n,
        r@.len() > 0,
        forall|i: int| 0 <= i < r@.len() ==> 48 <= #[trigger] r@[i] as int <= 57,
        r@.len() > 1 ==> r@.first() != '0',
{
    law_decimal_gives_the_number_back(n as nat);
}

/// What is written padded is the number, with at least as many digits as asked for, and with more
/// only if the number takes more.
pub proof fn law_padded_is_written(n: u64, width: usize, r: String)
    requires
        call_ensures(padded, (n, width), r),
    ensures
        number(r@) == n,
        r@.len() >= width,
        forall|i: int| 0 <= i < r@.len() ==> 48 <= #[trigger] r@[i] as int <= 57,
        r@.len() > width && r@.len() > 1 ==> r@.first() != '0',
{
    law_decimal_gives_the_number_back(n as nat);
    let digits = text::decimal_digits(n as nat);
    if digits.len() < width {
        let zeros = Seq::new((width - digits.len()) as nat, |i: int| '0');
        lemma_zeros(zeros, digits);
    }
}

/// Zeros in front do not change a number.
proof fn lemma_zeros(zeros: Seq<char>, digits: Seq<char>)
    requires
        forall|i: int| 0 <= i < zeros.len() ==> #[trigger] zeros[i] == '0',
    ensures
        number(zeros + digits) == number(digits),
    decreases zeros.len() + digits.len(),
{
    let all = zeros + digits;
    if digits.len() > 0 {
        assert(all.drop_last() =~= zeros + digits.drop_last());
        lemma_zeros(zeros, digits.drop_last());
    } else if zeros.len() > 0 {
        assert(all =~= zeros);
        assert(zeros.drop_last() + digits =~= zeros.drop_last());
        lemma_zeros(zeros.drop_last(), digits);
    } else {
        assert(all =~= digits);
    }
}

/// Each byte is written as two hexadecimal digits, the high half first.
pub proof fn law_hex_gives_the_bytes_back(bytes: Seq<u8>)
    ensures
        text::hex_digits(bytes).len() == 2 * bytes.len(),
        forall|i: int|
            0 <= i < 2 * bytes.len() ==> is_hex(#[trigger] text::hex_digits(bytes)[i]),
        forall|i: int|
            0 <= i < bytes.len() ==> #[trigger] bytes[i] == 16 * hex_value(
                text::hex_digits(bytes)[2 * i],
            ) + hex_value(text::hex_digits(bytes)[2 * i + 1]),
    decreases bytes.len(),
{
    if bytes.len() > 0 {
        let rest = bytes.drop_last();
        let head = text::hex_digits(rest);
        let all = text::hex_digits(bytes);
        law_hex_gives_the_bytes_back(rest);
        assert forall|i: int| 0 <= i < 2 * bytes.len() implies is_hex(#[trigger] all[i]) by {
            if i < 2 * rest.len() {
                assert(all[i] == head[i]);
            }
        }
        assert forall|i: int| 0 <= i < bytes.len() implies #[trigger] bytes[i] == 16 * hex_value(
            all[2 * i],
        ) + hex_value(all[2 * i + 1]) by {
            if i < rest.len() {
                assert(all[2 * i] == head[2 * i] && all[2 * i + 1] == head[2 * i + 1]);
                assert(rest[i] == bytes[i]);
            }
        }
    }
}

/// What is written in hexadecimal gives the bytes back.
pub proof fn law_hex_is_written(bytes: &[u8], r: String)
    requires
        call_ensures(hex, (bytes,), r),
    ensures
        r@.len() == 2 * bytes@.len(),
        forall|i: int| 0 <= i < r@.len() ==> is_hex(#[trigger] r@[i]),
        forall|i: int|
            0 <= i < bytes@.len() ==> #[trigger] bytes@[i] == 16 * hex_value(r@[2 * i]) + hex_value(
                r@[2 * i + 1],
            ),
{
    law_hex_gives_the_bytes_back(bytes@);
}

} // verus!
