//! How wide text is on the screen.

use vstd::prelude::*;

verus! {

/// The columns `text` takes on the terminal, as the terminal library
/// measures a span of it.
pub uninterp spec fn span_width_of(text: Seq<char>) -> nat;

/// The columns `text` takes on the terminal: ratatui's `Span::width`,
/// the Unicode width of the text. Only that the result is that measure
/// of the text is claimed; what the measure is for given text is not.
#[verifier::external_body]
pub fn span_width(text: &str) -> (width: usize)
    ensures
        width == span_width_of(text@),
{
    ratatui::text::Span::raw(text).width()
}


/// The character for a decimal digit.
pub open spec fn digit_char(d: nat) -> char {
    if d == 0 { '0' }
    else if d == 1 { '1' }
    else if d == 2 { '2' }
    else if d == 3 { '3' }
    else if d == 4 { '4' }
    else if d == 5 { '5' }
    else if d == 6 { '6' }
    else if d == 7 { '7' }
    else if d == 8 { '8' }
    else { '9' }
}

/// `n` written in decimal, as `to_string` writes it.
pub open spec fn decimal_text(n: nat) -> Seq<char>
    decreases n,
{
    if n < 10 {
        seq![digit_char(n)]
    } else {
        decimal_text(n / 10).push(digit_char(n % 10))
    }
}

/// The number of decimal digits needed to show `n`.
pub open spec fn digit_count(n: nat) -> nat
    decreases n,
{
    if n < 10 {
        1
    } else {
        1 + digit_count(n / 10)
    }
}

/// The digit `d` as text.
fn digit(d: usize) -> (text: &'static str)
    requires
        d < 10,
    ensures
        text@ == seq![digit_char(d as nat)],
{
    if d == 0 {
        proof { reveal_strlit("0"); }
        "0"
    } else if d == 1 {
        proof { reveal_strlit("1"); }
        "1"
    } else if d == 2 {
        proof { reveal_strlit("2"); }
        "2"
    } else if d == 3 {
        proof { reveal_strlit("3"); }
        "3"
    } else if d == 4 {
        proof { reveal_strlit("4"); }
        "4"
    } else if d == 5 {
        proof { reveal_strlit("5"); }
        "5"
    } else if d == 6 {
        proof { reveal_strlit("6"); }
        "6"
    } else if d == 7 {
        proof { reveal_strlit("7"); }
        "7"
    } else if d == 8 {
        proof { reveal_strlit("8"); }
        "8"
    } else {
        proof { reveal_strlit("9"); }
        "9"
    }
}

/// `n` written in decimal.
pub fn decimal(n: usize) -> (text: String)
    ensures
        text@ == decimal_text(n as nat),
    decreases n,
{
    if n < 10 {
        String::from_str(digit(n))
    } else {
        let mut text = decimal(n / 10);
        text.append(digit(n % 10));
        text
    }
}

/// The number of decimal digits needed to show `n`.
pub fn digits(n: usize) -> (count: usize)
    ensures
        count == digit_count(n as nat),
        decimal_text(n as nat).len() == count,
    decreases n,
{
    proof {
        lemma_decimal_length(n as nat);
    }
    if n < 10 {
        1
    } else {
        let rest = digits(n / 10);
        proof {
            lemma_decimal_length((n / 10) as nat);
        }
        1 + rest
    }
}

/// `n` written in decimal has as many characters as `n` has digits.
pub proof fn lemma_decimal_length(n: nat)
    ensures
        decimal_text(n).len() == digit_count(n),
        digit_count(n) <= n + 1,
    decreases n,
{
    if n >= 10 {
        lemma_decimal_length(n / 10);
    }
}

/// Whether `c` is white space, as `char::is_whitespace` has it: the
/// Unicode `White_Space` characters.
pub open spec fn is_space(c: char) -> bool {
    ||| ('\u{9}' <= c && c <= '\u{d}')
    ||| c == ' '
    ||| c == '\u{85}'
    ||| c == '\u{a0}'
    ||| c == '\u{1680}'
    ||| ('\u{2000}' <= c && c <= '\u{200a}')
    ||| c == '\u{2028}'
    ||| c == '\u{2029}'
    ||| c == '\u{202f}'
    ||| c == '\u{205f}'
    ||| c == '\u{3000}'
}

/// Whether `text` is nothing but white space.
pub open spec fn is_blank_text(text: Seq<char>) -> bool {
    forall|i: int| 0 <= i < text.len() ==> is_space(#[trigger] text[i])
}

/// Whether `text` is nothing but white space.
pub fn is_blank(text: &str) -> (blank: bool)
    ensures
        blank == is_blank_text(text@),
{
    let n = text.unicode_len();
    let mut i: usize = 0;
    while i < n
        invariant
            n == text@.len(),
            i <= n,
            forall|j: int| 0 <= j < i ==> is_space(#[trigger] text@[j]),
        decreases n - i,
    {
        let c = text.get_char(i);
        let space = ('\u{9}' <= c && c <= '\u{d}') || c == ' ' || c == '\u{85}' || c == '\u{a0}'
            || c == '\u{1680}' || ('\u{2000}' <= c && c <= '\u{200a}') || c == '\u{2028}' || c
            == '\u{2029}' || c == '\u{202f}' || c == '\u{205f}' || c == '\u{3000}';
        if !space {
            return false;
        }
        i = i + 1;
    }
    true
}

/// `text` without the white space at its start.
pub open spec fn trimmed_start(text: Seq<char>) -> Seq<char>
    decreases text.len(),
{
    if text.len() > 0 && is_space(text[0]) {
        trimmed_start(text.drop_first())
    } else {
        text
    }
}

/// `text` without the white space at its end.
pub open spec fn trimmed_end(text: Seq<char>) -> Seq<char>
    decreases text.len(),
{
    if text.len() > 0 && is_space(text.last()) {
        trimmed_end(text.drop_last())
    } else {
        text
    }
}

/// `text` without the white space at either end, as `str::trim` leaves
/// it.
pub open spec fn trimmed(text: Seq<char>) -> Seq<char> {
    trimmed_end(trimmed_start(text))
}

proof fn lemma_trimmed_start(text: Seq<char>, i: int)
    requires
        0 <= i <= text.len(),
        forall|j: int| 0 <= j < i ==> is_space(#[trigger] text[j]),
    ensures
        trimmed_start(text) == trimmed_start(text.subrange(i, text.len() as int)),
    decreases i,
{
    if i > 0 {
        lemma_trimmed_start(text.drop_first(), i - 1);
        assert(text.drop_first().subrange(i - 1, text.len() - 1) =~= text.subrange(i, text.len() as int));
    } else {
        assert(text.subrange(0, text.len() as int) =~= text);
    }
}

proof fn lemma_trimmed_end(text: Seq<char>, i: int)
    requires
        0 <= i <= text.len(),
        forall|j: int| i <= j < text.len() ==> is_space(#[trigger] text[j]),
    ensures
        trimmed_end(text) == trimmed_end(text.subrange(0, i)),
    decreases text.len() - i,
{
    if i < text.len() {
        lemma_trimmed_end(text.drop_last(), i);
        assert(text.drop_last().subrange(0, i) =~= text.subrange(0, i));
    } else {
        assert(text.subrange(0, i) =~= text);
    }
}

/// Whether `c` is white space.
fn space(c: char) -> (is: bool)
    ensures
        is == is_space(c),
{
    ('\u{9}' <= c && c <= '\u{d}') || c == ' ' || c == '\u{85}' || c == '\u{a0}' || c == '\u{1680}'
        || ('\u{2000}' <= c && c <= '\u{200a}') || c == '\u{2028}' || c == '\u{2029}' || c
        == '\u{202f}' || c == '\u{205f}' || c == '\u{3000}'
}

/// `text` without the white space at either end.
pub fn trim(text: &str) -> (inner: &str)
    ensures
        inner@ == trimmed(text@),
{
    let n = text.unicode_len();
    let mut start: usize = 0;
    while start < n && space(text.get_char(start))
        invariant
            n == text@.len(),
            start <= n,
            forall|j: int| 0 <= j < start ==> is_space(#[trigger] text@[j]),
        decreases n - start,
    {
        start = start + 1;
    }
    let mut end: usize = n;
    while end > start && space(text.get_char(end - 1))
        invariant
            n == text@.len(),
            start <= end <= n,
            forall|j: int| end <= j < n ==> is_space(#[trigger] text@[j]),
        decreases end - start,
    {
        end = end - 1;
    }
    proof {
        lemma_trimmed_start(text@, start as int);
        let rest = text@.subrange(start as int, n as int);
        if start < n {
            assert(!is_space(rest[0]));
        }
        assert(trimmed_start(rest) == rest);
        lemma_trimmed_end(rest, end - start);
        assert(rest.subrange(0, end - start) =~= text@.subrange(start as int, end as int));
        let kept = text@.subrange(start as int, end as int);
        if end > start {
            assert(!is_space(kept.last()));
        }
        assert(trimmed_end(kept) == kept);
    }
    text.substring_char(start, end)
}

/// Ten to the power `k`.
pub open spec fn ten_to(k: nat) -> nat
    decreases k,
{
    if k == 0 {
        1
    } else {
        10 * ten_to((k - 1) as nat)
    }
}

proof fn lemma_digit_count_below(n: nat, k: nat)
    requires
        k >= 1,
        n < ten_to(k),
    ensures
        digit_count(n) <= k,
    decreases k,
{
    if n >= 10 {
        if k == 1 {
            reveal_with_fuel(ten_to, 2);
            assert(ten_to(1) == 10);
        } else {
            let below = ten_to((k - 1) as nat);
            assert(n / 10 < below) by (nonlinear_arith)
                requires
                    n < 10 * below,
            ;
            lemma_digit_count_below(n / 10, (k - 1) as nat);
        }
    }
}

/// A `usize` has at most twenty digits.
pub proof fn lemma_usize_digits(n: usize)
    ensures
        digit_count(n as nat) <= 20,
{
    reveal_with_fuel(ten_to, 21);
    assert(ten_to(20) == 100000000000000000000);
    lemma_digit_count_below(n as nat, 20);
}

} // verus!
