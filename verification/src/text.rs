//! Text at the edges of a dialogue: what is left of an answer once the blanks
//! around it are gone, and numbers as they are shown and typed.

use vstd::prelude::*;
use vstd::string::*;

verus! {

/// Whether a character is white space, as `char::is_whitespace` of the
/// standard library tells it: by the Unicode property `White_Space`.
pub uninterp spec fn white_space(c: char) -> bool;

/// The white space of ASCII: the space, and the five controls from the
/// horizontal tab to the carriage return.
pub open spec fn ascii_blank(c: char) -> bool {
    c == ' ' || ('\t' <= c && c <= '\r')
}

/// Whether a character is white space: on ASCII, where the property is
/// fixed, one of six characters; beyond it, what `white_space` names.
pub open spec fn blank(c: char) -> bool {
    if c <= '\x7f' {
        ascii_blank(c)
    } else {
        white_space(c)
    }
}

/// Calls `char::is_whitespace`; its answer is what `white_space` names. Of an
/// ASCII character the answer is known: the property `White_Space` holds of
/// the space and of the controls from tab to carriage return, and of no
/// other ASCII character.
#[verifier::external_body]
fn is_white_space(c: char) -> (found: bool)
    ensures
        found == white_space(c),
        c <= '\x7f' ==> found == ascii_blank(c),
{
    c.is_whitespace()
}

/// Tells whether a character is white space.
pub fn is_blank(c: char) -> (found: bool)
    ensures
        found == blank(c),
{
    is_white_space(c)
}

/// `s` without the white space it starts with.
pub open spec fn trim_start(s: Seq<char>) -> Seq<char>
    decreases s.len(),
{
    if s.len() > 0 && blank(s[0]) {
        trim_start(s.drop_first())
    } else {
        s
    }
}

/// `s` without the white space it ends with.
pub open spec fn trim_end(s: Seq<char>) -> Seq<char>
    decreases s.len(),
{
    if s.len() > 0 && blank(s.last()) {
        trim_end(s.drop_last())
    } else {
        s
    }
}

/// `s` without the white space around it.
pub open spec fn trimmed(s: Seq<char>) -> Seq<char> {
    trim_end(trim_start(s))
}

/// The characters of `s`, in order.
pub fn chars_of(s: &str) -> (chars: Vec<char>)
    ensures
        chars@ == s@,
{
    let mut chars: Vec<char> = Vec::new();
    for c in it: s.chars()
        invariant
            it.seq() == s@,
            chars@ == it.seq().take(it.index()),
    {
        chars.push(c);
    }
    chars
}

/// The part of `s` between the white space at its two ends.
pub fn trim(s: &str) -> (kept: &str)
    ensures
        kept@ == trimmed(s@),
{
    let chars = chars_of(s);
    let n = chars.len();
    let mut start: usize = 0;
    assert(s@.subrange(0, n as int) =~= s@);
    while start < n && is_blank(chars[start])
        invariant
            start <= n,
            n == s@.len(),
            chars@ == s@,
            trim_start(s@) == trim_start(s@.subrange(start as int, n as int)),
        decreases n - start,
    {
        assert(s@.subrange(start as int, n as int).drop_first() =~= s@.subrange(
            start + 1,
            n as int,
        ));
        start = start + 1;
    }
    let ghost rest = s@.subrange(start as int, n as int);
    let mut end: usize = n;
    while end > start && is_blank(chars[end - 1])
        invariant
            start <= end <= n,
            n == s@.len(),
            chars@ == s@,
            trim_end(rest) == trim_end(s@.subrange(start as int, end as int)),
        decreases end - start,
    {
        assert(s@.subrange(start as int, end as int).drop_last() =~= s@.subrange(
            start as int,
            end - 1,
        ));
        end = end - 1;
    }
    s.substring_char(start, end)
}

/// Whether a character is one of the ten decimal digits.
pub open spec fn is_digit(c: char) -> bool {
    '0' <= c && c <= '9'
}

/// The number a decimal digit stands for.
pub open spec fn digit_value(c: char) -> nat {
    (c as int - '0' as int) as nat
}

/// The decimal digit that stands for a number below ten.
pub open spec fn digit_char(d: nat) -> char {
    ('0' as int + d) as char
}

/// A number in decimal digits, without a sign or a leading zero.
pub open spec fn decimal(n: nat) -> Seq<char>
    decreases n,
{
    if n < 10 {
        seq![digit_char(n)]
    } else {
        decimal(n / 10) + seq![digit_char(n % 10)]
    }
}

/// Whether `s` is one decimal digit or more, and nothing else.
pub open spec fn numeral(s: Seq<char>) -> bool {
    s.len() > 0 && forall|i: int| 0 <= i < s.len() ==> is_digit(#[trigger] s[i])
}

/// The number that a row of decimal digits stands for.
pub open spec fn value_of(s: Seq<char>) -> nat
    decreases s.len(),
{
    if s.len() == 0 {
        0
    } else {
        10 * value_of(s.drop_last()) + digit_value(s.last())
    }
}

/// `s` without the plus sign it may begin with.
pub open spec fn unsigned(s: Seq<char>) -> Seq<char> {
    if s.len() > 0 && s[0] == '+' {
        s.drop_first()
    } else {
        s
    }
}

/// The number that `s` is read as: decimal digits, after one plus sign at
/// most, whose value a `usize` can hold. Anything else is no number.
pub open spec fn number_in(s: Seq<char>) -> Option<usize> {
    if numeral(unsigned(s)) && value_of(unsigned(s)) <= usize::MAX {
        Some(value_of(unsigned(s)) as usize)
    } else {
        None
    }
}

/// The value of a row of digits is at least the value of each row that it
/// begins with.
pub proof fn lemma_value_grows(s: Seq<char>, k: int)
    requires
        0 <= k <= s.len(),
    ensures
        value_of(s.take(k)) <= value_of(s),
    decreases s.len() - k,
{
    if k < s.len() {
        lemma_value_grows(s.drop_last(), k);
        assert(s.drop_last().take(k) =~= s.take(k));
    } else {
        assert(s.take(k) =~= s);
    }
}

/// A number written in decimal digits is read as that number: what
/// `decimal` writes is a numeral without a sign, and its value is the number.
pub proof fn lemma_decimal_reads_back(n: nat)
    ensures
        numeral(decimal(n)),
        unsigned(decimal(n)) == decimal(n),
        value_of(decimal(n)) == n,
        n <= usize::MAX ==> number_in(decimal(n)) == Some(n as usize),
    decreases n,
{
    let digits = decimal(n);
    if n < 10 {
        assert(value_of(digits.drop_last()) == 0);
    } else {
        lemma_decimal_reads_back(n / 10);
        let front = decimal(n / 10);
        assert(digits.drop_last() =~= front);
    }
}

fn digit_str(d: usize) -> (digit: &'static str)
    requires
        d < 10,
    ensures
        digit@ == seq![digit_char(d as nat)],
{
    proof {
        reveal_strlit("0");
        reveal_strlit("1");
        reveal_strlit("2");
        reveal_strlit("3");
        reveal_strlit("4");
        reveal_strlit("5");
        reveal_strlit("6");
        reveal_strlit("7");
        reveal_strlit("8");
        reveal_strlit("9");
    }
    let digit = match d {
        0 => "0",
        1 => "1",
        2 => "2",
        3 => "3",
        4 => "4",
        5 => "5",
        6 => "6",
        7 => "7",
        8 => "8",
        _ => "9",
    };
    digit
}

/// Writes `n` in decimal digits.
pub fn decimal_string(n: usize) -> (digits: String)
    ensures
        digits@ == decimal(n as nat),
    decreases n,
{
    if n < 10 {
        let mut digits = String::new();
        digits.append(digit_str(n));
        digits
    } else {
        let mut digits = decimal_string(n / 10);
        digits.append(digit_str(n % 10));
        digits
    }
}

/// Reads `s` as a number.
pub fn parse_number(s: &str) -> (number: Option<usize>)
    ensures
        number == number_in(s@),
{
    let chars = chars_of(s);
    let n = chars.len();
    let first: usize = if n > 0 && chars[0] == '+' {
        1
    } else {
        0
    };
    let ghost digits = unsigned(s@);
    if first == n {
        return None;
    }
    let mut value: usize = 0;
    let mut at: usize = first;
    while at < n
        invariant
            first <= at <= n,
            n == s@.len(),
            chars@ == s@,
            digits == unsigned(s@),
            digits == s@.subrange(first as int, n as int),
            forall|i: int| 0 <= i < at - first ==> is_digit(#[trigger] digits[i]),
            value == value_of(digits.take(at - first)),
        decreases n - at,
    {
        let c = chars[at];
        if !(c >= '0' && c <= '9') {
            assert(!is_digit(digits[at - first]));
            return None;
        }
        let d: usize = (c as u8 - 48) as usize;
        let ghost longer = digits.take(at - first + 1);
        assert(longer.drop_last() =~= digits.take(at - first));
        if value > (usize::MAX - d) / 10 {
            proof {
                lemma_value_grows(digits, at - first + 1);
            }
            return None;
        }
        value = value * 10 + d;
        at = at + 1;
    }
    assert(digits.take(n - first) =~= digits);
    Some(value)
}

} // verus!
