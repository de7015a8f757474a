//! Text helpers: comparing and trimming text, and reading and writing a
//! list index in decimal.

use vstd::prelude::*;
use vstd::string::StringSliceAdditionalSpecFns;

verus! {

/// Whether a character has the Unicode `White_Space` property.
pub uninterp spec fn unicode_white_space(c: char) -> bool;

/// Calls `char::is_whitespace`, which std documents as reporting whether the
/// character has the Unicode `White_Space` property. The contract gives that
/// answer its name and claims nothing else about it.
#[verifier::external_body]
fn is_white_space(c: char) -> (white: bool)
    ensures
        white == unicode_white_space(c),
{
    c.is_whitespace()
}

/// The characters of `text`, in order.
pub fn characters(text: &str) -> (chars: Vec<char>)
    ensures
        chars@ == text@,
{
    let mut chars: Vec<char> = Vec::new();
    for c in it: text.chars()
        invariant
            it.seq() == text@,
            chars@ == it.seq().take(it.index() as int),
    {
        chars.push(c);
    }
    chars
}

/// Tells whether two string slices hold the same characters.
pub fn same_text(a: &str, b: &str) -> (same: bool)
    ensures
        same == (a@ == b@),
{
    let x = a.as_bytes();
    let y = b.as_bytes();
    if x.len() != y.len() {
        return false;
    }
    let mut i: usize = 0;
    while i < x.len()
        invariant
            x@ == a.spec_bytes(),
            y@ == b.spec_bytes(),
            x@.len() == y@.len(),
            i <= x@.len(),
            forall|j: int| 0 <= j < i ==> x@[j] == y@[j],
        decreases x@.len() - i,
    {
        if x[i] != y[i] {
            return false;
        }
        i += 1;
    }
    proof {
        assert(x@ =~= y@);
        vstd::utf8::encode_utf8_decode_utf8(a@);
        vstd::utf8::encode_utf8_decode_utf8(b@);
    }
    true
}

/// `s` without its leading white space.
pub open spec fn trim_start(s: Seq<char>) -> Seq<char>
    decreases s.len(),
{
    if s.len() > 0 && unicode_white_space(s.first()) {
        trim_start(s.drop_first())
    } else {
        s
    }
}

/// `s` without its trailing white space.
pub open spec fn trim_end(s: Seq<char>) -> Seq<char>
    decreases s.len(),
{
    if s.len() > 0 && unicode_white_space(s.last()) {
        trim_end(s.drop_last())
    } else {
        s
    }
}

/// `s` without leading and trailing white space.
pub open spec fn trimmed(s: Seq<char>) -> Seq<char> {
    trim_end(trim_start(s))
}

/// Every character of `s` before position `n` is white space.
pub open spec fn white_before(s: Seq<char>, n: int) -> bool {
    forall|j: int| 0 <= j < n ==> unicode_white_space(#[trigger] s[j])
}

/// Every character of `s` from position `n` on is white space.
pub open spec fn white_from(s: Seq<char>, n: int) -> bool {
    forall|j: int| n <= j < s.len() ==> unicode_white_space(#[trigger] s[j])
}

proof fn lemma_trim_start(s: Seq<char>, start: int)
    requires
        0 <= start <= s.len(),
        white_before(s, start),
        start == s.len() || !unicode_white_space(s[start]),
    ensures
        trim_start(s) == s.subrange(start, s.len() as int),
    decreases start,
{
    if start > 0 {
        lemma_trim_start(s.drop_first(), start - 1);
    }
}

proof fn lemma_trim_end(s: Seq<char>, end: int)
    requires
        0 <= end <= s.len(),
        white_from(s, end),
        end == 0 || !unicode_white_space(s[end - 1]),
    ensures
        trim_end(s) == s.subrange(0, end),
    decreases s.len() - end,
{
    if end < s.len() {
        lemma_trim_end(s.drop_last(), end);
    }
}

/// Returns the slice of `text` between its first and its last character that
/// is not white space; the empty slice where there is none.
pub fn trim<'a>(text: &'a str) -> (slice: &'a str)
    ensures
        slice@ == trimmed(text@),
{
    let chars = characters(text);
    let len = chars.len();
    let mut start: usize = 0;
    while start < len && is_white_space(chars[start])
        invariant
            chars@ == text@,
            len == text@.len(),
            start <= len,
            white_before(text@, start as int),
        decreases len - start,
    {
        start += 1;
    }
    let mut end: usize = len;
    while end > start && is_white_space(chars[end - 1])
        invariant
            chars@ == text@,
            len == text@.len(),
            start <= end <= len,
            white_from(text@, end as int),
        decreases end,
    {
        end -= 1;
    }
    proof {
        let kept = text@.subrange(start as int, len as int);
        lemma_trim_start(text@, start as int);
        lemma_trim_end(kept, end - start);
    }
    text.substring_char(start, end)
}

/// Whether `c` is one of the ten decimal digits.
pub open spec fn is_digit(c: char) -> bool {
    '0' <= c <= '9'
}

/// The number a decimal digit stands for.
pub open spec fn digit_value(c: char) -> nat {
    (c as u32 - '0' as u32) as nat
}

/// The number written by a run of decimal digits, most significant first.
pub open spec fn decimal_value(digits: Seq<char>) -> nat
    decreases digits.len(),
{
    if digits.len() == 0 {
        0
    } else {
        10 * decimal_value(digits.drop_last()) + digit_value(digits.last())
    }
}

/// Every character of `s` is a decimal digit.
pub open spec fn all_digits(s: Seq<char>) -> bool {
    forall|i: int| 0 <= i < s.len() ==> is_digit(#[trigger] s[i])
}

/// `s` without one leading plus sign.
pub open spec fn unsigned_part(s: Seq<char>) -> Seq<char> {
    if s.len() > 0 && s[0] == '+' {
        s.drop_first()
    } else {
        s
    }
}

/// The index that `s` writes: an optional plus sign, then one or more decimal
/// digits and nothing else, whose value fits the machine's index type.
pub open spec fn decimal_index(s: Seq<char>) -> Option<usize> {
    let digits = unsigned_part(s);
    if digits.len() > 0 && all_digits(digits) && decimal_value(digits) <= usize::MAX {
        Some(decimal_value(digits) as usize)
    } else {
        None
    }
}

/// A number never shrinks when more digits are appended to it.
proof fn lemma_decimal_value_grows(digits: Seq<char>, n: int)
    requires
        0 <= n <= digits.len(),
    ensures
        decimal_value(digits.take(n)) <= decimal_value(digits),
    decreases digits.len() - n,
{
    if n == digits.len() {
        assert(digits.take(n) =~= digits);
    } else {
        lemma_decimal_value_grows(digits.drop_last(), n);
        assert(digits.drop_last().take(n) =~= digits.take(n));
    }
}

/// Reads `text` as a list index: an optional plus sign followed by decimal
/// digits only. Anything else, and a number too large for an index, is `None`.
pub fn parse_index(text: &str) -> (index: Option<usize>)
    ensures
        index == decimal_index(text@),
{
    let chars = characters(text);
    let len = chars.len();
    let first: usize = if len > 0 && chars[0] == '+' {
        1
    } else {
        0
    };
    if first == len {
        return None;
    }
    let ghost digits = unsigned_part(text@);
    let mut value: usize = 0;
    let mut pos: usize = first;
    while pos < len
        invariant
            chars@ == text@,
            len == text@.len(),
            first <= pos <= len,
            digits == unsigned_part(text@),
            digits == text@.subrange(first as int, len as int),
            all_digits(digits.take(pos - first)),
            value == decimal_value(digits.take(pos - first)),
        decreases len - pos,
    {
        let c = chars[pos];
        assert(c == digits[pos - first]);
        if !('0' <= c && c <= '9') {
            return None;
        }
        let digit: usize = (c as u32 - '0' as u32) as usize;
        proof {
            let next = digits.take(pos - first + 1);
            assert(next.drop_last() =~= digits.take(pos - first));
            lemma_decimal_value_grows(digits, pos - first + 1);
        }
        let scaled = match value.checked_mul(10) {
            Some(scaled) => scaled,
            None => {
                return None;
            },
        };
        value = match scaled.checked_add(digit) {
            Some(sum) => sum,
            None => {
                return None;
            },
        };
        pos += 1;
    }
    assert(digits.take(pos - first) =~= digits);
    Some(value)
}

/// The character that writes a number below ten.
pub open spec fn digit_char(d: nat) -> char {
    seq!['0', '1', '2', '3', '4', '5', '6', '7', '8', '9'][d as int]
}

/// The decimal digits of `n`, most significant first, without leading zeros.
pub open spec fn decimal_digits(n: nat) -> Seq<char>
    decreases n,
{
    if n < 10 {
        seq![digit_char(n)]
    } else {
        decimal_digits(n / 10).push(digit_char(n % 10))
    }
}

fn digit_text(d: usize) -> (text: &'static str)
    requires
        d < 10,
    ensures
        text@ == seq![digit_char(d as nat)],
{
    proof {
        reveal_strlit("0");
        reveal_strlit("1");
        reveal_strlit("2");
        reveal_strlit("3");
        reveal_strlit("4");
        reveal_strlit("5");
        reveal_strlit("6");
        reveal_strlit("7");
        reveal_strlit("8");
        reveal_strlit("9");
    }
    let text = if d == 0 {
        "0"
    } else if d == 1 {
        "1"
    } else if d == 2 {
        "2"
    } else if d == 3 {
        "3"
    } else if d == 4 {
        "4"
    } else if d == 5 {
        "5"
    } else if d == 6 {
        "6"
    } else if d == 7 {
        "7"
    } else if d == 8 {
        "8"
    } else {
        "9"
    };
    text
}

/// Appends the decimal digits of `n` to `out`.
pub fn write_decimal(out: &mut String, n: usize)
    ensures
        final(out)@ == old(out)@ + decimal_digits(n as nat),
    decreases n,
{
    if n >= 10 {
        write_decimal(out, n / 10);
    }
    out.append(digit_text(n % 10));
}

/// What is written as the decimal digits of an index reads back as that
/// index.
pub proof fn lemma_decimal_round_trip(n: usize)
    ensures
        decimal_index(decimal_digits(n as nat)) == Some(n),
{
    lemma_decimal_digits(n as nat);
}

proof fn lemma_decimal_digits(n: nat)
    ensures
        decimal_digits(n).len() > 0,
        all_digits(decimal_digits(n)),
        decimal_value(decimal_digits(n)) == n,
    decreases n,
{
    let digits = decimal_digits(n);
    if n < 10 {
        assert(decimal_value(digits.drop_last()) == 0);
    } else {
        lemma_decimal_digits(n / 10);
        assert(digits.drop_last() =~= decimal_digits(n / 10));
    }
}

} // verus!
