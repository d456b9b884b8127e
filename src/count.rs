use vstd::prelude::*;

use crate::error::HarnessError;

verus! {

/// Unicode white space: the characters that `char::is_whitespace` accepts
/// and that `str::trim` removes.
pub open spec fn is_white(c: char) -> bool {
    let n = c as u32;
    ||| 0x09 <= n <= 0x0d
    ||| n == 0x20
    ||| n == 0x85
    ||| n == 0xa0
    ||| n == 0x1680
    ||| 0x2000 <= n <= 0x200a
    ||| n == 0x2028
    ||| n == 0x2029
    ||| n == 0x202f
    ||| n == 0x205f
    ||| n == 0x3000
}

/// The text with leading and trailing white space removed.
pub open spec fn trimmed(s: Seq<char>) -> Seq<char>
    decreases s.len(),
{
    if s.len() > 0 && is_white(s.first()) {
        trimmed(s.drop_first())
    } else if s.len() > 0 && is_white(s.last()) {
        trimmed(s.drop_last())
    } else {
        s
    }
}

/// An ASCII decimal digit.
pub open spec fn is_digit(c: char) -> bool {
    '0' <= c <= '9'
}

/// The value of a string of decimal digits, most significant first.
pub open spec fn decimal_value(d: Seq<char>) -> nat
    decreases d.len(),
{
    if d.len() == 0 {
        0
    } else {
        decimal_value(d.drop_last()) * 10 + ((d.last() as u32) - ('0' as u32)) as nat
    }
}

/// The digits of an unsigned number as text: an optional leading `+`
/// removed.
pub open spec fn unsigned_digits(t: Seq<char>) -> Seq<char> {
    if t.len() > 0 && t[0] == '+' {
        t.drop_first()
    } else {
        t
    }
}

/// The number that a line of text denotes: after trimming white space, an
/// optional `+` and then one or more decimal digits; `None` for any other
/// text (empty, a `-` sign, letters, inner spaces).
pub open spec fn count_value(s: Seq<char>) -> Option<nat> {
    let d = unsigned_digits(trimmed(s));
    if d.len() > 0 && forall|i: int| 0 <= i < d.len() ==> is_digit(#[trigger] d[i]) {
        Some(decimal_value(d))
    } else {
        None
    }
}

/// Whether `s` gives a usable repetition count: a number from 1 to the
/// largest `usize`.
pub open spec fn is_valid_count(s: Seq<char>) -> bool {
    &&& count_value(s) is Some
    &&& 0 < count_value(s)->0 <= usize::MAX
}

/// A count written with a minus sign is refused, whatever digits follow
/// (`-3`, and `-0` too).
pub proof fn lemma_negative_count_is_refused(s: Seq<char>)
    requires
        trimmed(s).len() > 0,
        trimmed(s)[0] == '-',
    ensures
        !is_valid_count(s),
{
    let d = unsigned_digits(trimmed(s));
    assert(d == trimmed(s));
    assert(!is_digit(d[0]));
}

/// A count holding anything but decimal digits after the optional `+` is
/// refused.
pub proof fn lemma_non_numeric_count_is_refused(s: Seq<char>, i: int)
    requires
        0 <= i < unsigned_digits(trimmed(s)).len(),
        !is_digit(unsigned_digits(trimmed(s))[i]),
    ensures
        !is_valid_count(s),
{
}

fn is_white_char(c: char) -> (r: bool)
    ensures
        r == is_white(c),
{
    let n = c as u32;
    (0x09 <= n && n <= 0x0d) || n == 0x20 || n == 0x85 || n == 0xa0 || n == 0x1680 || (0x2000
        <= n && n <= 0x200a) || n == 0x2028 || n == 0x2029 || n == 0x202f || n == 0x205f || n
        == 0x3000
}

/// Trimming removes exactly a white prefix `s[..lo]` and a white suffix
/// `s[hi..]`, where `s[lo]` and `s[hi - 1]` are not white space (or nothing
/// but white space is left).
proof fn lemma_trimmed_is_subrange(s: Seq<char>, lo: int, hi: int)
    requires
        0 <= lo <= hi <= s.len(),
        forall|k: int| 0 <= k < lo ==> is_white(#[trigger] s[k]),
        forall|k: int| hi <= k < s.len() ==> is_white(#[trigger] s[k]),
        lo < hi ==> !is_white(s[lo]) && !is_white(s[hi - 1]),
        lo == hi ==> hi == s.len(),
    ensures
        trimmed(s) == s.subrange(lo, hi),
    decreases s.len(),
{
    if s.len() == 0 {
        assert(s.subrange(lo, hi) =~= s);
    } else if is_white(s.first()) {
        let t = s.drop_first();
        assert forall|k: int| 0 <= k < lo - 1 implies is_white(#[trigger] t[k]) by {
            assert(t[k] == s[k + 1]);
        }
        assert forall|k: int| hi - 1 <= k < t.len() implies is_white(#[trigger] t[k]) by {
            assert(t[k] == s[k + 1]);
        }
        lemma_trimmed_is_subrange(t, lo - 1, hi - 1);
        assert(t.subrange(lo - 1, hi - 1) =~= s.subrange(lo, hi));
    } else if is_white(s.last()) {
        let t = s.drop_last();
        assert forall|k: int| hi <= k < t.len() implies is_white(#[trigger] t[k]) by {
            assert(t[k] == s[k]);
        }
        lemma_trimmed_is_subrange(t, lo, hi);
        assert(t.subrange(lo, hi) =~= s.subrange(lo, hi));
    } else {
        assert(s.subrange(lo, hi) =~= s);
    }
}

/// Appending digits never makes a number smaller.
proof fn lemma_decimal_prefix_le(d: Seq<char>, i: int)
    requires
        0 <= i <= d.len(),
    ensures
        decimal_value(d.take(i)) <= decimal_value(d),
    decreases d.len() - i,
{
    if i < d.len() {
        lemma_decimal_prefix_le(d, i + 1);
        assert(d.take(i + 1).drop_last() =~= d.take(i));
    } else {
        assert(d.take(i) =~= d);
    }
}

/// Reads a repetition count from a line of text, as typed at a prompt:
/// surrounding white space (the line break included) is ignored, an
/// optional `+` may lead, and the rest must be decimal digits giving a
/// number from 1 to the largest `usize`. Anything else, zero, a negative
/// number or text, is refused.
pub fn parse_count(input: &str) -> (r: Result<usize, HarnessError>)
    ensures
        r is Ok <==> is_valid_count(input@),
        r is Ok ==> r->Ok_0 == count_value(input@)->0,
        r is Err ==> r->Err_0 == HarnessError::InvalidCount,
{
    let mut chars: Vec<char> = Vec::new();
    for c in it: input.chars()
        invariant
            chars@ == it.seq().take(it.index()),
    {
        chars.push(c);
    }
    assert(chars@ == input@);
    let n = chars.len();
    let mut lo: usize = 0;
    while lo < n && is_white_char(chars[lo])
        invariant
            lo <= n,
            n == chars.len(),
            forall|k: int| 0 <= k < lo ==> is_white(#[trigger] chars@[k]),
        decreases n - lo,
    {
        lo = lo + 1;
    }
    let mut hi: usize = n;
    while hi > lo && is_white_char(chars[hi - 1])
        invariant
            lo <= hi <= n,
            n == chars.len(),
            lo < n ==> !is_white(chars@[lo as int]),
            lo < n ==> lo < hi,
            forall|k: int| hi <= k < n ==> is_white(#[trigger] chars@[k]),
        decreases hi,
    {
        hi = hi - 1;
    }
    proof {
        lemma_trimmed_is_subrange(chars@, lo as int, hi as int);
    }
    let mut start: usize = lo;
    if start < hi && chars[start] == '+' {
        start = start + 1;
    }
    let ghost digits = chars@.subrange(start as int, hi as int);
    assert(digits =~= unsigned_digits(trimmed(input@)));
    if start == hi {
        return Err(HarnessError::InvalidCount);
    }
    let mut j: usize = start;
    while j < hi
        invariant
            start <= j <= hi <= n,
            n == chars.len(),
            digits == chars@.subrange(start as int, hi as int),
            digits == unsigned_digits(trimmed(input@)),
            forall|k: int| start <= k < j ==> is_digit(#[trigger] chars@[k]),
        decreases hi - j,
    {
        let c = chars[j];
        if !('0' <= c && c <= '9') {
            assert(digits[j - start] == chars@[j as int]);
            assert(!is_digit(digits[j - start]));
            return Err(HarnessError::InvalidCount);
        }
        j = j + 1;
    }
    assert forall|i: int| 0 <= i < digits.len() implies is_digit(#[trigger] digits[i]) by {
        assert(digits[i] == chars@[start + i]);
    }
    let mut value: usize = 0;
    let mut j: usize = start;
    while j < hi
        invariant
            start <= j <= hi <= n,
            n == chars.len(),
            digits == chars@.subrange(start as int, hi as int),
            digits == unsigned_digits(trimmed(input@)),
            forall|i: int| 0 <= i < digits.len() ==> is_digit(#[trigger] digits[i]),
            value == decimal_value(digits.take(j - start)),
        decreases hi - j,
    {
        proof {
            assert(digits.take(j + 1 - start).drop_last() =~= digits.take(j - start));
            assert(digits.take(j + 1 - start).last() == chars@[j as int]);
            assert(is_digit(digits[j - start]));
        }
        let digit = ((chars[j] as u32) - ('0' as u32)) as usize;
        assert(decimal_value(digits.take(j + 1 - start)) == value * 10 + digit);
        let next = match value.checked_mul(10) {
            Some(tens) => tens.checked_add(digit),
            None => None,
        };
        match next {
            Some(v) => {
                value = v;
            },
            None => {
                proof {
                    lemma_decimal_prefix_le(digits, j + 1 - start);
                }
                return Err(HarnessError::InvalidCount);
            },
        }
        j = j + 1;
    }
    assert(digits.take(j - start) =~= digits);
    if value == 0 {
        Err(HarnessError::InvalidCount)
    } else {
        Ok(value)
    }
}

} // verus!
