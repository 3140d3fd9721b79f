//! Text helpers: whitespace, trimming, decimal numbers written and read.

use vstd::prelude::*;

verus! {

/// Whether a character has the Unicode `White_Space` property: the ASCII
/// tab, line feed, vertical tab, form feed, carriage return and space, next
/// line (U+0085), no-break space (U+00A0), Ogham space mark (U+1680), the
/// spaces U+2000 to U+200A, the line and paragraph separators (U+2028,
/// U+2029), narrow no-break space (U+202F), medium mathematical space
/// (U+205F) and ideographic space (U+3000).
pub open spec fn is_white_space(c: char) -> bool {
    let u = c as u32;
    ||| 0x09 <= u <= 0x0d
    ||| u == 0x20
    ||| u == 0x85
    ||| u == 0xa0
    ||| u == 0x1680
    ||| 0x2000 <= u <= 0x200a
    ||| u == 0x2028
    ||| u == 0x2029
    ||| u == 0x202f
    ||| u == 0x205f
    ||| u == 0x3000
}

/// Calls `char::is_whitespace`, which is documented to answer whether the
/// character has the Unicode `White_Space` property; the contract lists the
/// characters that have it.
#[verifier::external_body]
pub(crate) fn char_is_whitespace(c: char) -> (r: bool)
    ensures
        r == is_white_space(c),
{
    c.is_whitespace()
}

/// Calls `Vec<char>::into_iter().collect::<String>()`: the string made of the
/// characters, in order.
#[verifier::external_body]
pub(crate) fn string_from_chars(chars: Vec<char>) -> (s: String)
    ensures
        s@ == chars@,
{
    chars.into_iter().collect()
}

/// Every character of `s` is white space.
pub open spec fn all_whitespace(s: Seq<char>) -> bool {
    forall|i: int| 0 <= i < s.len() ==> is_white_space(#[trigger] s[i])
}

/// `s` without its leading white space.
pub open spec fn trim_start_spec(s: Seq<char>) -> Seq<char>
    decreases s.len(),
{
    if s.len() > 0 && is_white_space(s[0]) {
        trim_start_spec(s.drop_first())
    } else {
        s
    }
}

/// `s` without its trailing white space.
pub open spec fn trim_end_spec(s: Seq<char>) -> Seq<char>
    decreases s.len(),
{
    if s.len() > 0 && is_white_space(s.last()) {
        trim_end_spec(s.drop_last())
    } else {
        s
    }
}

/// `s` without leading and trailing white space, as `str::trim` gives it.
pub open spec fn trim_spec(s: Seq<char>) -> Seq<char> {
    trim_end_spec(trim_start_spec(s))
}

/// Whether `s` holds nothing but white space (so that trimming it leaves the
/// empty string).
pub fn is_blank(s: &str) -> (r: bool)
    ensures
        r == all_whitespace(s@),
{
    let n = s.unicode_len();
    let mut i: usize = 0;
    while i < n
        invariant
            n == s@.len(),
            i <= n,
            forall|k: int| 0 <= k < i ==> is_white_space(#[trigger] s@[k]),
        decreases n - i,
    {
        let c = s.get_char(i);
        if !char_is_whitespace(c) {
            return false;
        }
        i = i + 1;
    }
    true
}

proof fn lemma_trim_start_skip(s: Seq<char>, i: int)
    requires
        0 <= i <= s.len(),
        forall|k: int| 0 <= k < i ==> is_white_space(#[trigger] s[k]),
    ensures
        trim_start_spec(s) == trim_start_spec(s.subrange(i, s.len() as int)),
    decreases i,
{
    if i > 0 {
        lemma_trim_start_skip(s, i - 1);
        let t = s.subrange(i - 1, s.len() as int);
        assert(t[0] == s[i - 1]);
        assert(t.drop_first() =~= s.subrange(i, s.len() as int));
    } else {
        assert(s.subrange(0, s.len() as int) =~= s);
    }
}

proof fn lemma_trim_end_skip(s: Seq<char>, j: int)
    requires
        0 <= j <= s.len(),
        forall|k: int| j <= k < s.len() ==> is_white_space(#[trigger] s[k]),
    ensures
        trim_end_spec(s) == trim_end_spec(s.subrange(0, j)),
    decreases s.len() - j,
{
    if j < s.len() {
        lemma_trim_end_skip(s, j + 1);
        let t = s.subrange(0, j + 1);
        assert(t.last() == s[j]);
        assert(t.drop_last() =~= s.subrange(0, j));
    } else {
        assert(s.subrange(0, s.len() as int) =~= s);
    }
}

/// `s` without leading and trailing white space.
pub fn trim(s: &str) -> (r: &str)
    ensures
        r@ == trim_spec(s@),
{
    let n = s.unicode_len();
    let mut i: usize = 0;
    while i < n && char_is_whitespace(s.get_char(i))
        invariant
            n == s@.len(),
            i <= n,
            forall|k: int| 0 <= k < i ==> is_white_space(#[trigger] s@[k]),
        decreases n - i,
    {
        i = i + 1;
    }
    let ghost t = s@.subrange(i as int, n as int);
    proof {
        lemma_trim_start_skip(s@, i as int);
        assert(trim_start_spec(t) == t);
    }
    let mut j: usize = n;
    while j > i && char_is_whitespace(s.get_char(j - 1))
        invariant
            n == s@.len(),
            i <= j <= n,
            t == s@.subrange(i as int, n as int),
            forall|k: int| j <= k < n ==> is_white_space(#[trigger] s@[k]),
        decreases j - i,
    {
        j = j - 1;
    }
    proof {
        assert forall|k: int| j - i <= k < t.len() implies is_white_space(#[trigger] t[k]) by {
            assert(t[k] == s@[k + i]);
        }
        lemma_trim_end_skip(t, j - i);
        let u = t.subrange(0, j - i);
        assert(u =~= s@.subrange(i as int, j as int));
        if u.len() > 0 {
            assert(u.last() == s@[j - 1]);
        }
        assert(trim_end_spec(u) == u);
    }
    s.substring_char(i, j)
}

/// The character of a decimal digit.
pub open spec fn digit_char(d: int) -> char {
    (('0' as int) + d) as char
}

/// The decimal digits of `n`, most significant first, without leading zeros.
pub open spec fn digits_of(n: nat) -> Seq<char>
    decreases n,
{
    if n < 10 {
        seq![digit_char(n as int)]
    } else {
        digits_of(n / 10).push(digit_char((n % 10) as int))
    }
}

/// The decimal form of `n`: its digits, after a minus sign when negative.
pub open spec fn decimal_spec(n: int) -> Seq<char> {
    if n < 0 {
        seq!['-'] + digits_of((-n) as nat)
    } else {
        digits_of(n as nat)
    }
}

/// The decimal digits of `n`.
fn unsigned_digits(n: u64) -> (r: Vec<char>)
    ensures
        r@ == digits_of(n as nat),
{
    let mut m: u64 = n;
    let mut out: Vec<char> = Vec::new();
    while m >= 10
        invariant
            digits_of(n as nat) == digits_of(m as nat) + out@,
        decreases m,
    {
        let d = m % 10;
        let c = ((('0' as u32) + (d as u32)) as u8) as char;
        assert(c == digit_char(d as int));
        proof {
            assert(digits_of(m as nat) == digits_of((m / 10) as nat).push(digit_char((m % 10) as int)));
            assert(digits_of((m / 10) as nat) + out@.insert(0, c) =~= digits_of(m as nat) + out@);
        }
        out.insert(0, c);
        m = m / 10;
    }
    let c = ((('0' as u32) + (m as u32)) as u8) as char;
    assert(c == digit_char(m as int));
    proof {
        assert(digits_of(m as nat) =~= seq![c]);
        assert(out@.insert(0, c) =~= seq![c] + out@);
    }
    out.insert(0, c);
    out
}

/// The decimal form of `n`, as `format!("{}", n)` writes it.
pub fn decimal(n: i64) -> (s: String)
    ensures
        s@ == decimal_spec(n as int),
{
    if n < 0 {
        let magnitude: u64 = ((-(n + 1)) as u64) + 1;
        let digits = unsigned_digits(magnitude);
        let mut chars: Vec<char> = Vec::new();
        chars.push('-');
        let mut i: usize = 0;
        while i < digits.len()
            invariant
                chars@ == seq!['-'] + digits@.subrange(0, i as int),
                i <= digits.len(),
            decreases digits.len() - i,
        {
            chars.push(digits[i]);
            proof {
                assert(digits@.subrange(0, i + 1) =~= digits@.subrange(0, i as int).push(digits@[i as int]));
            }
            i = i + 1;
        }
        proof {
            assert(digits@.subrange(0, digits.len() as int) =~= digits@);
        }
        string_from_chars(chars)
    } else {
        string_from_chars(unsigned_digits(n as u64))
    }
}

/// Whether `c` is an ASCII decimal digit.
pub open spec fn is_digit(c: char) -> bool {
    '0' <= c <= '9'
}

/// The value of a string of decimal digits.
pub open spec fn digits_value(s: Seq<char>) -> int
    decreases s.len(),
{
    if s.len() == 0 {
        0
    } else {
        digits_value(s.drop_last()) * 10 + ((s.last() as int) - ('0' as int))
    }
}

/// The digits after an optional leading plus sign.
pub open spec fn unsigned_body(s: Seq<char>) -> Seq<char> {
    if s.len() > 0 && s[0] == '+' {
        s.drop_first()
    } else {
        s
    }
}

/// What `str::parse` gives for an unsigned integer type whose largest value
/// is `max`: an optional `+` followed by one or more decimal digits whose
/// value is at most `max`; anything else is an error.
pub open spec fn parse_unsigned_spec(s: Seq<char>, max: int) -> Option<int> {
    let body = unsigned_body(s);
    if body.len() > 0 && (forall|i: int| 0 <= i < body.len() ==> is_digit(#[trigger] body[i]))
        && digits_value(body) <= max {
        Some(digits_value(body))
    } else {
        None
    }
}

proof fn lemma_digits_value_grows(s: Seq<char>, i: int, k: int)
    requires
        0 <= i <= k <= s.len(),
        forall|j: int| 0 <= j < s.len() ==> is_digit(#[trigger] s[j]),
    ensures
        digits_value(s.subrange(0, i)) <= digits_value(s.subrange(0, k)),
    decreases k - i,
{
    if i < k {
        lemma_digits_value_grows(s, i, k - 1);
        assert(s.subrange(0, k).drop_last() =~= s.subrange(0, k - 1));
        assert(is_digit(s[k - 1]));
        lemma_digits_value_nonneg(s.subrange(0, k - 1));
    }
}

proof fn lemma_digits_value_nonneg(s: Seq<char>)
    requires
        forall|j: int| 0 <= j < s.len() ==> is_digit(#[trigger] s[j]),
    ensures
        digits_value(s) >= 0,
    decreases s.len(),
{
    if s.len() > 0 {
        assert(is_digit(s.last()));
        lemma_digits_value_nonneg(s.drop_last());
    }
}

/// Parse an unsigned decimal number no greater than `max`, as `str::parse`
/// does for `u32` (with `max == u32::MAX`) and `u64` (with `max == u64::MAX`).
pub fn parse_unsigned(s: &str, max: u64) -> (r: Option<u64>)
    ensures
        r matches Some(v) ==> parse_unsigned_spec(s@, max as int) == Some(v as int),
        r is None ==> parse_unsigned_spec(s@, max as int) is None,
{
    let n = s.unicode_len();
    let mut start: usize = 0;
    if n > 0 && s.get_char(0) == '+' {
        start = 1;
    }
    let ghost body = unsigned_body(s@);
    assert(body =~= s@.subrange(start as int, n as int));
    if start >= n {
        return None;
    }
    let mut value: u64 = 0;
    let mut i: usize = start;
    while i < n
        invariant
            n == s@.len(),
            start <= i <= n,
            body == unsigned_body(s@),
            body == s@.subrange(start as int, n as int),
            forall|k: int| 0 <= k < i - start ==> is_digit(#[trigger] body[k]),
            value as int == digits_value(body.subrange(0, i - start)),
            value <= max,
        decreases n - i,
    {
        let c = s.get_char(i);
        if !('0' <= c && c <= '9') {
            assert(!is_digit(body[i - start]));
            return None;
        }
        let d: u64 = ((c as u32) - ('0' as u32)) as u64;
        proof {
            assert(body[i - start] == c);
            assert(body.subrange(0, i + 1 - start).drop_last() =~= body.subrange(0, i - start));
        }
        if d > max || value > (max - d) / 10 {
            proof {
                if d <= max {
                    assert(value * 10 + d > max) by (nonlinear_arith)
                        requires
                            value > (max - d) / 10,
                            d <= max,
                    ;
                }
                assert(digits_value(body.subrange(0, i + 1 - start)) > max);
                assert forall|k: int| 0 <= k < i + 1 - start implies is_digit(#[trigger] body[k]) by {}
                if forall|k: int| 0 <= k < body.len() ==> is_digit(#[trigger] body[k]) {
                    lemma_digits_value_grows(body, i + 1 - start, body.len() as int);
                    assert(body.subrange(0, body.len() as int) =~= body);
                }
            }
            return None;
        }
        value = value * 10 + d;
        i = i + 1;
    }
    proof {
        assert(body.subrange(0, n - start) =~= body);
    }
    Some(value)
}

/// The decimal digits of `n` are one or more ASCII digits whose value is `n`:
/// reading back what is written gives the number again.
pub proof fn lemma_digits_of(n: nat)
    ensures
        digits_of(n).len() > 0,
        forall|i: int| 0 <= i < digits_of(n).len() ==> is_digit(#[trigger] digits_of(n)[i]),
        digits_value(digits_of(n)) == n,
    decreases n,
{
    if n < 10 {
        let d = digits_of(n);
        assert(d =~= seq![digit_char(n as int)]);
        assert(d.drop_last() =~= Seq::<char>::empty());
        assert(digits_value(Seq::<char>::empty()) == 0);
        assert(digit_char(n as int) as int == '0' as int + n);
        assert(digits_value(d) == digits_value(d.drop_last()) * 10 + ((d.last() as int) - ('0' as int)));
    } else {
        lemma_digits_of(n / 10);
        let p = digits_of(n / 10);
        let c = digit_char((n % 10) as int);
        assert(digits_of(n) == p.push(c));
        assert(p.push(c).drop_last() =~= p);
        assert(c as int == '0' as int + n % 10);
        let s = p.push(c);
        assert(s.last() == c);
        assert(digits_value(s) == digits_value(s.drop_last()) * 10 + ((s.last() as int) - ('0' as int)));
        assert(digits_value(s) == (n / 10) * 10 + n % 10);
        assert forall|i: int| 0 <= i < digits_of(n).len() implies is_digit(#[trigger] digits_of(n)[i]) by {
            if i < p.len() {
                assert(digits_of(n)[i] == p[i]);
            }
        }
    }
}

/// Parsing the decimal digits of a number no greater than `max` gives the
/// number back.
pub proof fn lemma_parse_decimal(n: nat, max: int)
    requires
        n <= max,
    ensures
        parse_unsigned_spec(digits_of(n), max) == Some(n as int),
{
    lemma_digits_of(n);
    assert(is_digit(digits_of(n)[0]));
    assert(unsigned_body(digits_of(n)) == digits_of(n));
}

} // verus!
