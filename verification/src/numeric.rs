//! Decimal text for 64-bit signed integers: the parsing rule of
//! `str::parse::<i64>` and the canonical rendering, with the law that
//! parsing a rendering gives the number back.

use vstd::prelude::*;

use crate::text::push_char;

verus! {

/// `c` is an ASCII decimal digit.
pub open spec fn is_digit(c: char) -> bool {
    '0' <= c && c <= '9'
}

/// The numeric value of a digit character.
pub open spec fn digit_value(c: char) -> int {
    (c as int) - 48
}

/// The character of a digit `0 <= d < 10`.
pub open spec fn digit_char(d: int) -> char {
    (48 + d) as char
}

/// Every character of `s` is a decimal digit.
pub open spec fn all_digits(s: Seq<char>) -> bool {
    forall|i: int| 0 <= i < s.len() ==> is_digit(#[trigger] s[i])
}

/// The value of a string of digits, most significant first.
pub open spec fn digits_value(s: Seq<char>) -> int
    decreases s.len(),
{
    if s.len() == 0 {
        0
    } else {
        10 * digits_value(s.drop_last()) + digit_value(s.last())
    }
}

/// What `str::parse::<i64>` returns: an optional `+` or `-`, then at least
/// one decimal digit and nothing else, whose value fits in an `i64`.
pub open spec fn spec_parse_i64(s: Seq<char>) -> Option<i64> {
    let neg = s.len() > 0 && s[0] == '-';
    let signed = s.len() > 0 && (s[0] == '-' || s[0] == '+');
    let body = if signed { s.drop_first() } else { s };
    let v = if neg { -digits_value(body) } else { digits_value(body) };
    if body.len() > 0 && all_digits(body) && i64::MIN <= v <= i64::MAX {
        Some(v as i64)
    } else {
        None
    }
}

/// The shortest decimal digits of `n`.
pub open spec fn decimal_digits(n: nat) -> Seq<char>
    decreases n,
{
    if n < 10 {
        seq![digit_char(n as int)]
    } else {
        decimal_digits(n / 10).push(digit_char((n % 10) as int))
    }
}

/// The canonical decimal text of `x`: a `-` for negative numbers, then the
/// shortest digits of its magnitude.
pub open spec fn render_i64(x: i64) -> Seq<char> {
    if x < 0 {
        seq!['-'] + decimal_digits((-(x as int)) as nat)
    } else {
        decimal_digits(x as nat)
    }
}

proof fn lemma_digits_value_nonneg(s: Seq<char>)
    requires
        all_digits(s),
    ensures
        digits_value(s) >= 0,
    decreases s.len(),
{
    if s.len() > 0 {
        lemma_digits_value_nonneg(s.drop_last());
    }
}

/// A prefix of a digit string has no larger value than the whole string.
proof fn lemma_prefix_value_le(s: Seq<char>, k: int)
    requires
        all_digits(s),
        0 <= k <= s.len(),
    ensures
        digits_value(s.take(k)) <= digits_value(s),
    decreases s.len(),
{
    if k < s.len() {
        lemma_prefix_value_le(s.drop_last(), k);
        lemma_digits_value_nonneg(s.drop_last());
        assert(s.drop_last().take(k) =~= s.take(k));
    } else {
        assert(s.take(k) =~= s);
    }
}

proof fn lemma_decimal_digits(n: nat)
    ensures
        decimal_digits(n).len() > 0,
        all_digits(decimal_digits(n)),
        digits_value(decimal_digits(n)) == n,
    decreases n,
{
    if n < 10 {
        let d = decimal_digits(n);
        assert(d.drop_last() =~= Seq::<char>::empty());
        assert(digits_value(Seq::<char>::empty()) == 0);
        assert(d.last() == digit_char(n as int));
        assert(digit_value(digit_char(n as int)) == n);
        assert(digits_value(d) == 10 * digits_value(d.drop_last()) + digit_value(d.last()));
    } else {
        lemma_decimal_digits(n / 10);
        let d = decimal_digits(n);
        assert(d.drop_last() =~= decimal_digits(n / 10));
        assert(digit_value(digit_char((n % 10) as int)) == n % 10);
        assert(d.last() == digit_char((n % 10) as int));
        assert(digits_value(d) == 10 * digits_value(d.drop_last()) + digit_value(d.last()));
        assert forall|i: int| 0 <= i < d.len() implies is_digit(#[trigger] d[i]) by {
            if i < d.len() - 1 {
                assert(d[i] == decimal_digits(n / 10)[i]);
            }
        }
    }
}

/// Parsing the canonical rendering of `x` gives `x` back.
pub proof fn lemma_parse_render_i64(x: i64)
    ensures
        spec_parse_i64(render_i64(x)) == Some(x),
{
    if x < 0 {
        let m = (-(x as int)) as nat;
        lemma_decimal_digits(m);
        let s = render_i64(x);
        assert(s.drop_first() =~= decimal_digits(m));
    } else {
        lemma_decimal_digits(x as nat);
        let d = decimal_digits(x as nat);
        assert(is_digit(d[0]));
    }
}

proof fn lemma_digits_step(body: Seq<char>, k: int)
    requires
        0 <= k < body.len(),
        all_digits(body.take(k)),
        is_digit(body[k]),
    ensures
        all_digits(body.take(k + 1)),
        digits_value(body.take(k + 1)) == 10 * digits_value(body.take(k)) + digit_value(body[k]),
{
    assert(body.take(k + 1).drop_last() =~= body.take(k));
    assert forall|j: int| 0 <= j < k + 1 implies is_digit(#[trigger] body.take(k + 1)[j]) by {
        if j < k {
            assert(body.take(k + 1)[j] == body.take(k)[j]);
        }
    }
}

/// Once a prefix of the digits exceeds 2^63, no sign makes the whole fit.
proof fn lemma_too_large(s: Seq<char>, body: Seq<char>, k: int)
    requires
        0 <= k <= body.len(),
        all_digits(body.take(k)),
        digits_value(body.take(k)) > 9223372036854775808,
        body == (if s.len() > 0 && (s[0] == '-' || s[0] == '+') { s.drop_first() } else { s }),
    ensures
        spec_parse_i64(s) is None,
{
    if all_digits(body) {
        lemma_prefix_value_le(body, k);
    }
}

/// Parses an `i64` from `cs[start..end]` by the rule of `str::parse::<i64>`.
pub fn parse_i64_in(cs: &Vec<char>, start: usize, end: usize) -> (r: Option<i64>)
    requires
        start <= end <= cs@.len(),
    ensures
        r == spec_parse_i64(cs@.subrange(start as int, end as int)),
{
    let ghost s = cs@.subrange(start as int, end as int);
    let mut i = start;
    let mut neg = false;
    if i < end && cs[i] == '-' {
        neg = true;
        i = i + 1;
    } else if i < end && cs[i] == '+' {
        i = i + 1;
    }
    let body_start = i;
    let ghost body = cs@.subrange(body_start as int, end as int);
    assert(body =~= (if s.len() > 0 && (s[0] == '-' || s[0] == '+') {
        s.drop_first()
    } else {
        s
    }));
    assert(neg == (s.len() > 0 && s[0] == '-'));
    if i == end {
        return None;
    }
    assert(body.take(0) =~= Seq::<char>::empty());
    let limit: u64 = 9223372036854775808;
    let mut mag: u64 = 0;
    while i < end
        invariant
            start <= body_start <= i <= end <= cs@.len(),
            s == cs@.subrange(start as int, end as int),
            limit == 9223372036854775808u64,
            body == cs@.subrange(body_start as int, end as int),
            body == (if s.len() > 0 && (s[0] == '-' || s[0] == '+') { s.drop_first() } else { s }),
            all_digits(body.take(i - body_start)),
            mag == digits_value(body.take(i - body_start)),
            mag <= limit,
        decreases end - i,
    {
        let c = cs[i];
        let ghost k = i - body_start;
        assert(c == body[k]);
        if c < '0' || c > '9' {
            assert(!is_digit(body[k]));
            assert(!all_digits(body));
            return None;
        }
        let cu = c as u32;
        assert(cu == c as int);
        let d: u64 = (cu - 48) as u64;
        assert(d == digit_value(body[k]));
        proof {
            lemma_digits_step(body, k);
        }
        if mag > (limit - d) / 10 {
            proof {
                lemma_too_large(s, body, k + 1);
            }
            return None;
        }
        mag = mag * 10 + d;
        i = i + 1;
    }
    assert(body.take(end - body_start) =~= body);
    if neg {
        if mag == limit {
            Some(i64::MIN)
        } else {
            Some(-(mag as i64))
        }
    } else {
        if mag > 9223372036854775807 {
            None
        } else {
            Some(mag as i64)
        }
    }
}

fn render_magnitude(n: u64) -> (r: String)
    ensures
        r@ == decimal_digits(n as nat),
    decreases n,
{
    let d: u64 = n % 10;
    let c = char_of_digit(d);
    if n < 10 {
        let mut s = String::new();
        push_char(&mut s, c);
        assert(s@ =~= seq![digit_char(n as int)]);
        s
    } else {
        let mut s = render_magnitude(n / 10);
        push_char(&mut s, c);
        s
    }
}

fn char_of_digit(d: u64) -> (c: char)
    requires
        d < 10,
    ensures
        c == digit_char(d as int),
{
    match d {
        0 => '0',
        1 => '1',
        2 => '2',
        3 => '3',
        4 => '4',
        5 => '5',
        6 => '6',
        7 => '7',
        8 => '8',
        _ => '9',
    }
}

/// The canonical decimal text of `x`.
pub fn i64_to_string(x: i64) -> (r: String)
    ensures
        r@ == render_i64(x),
{
    if x < 0 {
        let m: u64 = if x == i64::MIN {
            9223372036854775808
        } else {
            (-x) as u64
        };
        let digits = render_magnitude(m);
        let mut s = String::new();
        push_char(&mut s, '-');
        let mut i: usize = 0;
        let ghost ds = digits@;
        let dv = crate::text::chars_of(digits.as_str());
        while i < dv.len()
            invariant
                0 <= i <= dv@.len(),
                dv@ == ds,
                ds == decimal_digits((-(x as int)) as nat),
                s@ == seq!['-'] + ds.take(i as int),
            decreases dv@.len() - i,
        {
            push_char(&mut s, dv[i]);
            assert(ds.take(i + 1) =~= ds.take(i as int).push(ds[i as int]));
            i = i + 1;
        }
        assert(ds.take(ds.len() as int) =~= ds);
        s
    } else {
        render_magnitude(x as u64)
    }
}

} // verus!
