//! The JSON text of a token's claims, `{"sub":"<user id>","exp":<seconds>}`:
//! its rendering, and its parsing back.

use vstd::prelude::*;

use crate::numeric::{i64_to_string, lemma_parse_render_i64, parse_i64_in, render_i64};
use crate::text::chars_of;

verus! {

/// Text before the subject.
pub const CLAIMS_HEAD: &'static str = "{\"sub\":\"";

/// Text between the subject and the expiry.
pub const CLAIMS_MID: &'static str = "\",\"exp\":";

/// Text after the expiry.
pub const CLAIMS_TAIL: &'static str = "}";

/// `t` holds no double quote, so it can stand inside a JSON string as it is.
pub open spec fn quote_free(t: Seq<char>) -> bool {
    forall|i: int| 0 <= i < t.len() ==> #[trigger] t[i] != '"'
}

/// The claims text for subject text `sub` and expiry `exp` (Unix seconds).
pub open spec fn claims_payload(sub: Seq<char>, exp: i64) -> Seq<char> {
    CLAIMS_HEAD@ + sub + CLAIMS_MID@ + render_i64(exp) + CLAIMS_TAIL@
}

/// Renders the claims text.
pub fn render_claims(sub: &str, exp: i64) -> (r: String)
    ensures
        r@ == claims_payload(sub@, exp),
{
    let e = i64_to_string(exp);
    String::from_str(CLAIMS_HEAD).concat(sub).concat(CLAIMS_MID).concat(e.as_str()).concat(
        CLAIMS_TAIL,
    )
}

/// Whether `lit` occurs in `cs` at position `at`.
fn occurs_at(cs: &Vec<char>, at: usize, lit: &Vec<char>) -> (r: bool)
    ensures
        r == (at + lit@.len() <= cs@.len() && cs@.subrange(at as int, at + lit@.len()) == lit@),
{
    if at > cs.len() || lit.len() > cs.len() - at {
        return false;
    }
    let mut i: usize = 0;
    while i < lit.len()
        invariant
            at + lit@.len() <= cs@.len(),
            cs@.len() <= usize::MAX,
            0 <= i <= lit@.len(),
            forall|j: int| 0 <= j < i ==> #[trigger] lit@[j] == cs@[at + j],
        decreases lit@.len() - i,
    {
        if cs[at + i] != lit[i] {
            assert(cs@.subrange(at as int, at + lit@.len())[i as int] != lit@[i as int]);
            return false;
        }
        i = i + 1;
    }
    assert(cs@.subrange(at as int, at + lit@.len()) =~= lit@);
    true
}

/// The first position at or after `from` that holds a double quote, or `cs.len()`.
fn find_quote(cs: &Vec<char>, from: usize) -> (r: usize)
    requires
        from <= cs@.len(),
    ensures
        from <= r <= cs@.len(),
        r < cs@.len() ==> cs@[r as int] == '"',
        forall|j: int| from <= j < r ==> #[trigger] cs@[j] != '"',
{
    let mut i = from;
    while i < cs.len()
        invariant
            from <= i <= cs@.len(),
            forall|j: int| from <= j < i ==> #[trigger] cs@[j] != '"',
        decreases cs@.len() - i,
    {
        if cs[i] == '"' {
            return i;
        }
        i = i + 1;
    }
    i
}

proof fn lemma_payload_parts(p: Seq<char>, sub: Seq<char>, exp: i64)
    requires
        p == claims_payload(sub, exp),
    ensures
        p.subrange(0, CLAIMS_HEAD@.len() as int) == CLAIMS_HEAD@,
        p.subrange(CLAIMS_HEAD@.len() as int, (CLAIMS_HEAD@.len() + sub.len()) as int) == sub,
        p.subrange((CLAIMS_HEAD@.len() + sub.len()) as int, (CLAIMS_HEAD@.len() + sub.len()
            + CLAIMS_MID@.len()) as int) == CLAIMS_MID@,
        p.subrange((CLAIMS_HEAD@.len() + sub.len() + CLAIMS_MID@.len()) as int, p.len() - CLAIMS_TAIL@.len())
            == render_i64(exp),
        p.subrange(p.len() - CLAIMS_TAIL@.len(), p.len() as int) == CLAIMS_TAIL@,
{
    let h = CLAIMS_HEAD@.len() as int;
    let m = CLAIMS_MID@.len() as int;
    let r = render_i64(exp);
    assert(p.subrange(0, h) =~= CLAIMS_HEAD@);
    assert(p.subrange(h, h + sub.len()) =~= sub);
    assert(p.subrange(h + sub.len(), h + sub.len() + m) =~= CLAIMS_MID@);
    assert(p.subrange(h + sub.len() + m, p.len() - CLAIMS_TAIL@.len()) =~= r);
    assert(p.subrange(p.len() - CLAIMS_TAIL@.len(), p.len() as int) =~= CLAIMS_TAIL@);
}

proof fn lemma_payload_from_parts(p: Seq<char>, sub: Seq<char>, digits: Seq<char>)
    requires
        p.len() >= CLAIMS_HEAD@.len() + sub.len() + CLAIMS_MID@.len() + CLAIMS_TAIL@.len(),
        p.subrange(0, CLAIMS_HEAD@.len() as int) == CLAIMS_HEAD@,
        p.subrange(CLAIMS_HEAD@.len() as int, (CLAIMS_HEAD@.len() + sub.len()) as int) == sub,
        p.subrange((CLAIMS_HEAD@.len() + sub.len()) as int, (CLAIMS_HEAD@.len() + sub.len()
            + CLAIMS_MID@.len()) as int) == CLAIMS_MID@,
        p.subrange((CLAIMS_HEAD@.len() + sub.len() + CLAIMS_MID@.len()) as int, p.len() - CLAIMS_TAIL@.len())
            == digits,
        p.subrange(p.len() - CLAIMS_TAIL@.len(), p.len() as int) == CLAIMS_TAIL@,
    ensures
        p == CLAIMS_HEAD@ + sub + CLAIMS_MID@ + digits + CLAIMS_TAIL@,
{
    let q = CLAIMS_HEAD@ + sub + CLAIMS_MID@ + digits + CLAIMS_TAIL@;
    assert forall|i: int| 0 <= i < p.len() implies p[i] == q[i] by {
        let h = CLAIMS_HEAD@.len() as int;
        let m = CLAIMS_MID@.len() as int;
        let t = p.len() - CLAIMS_TAIL@.len();
        if i < h {
            assert(p.subrange(0, h)[i] == p[i]);
        } else if i < h + sub.len() {
            assert(p.subrange(h, h + sub.len())[i - h] == p[i]);
        } else if i < h + sub.len() + m {
            assert(p.subrange(h + sub.len(), h + sub.len() + m)[i - h - sub.len()] == p[i]);
        } else if i < t {
            assert(p.subrange(h + sub.len() + m, t)[i - h - sub.len() - m] == p[i]);
        } else {
            assert(p.subrange(t, p.len() as int)[i - t] == p[i]);
        }
    }
    assert(p =~= q);
}

/// `sub` is a quote-free subject text and `p` the claims text of `sub` and
/// `exp`.
pub open spec fn fits(p: Seq<char>, sub: Seq<char>, exp: i64) -> bool {
    quote_free(sub) && p == claims_payload(sub, exp)
}

/// A claims text has at most one quote-free subject and one expiry.
pub proof fn lemma_fit_unique(p: Seq<char>, s1: Seq<char>, e1: i64, s2: Seq<char>, e2: i64)
    requires
        fits(p, s1, e1),
        fits(p, s2, e2),
    ensures
        s1 == s2,
        e1 == e2,
{
    reveal_strlit("{\"sub\":\"");
    reveal_strlit("\",\"exp\":");
    lemma_payload_parts(p, s1, e1);
    lemma_payload_parts(p, s2, e2);
    let h = CLAIMS_HEAD@.len() as int;
    if s1.len() < s2.len() {
        assert(p[h + s1.len()] == CLAIMS_MID@[0]);
        assert(p[h + s1.len()] == s2[s1.len() as int]);
    } else if s2.len() < s1.len() {
        assert(p[h + s2.len()] == CLAIMS_MID@[0]);
        assert(p[h + s2.len()] == s1[s2.len() as int]);
    }
    assert(s1 =~= s2);
    lemma_parse_render_i64(e1);
    lemma_parse_render_i64(e2);
}

/// Reads the subject text and the expiry back from a claims text. Exactly
/// the texts that `render_claims` gives for a quote-free subject are read,
/// and they give back what was rendered.
pub fn parse_claims(p: &str) -> (r: Option<(String, i64)>)
    ensures
        r matches Some((sub, exp)) ==> p@ == claims_payload(sub@, exp) && quote_free(sub@),
        forall|sub: Seq<char>, exp: i64|
            quote_free(sub) && p@ == #[trigger] claims_payload(sub, exp) ==> (r matches Some((
                s,
                e,
            )) && s@ == sub && e == exp),
{
    let cs = chars_of(p);
    let head = chars_of(CLAIMS_HEAD);
    let mid = chars_of(CLAIMS_MID);
    let tail = chars_of(CLAIMS_TAIL);
    proof {
        reveal_strlit("{\"sub\":\"");
        reveal_strlit("\",\"exp\":");
        reveal_strlit("}");
    }
    // Where some subject and expiry fit, `w` is one; every check below
    // passes for it, so a failed check means that none fits.
    let ghost fit = exists|sub: Seq<char>, exp: i64| #[trigger] fits(p@, sub, exp);
    let ghost w = choose|sub: Seq<char>, exp: i64| #[trigger] fits(p@, sub, exp);
    proof {
        if fit {
            lemma_payload_parts(p@, w.0, w.1);
            lemma_parse_render_i64(w.1);
        }
        assert forall|sub: Seq<char>, exp: i64|
            quote_free(sub) && p@ == #[trigger] claims_payload(sub, exp) implies fit by {
            assert(fits(p@, sub, exp));
        }
    }
    let h = head.len();
    if !occurs_at(&cs, 0, &head) {
        return None;
    }
    let q = find_quote(&cs, h);
    let ghost sub_v = cs@.subrange(h as int, q as int);
    assert(quote_free(sub_v)) by {
        assert forall|i: int| 0 <= i < sub_v.len() implies #[trigger] sub_v[i] != '"' by {
            assert(sub_v[i] == cs@[h + i]);
        }
    }
    proof {
        // The subject of `w` ends exactly where the first quote stands.
        if fit {
            let at = h + w.0.len();
            assert(p@[at] == CLAIMS_MID@[0]);
            assert(forall|j: int| h <= j < at ==> p@[j] == w.0[j - h]);
            if q < at {
                assert(p@[q as int] == w.0[q - h]);
            }
            assert(q == at);
        }
    }
    if mid.len() > cs.len() - q || tail.len() > cs.len() - q - mid.len() || !occurs_at(
        &cs,
        q,
        &mid,
    ) {
        return None;
    }
    let end = cs.len() - tail.len();
    if !occurs_at(&cs, end, &tail) {
        return None;
    }
    let start = q + mid.len();
    let ghost digits = cs@.subrange(start as int, end as int);
    match parse_i64_in(&cs, start, end) {
        None => None,
        Some(exp) => {
            let text = i64_to_string(exp);
            let tv = chars_of(text.as_str());
            if tv.len() != end - start || !occurs_at(&cs, start, &tv) {
                return None;
            }
            let sub = substring_of(&cs, h, q);
            proof {
                lemma_payload_from_parts(p@, sub_v, digits);
                assert(digits == render_i64(exp));
                assert(fits(p@, sub_v, exp));
                assert forall|sb: Seq<char>, e: i64|
                    quote_free(sb) && p@ == #[trigger] claims_payload(sb, e) implies sb == sub_v
                    && e == exp by {
                    lemma_fit_unique(p@, sb, e, sub_v, exp);
                }
            }
            Some((sub, exp))
        },
    }
}

/// The characters `cs[from..to]` as a string.
fn substring_of(cs: &Vec<char>, from: usize, to: usize) -> (r: String)
    requires
        from <= to <= cs@.len(),
    ensures
        r@ == cs@.subrange(from as int, to as int),
{
    let mut s = String::new();
    let mut i = from;
    while i < to
        invariant
            from <= i <= to <= cs@.len(),
            s@ == cs@.subrange(from as int, i as int),
        decreases to - i,
    {
        crate::text::push_char(&mut s, cs[i]);
        assert(cs@.subrange(from as int, i + 1) =~= cs@.subrange(from as int, i as int).push(
            cs@[i as int],
        ));
        i = i + 1;
    }
    s
}

} // verus!
