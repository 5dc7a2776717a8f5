//! Character-sequence utilities shared by the field normalizer and the
//! snapshot extractor: substring search, substring removal, character
//! replacement and filtering, and integer / decimal token parsing.

use vstd::prelude::*;
use vstd::string::StrSliceExecFns;

use crate::models::Dec;

verus! {

// ---------------------------------------------------------------------------
// Digits
// ---------------------------------------------------------------------------

/// `c` is one of the ten ASCII digits.
pub open spec fn is_digit(c: char) -> bool {
    48 <= c as u32 <= 57
}

/// The numeric value of a digit character.
pub open spec fn digit_val(c: char) -> int {
    c as u32 - 48
}

/// The integer denoted by a sequence of digit characters, most significant
/// first; an empty sequence denotes zero.
pub open spec fn digits_val(s: Seq<char>) -> int
    decreases s.len(),
{
    if s.len() == 0 {
        0
    } else {
        digits_val(s.drop_last()) * 10 + digit_val(s.last())
    }
}

/// Every character of `s` is a digit.
pub open spec fn all_digits(s: Seq<char>) -> bool {
    forall|i: int| 0 <= i < s.len() ==> is_digit(#[trigger] s[i])
}

proof fn lemma_digits_val_nonneg(s: Seq<char>)
    requires
        all_digits(s),
    ensures
        digits_val(s) >= 0,
    decreases s.len(),
{
    if s.len() > 0 {
        assert(all_digits(s.drop_last()));
        lemma_digits_val_nonneg(s.drop_last());
        assert(is_digit(s.last()));
    }
}

/// Appending further digits never decreases the denoted value.
proof fn lemma_digits_val_extend(s: Seq<char>, t: Seq<char>)
    requires
        all_digits(s),
        all_digits(t),
    ensures
        digits_val(s + t) >= digits_val(s),
    decreases t.len(),
{
    if t.len() == 0 {
        assert(s + t =~= s);
    } else {
        let t0 = t.drop_last();
        assert(all_digits(t0));
        lemma_digits_val_extend(s, t0);
        assert((s + t).drop_last() =~= s + t0);
        lemma_digits_val_nonneg(s);
        assert(all_digits(s + t0)) by {
            assert(forall|i: int|
                0 <= i < (s + t0).len() ==> is_digit(#[trigger] (s + t0)[i]));
        }
        lemma_digits_val_nonneg(s + t0);
        assert(is_digit(t.last()));
        assert(digits_val(s + t) == digits_val(s + t0) * 10 + digit_val(t.last()));
    }
}

// ---------------------------------------------------------------------------
// Signed tokens
// ---------------------------------------------------------------------------

/// `s` opens with an explicit `+` or `-` sign.
pub open spec fn has_sign(s: Seq<char>) -> bool {
    s.len() > 0 && (s[0] == '+' || s[0] == '-')
}

/// `s` without its sign, if it has one.
pub open spec fn token_body(s: Seq<char>) -> Seq<char> {
    if has_sign(s) {
        s.drop_first()
    } else {
        s
    }
}

/// `s` opens with a minus sign.
pub open spec fn is_negative(s: Seq<char>) -> bool {
    s.len() > 0 && s[0] == '-'
}

/// An optional sign followed by one or more digits.
pub open spec fn is_int_token(s: Seq<char>) -> bool {
    token_body(s).len() > 0 && all_digits(token_body(s))
}

/// The integer denoted by an integer token.
pub open spec fn int_token_val(s: Seq<char>) -> int {
    if is_negative(s) {
        -digits_val(token_body(s))
    } else {
        digits_val(token_body(s))
    }
}

/// The value of an integer token, when it denotes an `i64`; `None` when `s`
/// is no integer token or its value does not fit.
pub open spec fn int_token_opt(s: Seq<char>) -> Option<i64> {
    if is_int_token(s) && i64::MIN <= int_token_val(s) <= i64::MAX {
        Some(int_token_val(s) as i64)
    } else {
        None
    }
}

/// Parses an optional sign followed by decimal digits, rejecting anything
/// else and any value outside `i64`.
pub(crate) fn parse_int_token(v: &Vec<char>) -> (r: Option<i64>)
    ensures
        r == int_token_opt(v@),
{
    let n = v.len();
    let mut start: usize = 0;
    let mut neg = false;
    if n > 0 && (v[0] == '+' || v[0] == '-') {
        start = 1;
        neg = v[0] == '-';
    }
    let ghost body = token_body(v@);
    proof {
        assert(body =~= v@.skip(start as int));
        assert(neg == is_negative(v@));
    }
    if start >= n {
        return None;
    }
    let mut mag: u64 = 0;
    let mut i: usize = start;
    while i < n
        invariant
            n == v@.len(),
            start <= i <= n,
            start < n,
            body == v@.skip(start as int),
            body == token_body(v@),
            neg == is_negative(v@),
            all_digits(body.subrange(0, i - start)),
            mag == digits_val(body.subrange(0, i - start)),
        decreases n - i,
    {
        let c = v[i];
        let ghost pre = body.subrange(0, i - start);
        proof {
            assert(body[i - start] == v@[i as int]);
        }
        let u = c as u32;
        if u < 48 || u > 57 {
            proof {
                assert(!is_digit(body[i - start]));
            }
            return None;
        }
        let d = (u - 48) as u64;
        let grown = match mag.checked_mul(10) {
            Some(m) => m.checked_add(d),
            None => None,
        };
        match grown {
            Some(m) => {
                mag = m;
            },
            None => {
                proof {
                    if is_int_token(v@) {
                        let done = body.subrange(0, i - start + 1);
                        assert(done.drop_last() =~= pre);
                        assert(done.last() == v@[i as int]);
                        assert(digits_val(done) == digits_val(pre) * 10 + digit_val(
                            v@[i as int],
                        ));
                        assert(digits_val(done) > u64::MAX);
                        let rest = body.skip(i - start + 1);
                        assert(all_digits(done));
                        assert(all_digits(rest));
                        lemma_digits_val_extend(done, rest);
                        assert(body =~= done + rest);
                        assert(digits_val(body) > u64::MAX);
                    }
                }
                return None;
            },
        }
        proof {
            let done = body.subrange(0, i - start + 1);
            assert(done.drop_last() =~= pre);
            assert(done.last() == v@[i as int]);
        }
        i = i + 1;
    }
    proof {
        assert(body.subrange(0, n - start) =~= body);
        assert(is_int_token(v@));
    }
    if neg {
        if mag <= 9223372036854775807u64 {
            Some(0i64 - (mag as i64))
        } else if mag == 9223372036854775808u64 {
            Some(i64::MIN)
        } else {
            None
        }
    } else {
        if mag <= 9223372036854775807u64 {
            Some(mag as i64)
        } else {
            None
        }
    }
}

// ---------------------------------------------------------------------------
// Substring search and removal
// ---------------------------------------------------------------------------

/// `pat` occurs in `s` starting at position `i`.
pub open spec fn matches_at(s: Seq<char>, pat: Seq<char>, i: int) -> bool {
    0 <= i && i + pat.len() <= s.len() && s.subrange(i, i + pat.len() as int) == pat
}

/// `pat` occurs somewhere in `s`.
pub open spec fn contains_seq(s: Seq<char>, pat: Seq<char>) -> bool {
    exists|i: int| matches_at(s, pat, i)
}

/// `s` with every occurrence of `pat` removed, scanning left to right and
/// resuming right after each removed occurrence.
pub open spec fn remove_all(s: Seq<char>, pat: Seq<char>) -> Seq<char>
    decreases s.len(),
{
    if s.len() == 0 {
        s
    } else if 0 < pat.len() <= s.len() && s.subrange(0, pat.len() as int) == pat {
        remove_all(s.skip(pat.len() as int), pat)
    } else {
        seq![s[0]] + remove_all(s.skip(1), pat)
    }
}

/// Whether `pat` occurs in `v` at position `i`.
pub(crate) fn match_at(v: &Vec<char>, pat: &Vec<char>, i: usize) -> (r: bool)
    requires
        i <= v@.len(),
    ensures
        r == matches_at(v@, pat@, i as int),
{
    let n = v.len();
    if n - i < pat.len() {
        return false;
    }
    let mut j: usize = 0;
    while j < pat.len()
        invariant
            n == v@.len(),
            i + pat@.len() <= n,
            j <= pat@.len(),
            forall|k: int| 0 <= k < j ==> v@[i + k] == pat@[k],
        decreases pat@.len() - j,
    {
        if v[i + j] != pat[j] {
            assert(v@.subrange(i as int, i + pat@.len() as int)[j as int] != pat@[j as int]);
            return false;
        }
        j = j + 1;
    }
    proof {
        assert(v@.subrange(i as int, i + pat@.len() as int) =~= pat@);
    }
    true
}

/// Whether `pat` occurs anywhere in `v`.
pub(crate) fn contains_pat(v: &Vec<char>, pat: &Vec<char>) -> (r: bool)
    requires
        pat@.len() > 0,
    ensures
        r == contains_seq(v@, pat@),
{
    let mut i: usize = 0;
    while i < v.len()
        invariant
            i <= v@.len(),
            pat@.len() > 0,
            forall|k: int| 0 <= k < i ==> !matches_at(v@, pat@, k),
        decreases v@.len() - i,
    {
        if match_at(v, pat, i) {
            return true;
        }
        i = i + 1;
    }
    proof {
        assert(forall|k: int| matches_at(v@, pat@, k) ==> 0 <= k < v@.len());
    }
    false
}

/// `v` with every occurrence of `pat` removed, as `remove_all` describes.
pub(crate) fn remove_pat(v: &Vec<char>, pat: &Vec<char>) -> (r: Vec<char>)
    requires
        pat@.len() > 0,
    ensures
        r@ == remove_all(v@, pat@),
{
    let mut out: Vec<char> = Vec::new();
    let mut i: usize = 0;
    proof {
        assert(v@.skip(0) =~= v@);
        assert(Seq::<char>::empty() + remove_all(v@, pat@) =~= remove_all(v@, pat@));
    }
    while i < v.len()
        invariant
            i <= v@.len(),
            pat@.len() > 0,
            remove_all(v@, pat@) == out@ + remove_all(v@.skip(i as int), pat@),
        decreases v@.len() - i,
    {
        let ghost rest = v@.skip(i as int);
        if match_at(v, pat, i) {
            proof {
                assert(rest.subrange(0, pat@.len() as int) =~= v@.subrange(
                    i as int,
                    i + pat@.len() as int,
                ));
                assert(rest.skip(pat@.len() as int) =~= v@.skip(i + pat@.len()));
            }
            i = i + pat.len();
        } else {
            proof {
                if pat@.len() <= rest.len() {
                    assert(rest.subrange(0, pat@.len() as int) =~= v@.subrange(
                        i as int,
                        i + pat@.len() as int,
                    ));
                }
                assert(rest.skip(1) =~= v@.skip(i + 1));
                assert(rest[0] == v@[i as int]);
                assert(remove_all(rest, pat@) == seq![v@[i as int]] + remove_all(
                    v@.skip(i + 1),
                    pat@,
                ));
            }
            out.push(v[i]);
            proof {
                assert(out@ + remove_all(v@.skip(i + 1), pat@) =~= out@.drop_last() + (seq![
                    v@[i as int],
                ] + remove_all(v@.skip(i + 1), pat@)));
            }
            i = i + 1;
        }
    }
    proof {
        assert(v@.skip(i as int) =~= Seq::<char>::empty());
        assert(remove_all(Seq::<char>::empty(), pat@) =~= Seq::<char>::empty());
        assert(out@ + Seq::<char>::empty() =~= out@);
    }
    out
}

// ---------------------------------------------------------------------------
// Decimal tokens
// ---------------------------------------------------------------------------

/// The digit characters of `s`, in order.
pub open spec fn digits_of(s: Seq<char>) -> Seq<char>
    decreases s.len(),
{
    if s.len() == 0 {
        s
    } else {
        let rest = digits_of(s.drop_last());
        if is_digit(s.last()) {
            rest.push(s.last())
        } else {
            rest
        }
    }
}

/// How many decimal points `s` holds.
pub open spec fn count_dots(s: Seq<char>) -> int
    decreases s.len(),
{
    if s.len() == 0 {
        0
    } else {
        count_dots(s.drop_last()) + if s.last() == '.' {
            1int
        } else {
            0int
        }
    }
}

/// How many characters of `s` stand after its first decimal point.
pub open spec fn frac_len(s: Seq<char>) -> int
    decreases s.len(),
{
    if s.len() == 0 {
        0
    } else if count_dots(s.drop_last()) > 0 {
        frac_len(s.drop_last()) + 1
    } else {
        0
    }
}

/// An optional sign, then digits with at most one decimal point among them
/// and at least one digit.
pub open spec fn is_dec_token(s: Seq<char>) -> bool {
    let b = token_body(s);
    b.len() > 0 && (forall|i: int|
        0 <= i < b.len() ==> (is_digit(#[trigger] b[i]) || b[i] == '.')) && count_dots(b) <= 1
        && digits_of(b).len() > 0
}

/// The exact decimal a decimal token denotes, when its digits fit a `u64`;
/// `None` when `s` is no decimal token or they do not.
pub open spec fn dec_token_opt(s: Seq<char>) -> Option<Dec> {
    let b = token_body(s);
    if is_dec_token(s) && digits_val(digits_of(b)) <= u64::MAX && frac_len(b) <= usize::MAX {
        Some(
            Dec {
                negative: is_negative(s),
                mantissa: digits_val(digits_of(b)) as u64,
                scale: frac_len(b) as usize,
            },
        )
    } else {
        None
    }
}

proof fn lemma_count_dots_prefix(s: Seq<char>, k: int)
    requires
        0 <= k <= s.len(),
    ensures
        count_dots(s.subrange(0, k)) <= count_dots(s),
    decreases s.len(),
{
    if k == s.len() {
        assert(s.subrange(0, k) =~= s);
    } else {
        assert(s.drop_last().subrange(0, k) =~= s.subrange(0, k));
        lemma_count_dots_prefix(s.drop_last(), k);
    }
}

proof fn lemma_digits_of_append(s: Seq<char>, t: Seq<char>)
    ensures
        digits_of(s + t) == digits_of(s) + digits_of(t),
    decreases t.len(),
{
    if t.len() == 0 {
        assert(s + t =~= s);
        assert(digits_of(s) + digits_of(t) =~= digits_of(s));
    } else {
        let t0 = t.drop_last();
        lemma_digits_of_append(s, t0);
        assert((s + t).drop_last() =~= s + t0);
        if is_digit(t.last()) {
            assert(digits_of(s) + digits_of(t) =~= (digits_of(s) + digits_of(t0)).push(
                t.last(),
            ));
        }
    }
}

proof fn lemma_digits_of_all_digits(s: Seq<char>)
    ensures
        all_digits(digits_of(s)),
    decreases s.len(),
{
    if s.len() > 0 {
        lemma_digits_of_all_digits(s.drop_last());
    }
}

/// Parses an optional sign followed by digits holding at most one decimal
/// point, rejecting anything else and any mantissa beyond `u64`.
pub(crate) fn parse_dec_token(v: &Vec<char>) -> (r: Option<Dec>)
    ensures
        r == dec_token_opt(v@),
{
    let n = v.len();
    let mut start: usize = 0;
    let mut neg = false;
    if n > 0 && (v[0] == '+' || v[0] == '-') {
        start = 1;
        neg = v[0] == '-';
    }
    let ghost b = token_body(v@);
    proof {
        assert(b =~= v@.skip(start as int));
        assert(neg == is_negative(v@));
    }
    if start >= n {
        return None;
    }
    let mut mag: u64 = 0;
    let mut dot = false;
    let mut frac: usize = 0;
    let mut any_digit = false;
    let mut i: usize = start;
    while i < n
        invariant
            n == v@.len(),
            start <= i <= n,
            start < n,
            b == v@.skip(start as int),
            b == token_body(v@),
            neg == is_negative(v@),
            forall|k: int|
                0 <= k < i - start ==> (is_digit(#[trigger] b[k]) || b[k] == '.'),
            count_dots(b.subrange(0, i - start)) == if dot {
                1int
            } else {
                0int
            },
            mag == digits_val(digits_of(b.subrange(0, i - start))),
            any_digit == (digits_of(b.subrange(0, i - start)).len() > 0),
            frac == frac_len(b.subrange(0, i - start)),
            frac <= i - start,
        decreases n - i,
    {
        let c = v[i];
        let ghost pre = b.subrange(0, i - start);
        let ghost done = b.subrange(0, i - start + 1);
        proof {
            assert(done.drop_last() =~= pre);
            assert(done.last() == v@[i as int]);
            assert(b[i - start] == v@[i as int]);
        }
        let u = c as u32;
        if c == '.' {
            if dot {
                proof {
                    assert(count_dots(done) == 2);
                    lemma_count_dots_prefix(b, i - start + 1);
                }
                return None;
            }
            dot = true;
        } else if 48 <= u && u <= 57 {
            let d = (u - 48) as u64;
            let grown = match mag.checked_mul(10) {
                Some(m) => m.checked_add(d),
                None => None,
            };
            match grown {
                Some(m) => {
                    mag = m;
                    any_digit = true;
                    if dot {
                        frac = frac + 1;
                    }
                    proof {
                        let cc = v@[i as int];
                        assert(digits_of(done) =~= digits_of(pre).push(cc));
                        assert(digits_of(pre).push(cc).drop_last() =~= digits_of(pre));
                        assert(digits_of(pre).push(cc).last() == cc);
                    }
                },
                None => {
                    proof {
                        if is_dec_token(v@) {
                            let cc = v@[i as int];
                            assert(digits_of(done) =~= digits_of(pre).push(cc));
                            assert(digits_of(pre).push(cc).drop_last() =~= digits_of(pre));
                            assert(digits_of(pre).push(cc).last() == cc);
                            assert(digits_val(digits_of(done)) == digits_val(digits_of(pre)) * 10
                                + digit_val(cc));
                            let rest = b.skip(i - start + 1);
                            assert(b =~= done + rest);
                            lemma_digits_of_append(done, rest);
                            lemma_digits_of_all_digits(done);
                            lemma_digits_of_all_digits(rest);
                            lemma_digits_val_extend(digits_of(done), digits_of(rest));
                            assert(digits_val(digits_of(b)) > u64::MAX);
                        }
                    }
                    return None;
                },
            }
        } else {
            proof {
                assert(!is_digit(b[i - start]) && b[i - start] != '.');
            }
            return None;
        }
        i = i + 1;
    }
    proof {
        assert(b.subrange(0, n - start) =~= b);
    }
    if !any_digit {
        return None;
    }
    Some(Dec { negative: neg, mantissa: mag, scale: frac })
}

// ---------------------------------------------------------------------------
// Character filtering and replacement
// ---------------------------------------------------------------------------

/// `s` without any occurrence of the characters `a` and `b`.
pub open spec fn strip_two(s: Seq<char>, a: char, b: char) -> Seq<char>
    decreases s.len(),
{
    if s.len() == 0 {
        s
    } else {
        let rest = strip_two(s.drop_last(), a, b);
        if s.last() == a || s.last() == b {
            rest
        } else {
            rest.push(s.last())
        }
    }
}

/// `s` with every occurrence of `from` replaced by `to`.
pub open spec fn swap_char(s: Seq<char>, from: char, to: char) -> Seq<char> {
    Seq::new(s.len(), |i: int| if s[i] == from { to } else { s[i] })
}

/// `v` without any occurrence of the characters `a` and `b`.
pub(crate) fn drop_chars(v: &Vec<char>, a: char, b: char) -> (r: Vec<char>)
    ensures
        r@ == strip_two(v@, a, b),
{
    let mut out: Vec<char> = Vec::new();
    let mut i: usize = 0;
    while i < v.len()
        invariant
            i <= v@.len(),
            out@ == strip_two(v@.subrange(0, i as int), a, b),
        decreases v@.len() - i,
    {
        let c = v[i];
        proof {
            let prev = v@.subrange(0, i as int);
            let cur = v@.subrange(0, i + 1);
            assert(cur.drop_last() =~= prev);
            assert(cur.last() == c);
        }
        if c != a && c != b {
            out.push(c);
        }
        i = i + 1;
    }
    proof {
        assert(v@.subrange(0, i as int) =~= v@);
    }
    out
}

/// `v` with every occurrence of `from` replaced by `to`.
pub(crate) fn replace_char(v: &Vec<char>, from: char, to: char) -> (r: Vec<char>)
    ensures
        r@ == swap_char(v@, from, to),
{
    let mut out: Vec<char> = Vec::new();
    let mut i: usize = 0;
    while i < v.len()
        invariant
            i <= v@.len(),
            out@.len() == i,
            forall|k: int| 0 <= k < i ==> out@[k] == (if v@[k] == from {
                to
            } else {
                v@[k]
            }),
        decreases v@.len() - i,
    {
        let c = v[i];
        if c == from {
            out.push(to);
        } else {
            out.push(c);
        }
        i = i + 1;
    }
    proof {
        assert(out@ =~= swap_char(v@, from, to));
    }
    out
}

// ---------------------------------------------------------------------------
// From &str
// ---------------------------------------------------------------------------

/// The characters of `s`, one element per `char`.
pub fn chars_of(s: &str) -> (r: Vec<char>)
    ensures
        r@ == s@,
{
    let n: usize = s.unicode_len();
    let mut out: Vec<char> = Vec::new();
    let mut i: usize = 0;
    while i < n
        invariant
            n == s@.len(),
            i <= n,
            out@ == s@.subrange(0, i as int),
        decreases n - i,
    {
        out.push(s.get_char(i));
        i = i + 1;
        proof {
            assert(out@ =~= s@.subrange(0, i as int));
        }
    }
    proof {
        assert(out@ =~= s@);
    }
    out
}

} // verus!
