//! Verified text utilities: whitespace trimming, trailing-slash removal,
//! substring replacement and decimal rendering. The controller's contracts
//! are stated over the spec functions defined here.

use vstd::prelude::*;
use vstd::string::*;

verus! {

/// The characters treated as whitespace when trimming: the Unicode
/// `White_Space` set, as `str::trim` uses it.
pub open spec fn is_space(c: char) -> bool {
    ||| c == ' '
    ||| c == '\t'
    ||| c == '\n'
    ||| c == '\r'
    ||| c == '\u{b}'
    ||| c == '\u{c}'
    ||| c == '\u{85}'
    ||| c == '\u{a0}'
    ||| c == '\u{1680}'
    ||| c == '\u{2000}'
    ||| c == '\u{2001}'
    ||| c == '\u{2002}'
    ||| c == '\u{2003}'
    ||| c == '\u{2004}'
    ||| c == '\u{2005}'
    ||| c == '\u{2006}'
    ||| c == '\u{2007}'
    ||| c == '\u{2008}'
    ||| c == '\u{2009}'
    ||| c == '\u{200a}'
    ||| c == '\u{2028}'
    ||| c == '\u{2029}'
    ||| c == '\u{202f}'
    ||| c == '\u{205f}'
    ||| c == '\u{3000}'
}

pub fn is_space_char(c: char) -> (b: bool)
    ensures
        b == is_space(c),
{
    c == ' ' || c == '\t' || c == '\n' || c == '\r' || c == '\u{b}' || c == '\u{c}'
        || c == '\u{85}' || c == '\u{a0}' || c == '\u{1680}' || c == '\u{2000}'
        || c == '\u{2001}' || c == '\u{2002}' || c == '\u{2003}' || c == '\u{2004}'
        || c == '\u{2005}' || c == '\u{2006}' || c == '\u{2007}' || c == '\u{2008}'
        || c == '\u{2009}' || c == '\u{200a}' || c == '\u{2028}' || c == '\u{2029}'
        || c == '\u{202f}' || c == '\u{205f}' || c == '\u{3000}'
}

/// A sequence with its leading whitespace removed.
pub open spec fn spec_trim_start(s: Seq<char>) -> Seq<char>
    decreases s.len(),
{
    if s.len() > 0 && is_space(s[0]) {
        spec_trim_start(s.skip(1))
    } else {
        s
    }
}

/// A sequence with its trailing whitespace removed.
pub open spec fn spec_trim_end(s: Seq<char>) -> Seq<char>
    decreases s.len(),
{
    if s.len() > 0 && is_space(s.last()) {
        spec_trim_end(s.drop_last())
    } else {
        s
    }
}

/// A sequence with both leading and trailing whitespace removed: what
/// `str::trim` leaves of it.
pub open spec fn spec_trim(s: Seq<char>) -> Seq<char> {
    spec_trim_end(spec_trim_start(s))
}

proof fn lemma_trim_start_skip(s: Seq<char>, i: int)
    requires
        0 <= i <= s.len(),
        forall|j: int| 0 <= j < i ==> is_space(s[j]),
    ensures
        spec_trim_start(s) == spec_trim_start(s.skip(i)),
    decreases i,
{
    if i > 0 {
        assert(is_space(s[0]));
        lemma_trim_start_skip(s.skip(1), i - 1);
        assert(s.skip(1).skip(i - 1) =~= s.skip(i));
    } else {
        assert(s.skip(0) =~= s);
    }
}

proof fn lemma_trim_end_take(s: Seq<char>, e: int)
    requires
        0 <= e <= s.len(),
        forall|j: int| e <= j < s.len() ==> is_space(s[j]),
    ensures
        spec_trim_end(s) == spec_trim_end(s.take(e)),
    decreases s.len() - e,
{
    if e < s.len() {
        assert(is_space(s.last()));
        assert(s.drop_last() =~= s.take(s.len() - 1));
        lemma_trim_end_take(s.take(s.len() - 1), e);
        assert(s.take(s.len() - 1).take(e) =~= s.take(e));
    } else {
        assert(s.take(s.len() as int) =~= s);
    }
}

/// Remove leading and trailing whitespace, as `str::trim` does.
pub fn trim<'a>(s: &'a str) -> (r: &'a str)
    ensures
        r@ == spec_trim(s@),
{
    let n: usize = s.unicode_len();
    let mut start: usize = 0;
    loop
        invariant
            0 <= start <= n,
            n == s@.len(),
            forall|j: int| 0 <= j < start ==> is_space(s@[j]),
        ensures
            0 <= start <= n,
            n == s@.len(),
            forall|j: int| 0 <= j < start ==> is_space(s@[j]),
            start < n ==> !is_space(s@[start as int]),
        decreases n - start,
    {
        if start >= n {
            break;
        }
        if !is_space_char(s.get_char(start)) {
            break;
        }
        start = start + 1;
    }
    proof {
        lemma_trim_start_skip(s@, start as int);
    }
    // Here spec_trim_start(s@) == spec_trim_start(s@.skip(start)), and either
    // start == n (all spaces) or s@[start] is not a space.
    if start >= n {
        proof {
            assert(s@.skip(start as int) =~= Seq::<char>::empty());
            assert(spec_trim_start(s@) == Seq::<char>::empty());
            assert(spec_trim(s@) == Seq::<char>::empty());
        }
        let r = s.substring_char(n, n);
        proof {
            assert(r@ =~= Seq::<char>::empty());
        }
        return r;
    }
    proof {
        assert(spec_trim_start(s@) == s@.skip(start as int));
    }
    let mut end: usize = n;
    loop
        invariant
            start < n,
            start < end <= n,
            n == s@.len(),
            !is_space(s@[start as int]),
            forall|j: int| end <= j < n ==> is_space(s@[j]),
        ensures
            start < end <= n,
            n == s@.len(),
            forall|j: int| end <= j < n ==> is_space(s@[j]),
            !is_space(s@[end - 1]),
        decreases end,
    {
        if !is_space_char(s.get_char(end - 1)) {
            break;
        }
        // The character at `start` is not a space, so the scan cannot pass it.
        end = end - 1;
    }
    // Positions end..n are spaces and s@[end-1] is not a space.
    let r = s.substring_char(start, end);
    proof {
        let t = s@.skip(start as int);
        let e = end - start;
        assert(forall|j: int| e <= j < t.len() ==> is_space(t[j]));
        lemma_trim_end_take(t, e as int);
        assert(t.take(e as int) =~= s@.subrange(start as int, end as int));
        let u = t.take(e as int);
        assert(u.len() > 0 && !is_space(u.last()));
        assert(spec_trim_end(u) == u);
        assert(r@ == spec_trim(s@));
    }
    r
}

/// A sequence with its trailing `'/'` characters removed, as
/// `str::trim_end_matches('/')` leaves it.
pub open spec fn spec_trim_slashes(s: Seq<char>) -> Seq<char>
    decreases s.len(),
{
    if s.len() > 0 && s.last() == '/' {
        spec_trim_slashes(s.drop_last())
    } else {
        s
    }
}

proof fn lemma_trim_slashes_take(s: Seq<char>, e: int)
    requires
        0 <= e <= s.len(),
        forall|j: int| e <= j < s.len() ==> s[j] == '/',
    ensures
        spec_trim_slashes(s) == spec_trim_slashes(s.take(e)),
    decreases s.len() - e,
{
    if e < s.len() {
        assert(s.drop_last() =~= s.take(s.len() - 1));
        lemma_trim_slashes_take(s.take(s.len() - 1), e);
        assert(s.take(s.len() - 1).take(e) =~= s.take(e));
    } else {
        assert(s.take(s.len() as int) =~= s);
    }
}

/// Remove every trailing `'/'`; used to keep instance URLs in their
/// canonical, no-trailing-slash form.
pub fn trim_trailing_slashes<'a>(s: &'a str) -> (r: &'a str)
    ensures
        r@ == spec_trim_slashes(s@),
{
    let n: usize = s.unicode_len();
    let mut end: usize = n;
    loop
        invariant
            0 <= end <= n,
            n == s@.len(),
            forall|j: int| end <= j < n ==> s@[j] == '/',
        ensures
            0 <= end <= n,
            n == s@.len(),
            forall|j: int| end <= j < n ==> s@[j] == '/',
            end > 0 ==> s@[end - 1] != '/',
        decreases end,
    {
        if end == 0 {
            break;
        }
        if s.get_char(end - 1) != '/' {
            break;
        }
        end = end - 1;
    }
    let r = s.substring_char(0, end);
    proof {
        lemma_trim_slashes_take(s@, end as int);
        assert(s@.take(end as int) =~= s@.subrange(0, end as int));
        let u = s@.take(end as int);
        if end > 0 {
            assert(u.len() > 0 && u.last() != '/');
            assert(spec_trim_slashes(u) == u);
        } else {
            assert(u =~= Seq::<char>::empty());
            assert(spec_trim_slashes(u) == u);
        }
    }
    r
}

/// Appends the given character to the end of the string.
/// Relies on `String::push`.
#[verifier::external_body]
pub fn push_char(s: &mut String, c: char)
    ensures
        final(s)@ == old(s)@.push(c),
{
    s.push(c);
}

/// Removes and returns the last character, or returns `None` when the
/// string is empty. Relies on `String::pop`.
#[verifier::external_body]
pub fn pop_char(s: &mut String) -> (r: Option<char>)
    ensures
        old(s)@.len() == 0 ==> final(s)@ == old(s)@ && r is None,
        old(s)@.len() > 0 ==> final(s)@ == old(s)@.drop_last() && r == Some(old(s)@.last()),
{
    s.pop()
}

/// The result of replacing every non-overlapping occurrence of `pat` in
/// `s` by `to`, scanning left to right: what `str::replace` returns for a
/// non-empty pattern.
pub open spec fn spec_replace(s: Seq<char>, pat: Seq<char>, to: Seq<char>) -> Seq<char>
    decreases s.len(),
{
    if pat.len() == 0 || s.len() < pat.len() {
        s
    } else if s.take(pat.len() as int) == pat {
        to + spec_replace(s.skip(pat.len() as int), pat, to)
    } else {
        seq![s[0]] + spec_replace(s.skip(1), pat, to)
    }
}

/// Whether `pat` occurs in `s` starting at character position `i`.
fn matches_at(s: &str, n: usize, i: usize, pat: &str, m: usize) -> (b: bool)
    requires
        n == s@.len(),
        m == pat@.len(),
        i <= n,
    ensures
        b == (i + m <= n && s@.subrange(i as int, i + m) == pat@),
{
    if m > n - i {
        return false;
    }
    let mut k: usize = 0;
    loop
        invariant
            0 <= k <= m,
            i + m <= n,
            n == s@.len(),
            m == pat@.len(),
            forall|j: int| 0 <= j < k ==> s@[i + j] == pat@[j],
        ensures
            k == m,
            forall|j: int| 0 <= j < m ==> s@[i + j] == pat@[j],
        decreases m - k,
    {
        if k >= m {
            break;
        }
        if s.get_char(i + k) != pat.get_char(k) {
            proof {
                assert(s@.subrange(i as int, i + m)[k as int] != pat@[k as int]);
            }
            return false;
        }
        k = k + 1;
    }
    proof {
        assert(s@.subrange(i as int, i + m) =~= pat@);
    }
    true
}

/// Replace every occurrence of `pat` in `s` by `to`, as `str::replace`
/// does for a non-empty pattern.
pub fn replace(s: &str, pat: &str, to: &str) -> (r: String)
    requires
        pat@.len() > 0,
    ensures
        r@ == spec_replace(s@, pat@, to@),
{
    let n: usize = s.unicode_len();
    let m: usize = pat.unicode_len();
    let mut out = String::new();
    let mut i: usize = 0;
    proof {
        assert(s@.skip(0) =~= s@);
        assert(Seq::<char>::empty() + spec_replace(s@, pat@, to@) =~= spec_replace(
            s@,
            pat@,
            to@,
        ));
    }
    loop
        invariant
            0 <= i <= n,
            n == s@.len(),
            m == pat@.len(),
            m > 0,
            out@ + spec_replace(s@.skip(i as int), pat@, to@) == spec_replace(s@, pat@, to@),
        ensures
            i == n,
            n == s@.len(),
            out@ + spec_replace(s@.skip(i as int), pat@, to@) == spec_replace(s@, pat@, to@),
        decreases n - i,
    {
        if i >= n {
            break;
        }
        let ghost rest = s@.skip(i as int);
        let ghost out0 = out@;
        if matches_at(s, n, i, pat, m) {
            out.append(to);
            proof {
                assert(rest.take(m as int) =~= s@.subrange(i as int, i + m));
                assert(rest.skip(m as int) =~= s@.skip(i + m));
                assert(spec_replace(rest, pat@, to@) == to@ + spec_replace(
                    s@.skip(i + m),
                    pat@,
                    to@,
                ));
                assert((out0 + to@) + spec_replace(s@.skip(i + m), pat@, to@) =~= out0 + (to@
                    + spec_replace(s@.skip(i + m), pat@, to@)));
            }
            i = i + m;
        } else {
            let c = s.get_char(i);
            push_char(&mut out, c);
            proof {
                if rest.len() >= m {
                    assert(rest.take(m as int) =~= s@.subrange(i as int, i + m));
                }
                assert(rest.skip(1) =~= s@.skip(i + 1));
                assert(spec_replace(rest, pat@, to@) == seq![s@[i as int]] + spec_replace(
                    s@.skip(i + 1),
                    pat@,
                    to@,
                ));
                assert(out0.push(s@[i as int]) + spec_replace(s@.skip(i + 1), pat@, to@)
                    =~= out0 + (seq![s@[i as int]] + spec_replace(s@.skip(i + 1), pat@, to@)));
            }
            i = i + 1;
        }
    }
    proof {
        assert(s@.skip(n as int) =~= Seq::<char>::empty());
        assert(out@ + Seq::<char>::empty() =~= out@);
    }
    out
}

/// The decimal digit character for a value below ten.
pub open spec fn spec_digit(d: nat) -> char {
    if d == 0 {
        '0'
    } else if d == 1 {
        '1'
    } else if d == 2 {
        '2'
    } else if d == 3 {
        '3'
    } else if d == 4 {
        '4'
    } else if d == 5 {
        '5'
    } else if d == 6 {
        '6'
    } else if d == 7 {
        '7'
    } else if d == 8 {
        '8'
    } else {
        '9'
    }
}

/// The decimal rendering of a natural number, without sign or padding.
pub open spec fn spec_dec(n: nat) -> Seq<char>
    decreases n,
{
    if n < 10 {
        seq![spec_digit(n)]
    } else {
        spec_dec(n / 10).push(spec_digit(n % 10))
    }
}

fn digit_char(d: u16) -> (c: char)
    requires
        d < 10,
    ensures
        c == spec_digit(d as nat),
{
    if d == 0 {
        '0'
    } else if d == 1 {
        '1'
    } else if d == 2 {
        '2'
    } else if d == 3 {
        '3'
    } else if d == 4 {
        '4'
    } else if d == 5 {
        '5'
    } else if d == 6 {
        '6'
    } else if d == 7 {
        '7'
    } else if d == 8 {
        '8'
    } else {
        '9'
    }
}

fn push_dec(out: &mut String, m: u16)
    ensures
        final(out)@ == old(out)@ + spec_dec(m as nat),
    decreases m,
{
    if m >= 10 {
        push_dec(out, m / 10);
        push_char(out, digit_char(m % 10));
        proof {
            assert(spec_dec(m as nat) == spec_dec((m as nat) / 10).push(
                spec_digit((m as nat) % 10),
            ));
            assert(old(out)@ + spec_dec(m as nat) =~= (old(out)@ + spec_dec(
                (m as nat) / 10,
            )).push(spec_digit((m as nat) % 10)));
        }
    } else {
        push_char(out, digit_char(m));
        proof {
            assert(old(out)@ + spec_dec(m as nat) =~= old(out)@.push(spec_digit(m as nat)));
        }
    }
}

/// Render a 16-bit number in decimal.
pub fn u16_to_string(n: u16) -> (r: String)
    ensures
        r@ == spec_dec(n as nat),
{
    let mut out = String::new();
    push_dec(&mut out, n);
    proof {
        assert(Seq::<char>::empty() + spec_dec(n as nat) =~= spec_dec(n as nat));
    }
    out
}

/// Whether two strings hold the same characters.
pub fn str_eq(a: &str, b: &str) -> (r: bool)
    ensures
        r == (a@ == b@),
{
    let n: usize = a.unicode_len();
    let m: usize = b.unicode_len();
    if n != m {
        return false;
    }
    let mut i: usize = 0;
    while i < n
        invariant
            0 <= i <= n,
            n == a@.len(),
            n == b@.len(),
            forall|j: int| 0 <= j < i ==> a@[j] == b@[j],
        decreases n - i,
    {
        if a.get_char(i) != b.get_char(i) {
            return false;
        }
        i = i + 1;
    }
    proof {
        assert(a@ =~= b@);
    }
    true
}

} // verus!
