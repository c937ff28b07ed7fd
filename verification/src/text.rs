//! Verified text helpers: string equality, decimal and hexadecimal
//! rendering, and pattern replacement.  These back the placeholder
//! transcription, the log identifiers and date keys, and the prompt
//! templates.

use vstd::prelude::*;

verus! {

/// Whether two string slices hold the same characters.
pub fn str_eq(a: &str, b: &str) -> (r: bool)
    ensures
        r == (a@ == b@),
{
    let an: usize = a.unicode_len();
    let bn: usize = b.unicode_len();
    if an != bn {
        assert(a@ != b@) by {
            assert(a@.len() != b@.len());
        }
        return false;
    }
    let mut i: usize = 0;
    while i < an
        invariant
            i <= an,
            an == a@.len(),
            an == b@.len(),
            forall|k: int| 0 <= k < i ==> a@[k] == b@[k],
        decreases an - i,
    {
        if a.get_char(i) != b.get_char(i) {
            assert(a@ != b@) by {
                assert(a@[i as int] != b@[i as int]);
            }
            return false;
        }
        i = i + 1;
    }
    assert(a@ =~= b@);
    true
}

/// The character for one decimal or hexadecimal digit.
pub open spec fn digit_char(d: int) -> char {
    if d == 0 { '0' }
    else if d == 1 { '1' }
    else if d == 2 { '2' }
    else if d == 3 { '3' }
    else if d == 4 { '4' }
    else if d == 5 { '5' }
    else if d == 6 { '6' }
    else if d == 7 { '7' }
    else if d == 8 { '8' }
    else if d == 9 { '9' }
    else if d == 10 { 'a' }
    else if d == 11 { 'b' }
    else if d == 12 { 'c' }
    else if d == 13 { 'd' }
    else if d == 14 { 'e' }
    else if d == 15 { 'f' }
    else { '0' }
}

/// Decimal rendering of a natural number, most significant digit first.
pub open spec fn dec_rep(n: nat) -> Seq<char>
    decreases n,
{
    if n < 10 {
        seq![digit_char(n as int)]
    } else {
        dec_rep(n / 10).push(digit_char((n % 10) as int))
    }
}

/// Hexadecimal rendering of a natural number, most significant digit first.
pub open spec fn hex_rep(n: nat) -> Seq<char>
    decreases n,
{
    if n < 16 {
        seq![digit_char(n as int)]
    } else {
        hex_rep(n / 16).push(digit_char((n % 16) as int))
    }
}

fn digit_str(d: u64) -> (r: &'static str)
    requires
        d < 16,
    ensures
        r@ =~= seq![digit_char(d as int)],
{
    if d == 0 { proof { reveal_strlit("0"); } "0" }
    else if d == 1 { proof { reveal_strlit("1"); } "1" }
    else if d == 2 { proof { reveal_strlit("2"); } "2" }
    else if d == 3 { proof { reveal_strlit("3"); } "3" }
    else if d == 4 { proof { reveal_strlit("4"); } "4" }
    else if d == 5 { proof { reveal_strlit("5"); } "5" }
    else if d == 6 { proof { reveal_strlit("6"); } "6" }
    else if d == 7 { proof { reveal_strlit("7"); } "7" }
    else if d == 8 { proof { reveal_strlit("8"); } "8" }
    else if d == 9 { proof { reveal_strlit("9"); } "9" }
    else if d == 10 { proof { reveal_strlit("a"); } "a" }
    else if d == 11 { proof { reveal_strlit("b"); } "b" }
    else if d == 12 { proof { reveal_strlit("c"); } "c" }
    else if d == 13 { proof { reveal_strlit("d"); } "d" }
    else if d == 14 { proof { reveal_strlit("e"); } "e" }
    else { proof { reveal_strlit("f"); } "f" }
}

/// Decimal rendering of a machine integer.
pub fn fmt_u64(n: u64) -> (r: String)
    ensures
        r@ == dec_rep(n as nat),
    decreases n,
{
    if n < 10 {
        digit_str(n).to_owned()
    } else {
        let mut s = fmt_u64(n / 10);
        s.append(digit_str(n % 10));
        proof {
            assert(s@ =~= dec_rep(n as nat));
        }
        s
    }
}

/// Hexadecimal rendering of a machine integer.
pub fn fmt_u64_hex(n: u64) -> (r: String)
    ensures
        r@ == hex_rep(n as nat),
    decreases n,
{
    if n < 16 {
        digit_str(n).to_owned()
    } else {
        let mut s = fmt_u64_hex(n / 16);
        s.append(digit_str(n % 16));
        proof {
            assert(s@ =~= hex_rep(n as nat));
        }
        s
    }
}

/// A hexadecimal rendering is never empty.
pub proof fn lemma_hex_rep_nonempty(n: nat)
    ensures
        hex_rep(n).len() >= 1,
    decreases n,
{
    if n >= 16 {
        lemma_hex_rep_nonempty(n / 16);
    }
}

/// Decimal rendering of `n` left-padded with zeros to at least `width`
/// characters.
pub open spec fn padded_dec_rep(n: nat, width: nat) -> Seq<char> {
    if dec_rep(n).len() >= width {
        dec_rep(n)
    } else {
        seq_repeat('0', (width - dec_rep(n).len()) as nat) + dec_rep(n)
    }
}

/// A sequence of `count` copies of one character.
pub open spec fn seq_repeat(c: char, count: nat) -> Seq<char> {
    Seq::new(count, |i: int| c)
}

/// Decimal rendering of `n`, left-padded with zeros to at least `width`
/// characters.
pub fn fmt_u64_padded(n: u64, width: usize) -> (r: String)
    ensures
        r@ == padded_dec_rep(n as nat, width as nat),
{
    let digits = fmt_u64(n);
    let dn: usize = digits.as_str().unicode_len();
    if dn >= width {
        proof {
            assert(padded_dec_rep(n as nat, width as nat) == dec_rep(n as nat));
        }
        return digits;
    }
    let mut out = String::new();
    let mut k: usize = 0;
    while k < width - dn
        invariant
            dn == dec_rep(n as nat).len(),
            dn < width,
            k <= width - dn,
            out@ =~= seq_repeat('0', k as nat),
        decreases width - dn - k,
    {
        proof { reveal_strlit("0"); }
        out.append("0");
        proof {
            assert(out@ =~= seq_repeat('0', (k + 1) as nat));
        }
        k = k + 1;
    }
    out.append(digits.as_str());
    proof {
        assert(out@ =~= padded_dec_rep(n as nat, width as nat));
    }
    out
}

/// `s` with every non-overlapping occurrence of `pat` replaced by
/// `rep`, scanning left to right.  A pattern longer than the rest of
/// the text cannot occur there; an empty pattern replaces nothing.
pub open spec fn spec_replace(s: Seq<char>, pat: Seq<char>, rep: Seq<char>) -> Seq<char>
    decreases s.len(),
{
    if pat.len() == 0 || s.len() < pat.len() {
        s
    } else if s.take(pat.len() as int) == pat {
        rep + spec_replace(s.skip(pat.len() as int), pat, rep)
    } else {
        seq![s[0]] + spec_replace(s.skip(1), pat, rep)
    }
}

/// Whether `pat` occurs in `s` starting at character `at`.
fn match_at(s: &str, pat: &str, at: usize) -> (r: bool)
    requires
        at + pat@.len() <= s@.len(),
    ensures
        r == (s@.subrange(at as int, at + pat@.len()) == pat@),
{
    let _sn: usize = s.unicode_len();
    let m: usize = pat.unicode_len();
    let mut j: usize = 0;
    while j < m
        invariant
            j <= m,
            m == pat@.len(),
            at + m <= s@.len(),
            s@.len() <= usize::MAX,
            forall|k: int| 0 <= k < j ==> s@[at + k] == pat@[k],
        decreases m - j,
    {
        if s.get_char(at + j) != pat.get_char(j) {
            assert(s@.subrange(at as int, at + pat@.len()) != pat@) by {
                assert(s@.subrange(at as int, at + pat@.len())[j as int] != pat@[j as int]);
            }
            return false;
        }
        j = j + 1;
    }
    assert(s@.subrange(at as int, at + pat@.len()) =~= pat@);
    true
}

/// Replace every non-overlapping occurrence of `pat` in `s` by `rep`,
/// left to right.
pub fn replace_all(s: &str, pat: &str, rep: &str) -> (r: String)
    requires
        pat@.len() > 0,
    ensures
        r@ == spec_replace(s@, pat@, rep@),
{
    let n: usize = s.unicode_len();
    let m: usize = pat.unicode_len();
    let mut out = String::new();
    let mut i: usize = 0;
    proof {
        assert(s@.skip(0) =~= s@);
        assert(Seq::<char>::empty() + spec_replace(s@, pat@, rep@) =~= spec_replace(
            s@,
            pat@,
            rep@,
        ));
    }
    while i < n
        invariant
            i <= n,
            n == s@.len(),
            m == pat@.len(),
            m > 0,
            out@ + spec_replace(s@.skip(i as int), pat@, rep@) == spec_replace(s@, pat@, rep@),
        decreases n - i,
    {
        if n - i >= m && match_at(s, pat, i) {
            let ghost out0 = out@;
            out.append(rep);
            proof {
                let tail = s@.skip(i as int);
                assert(tail.take(m as int) =~= s@.subrange(i as int, i + m as int));
                assert(tail.skip(m as int) =~= s@.skip(i + m as int));
                assert(spec_replace(tail, pat@, rep@) == rep@ + spec_replace(
                    s@.skip(i + m as int),
                    pat@,
                    rep@,
                ));
                assert((out0 + rep@) + spec_replace(s@.skip(i + m as int), pat@, rep@) =~= out0
                    + spec_replace(tail, pat@, rep@));
            }
            i = i + m;
        } else {
            let ghost out0 = out@;
            out.append(s.substring_char(i, i + 1));
            proof {
                let tail = s@.skip(i as int);
                assert(s@.subrange(i as int, i + 1) =~= seq![s@[i as int]]);
                if tail.len() >= m {
                    assert(tail.take(m as int) =~= s@.subrange(i as int, i + m as int));
                }
                assert(spec_replace(tail, pat@, rep@) == seq![tail[0]] + spec_replace(
                    tail.skip(1),
                    pat@,
                    rep@,
                ));
                assert(tail[0] == s@[i as int]);
                assert(tail.skip(1) =~= s@.skip(i + 1));
                assert((out0 + seq![s@[i as int]]) + spec_replace(s@.skip(i + 1), pat@, rep@)
                    =~= out0 + spec_replace(tail, pat@, rep@));
            }
            i = i + 1;
        }
    }
    proof {
        assert(s@.skip(n as int) =~= Seq::<char>::empty());
        assert(spec_replace(Seq::<char>::empty(), pat@, rep@) =~= Seq::<char>::empty());
        assert(out@ =~= spec_replace(s@, pat@, rep@));
    }
    out
}

/// `s` without its trailing `/` characters.
pub open spec fn spec_strip_trailing_slashes(s: Seq<char>) -> Seq<char>
    decreases s.len(),
{
    if s.len() > 0 && s[s.len() - 1] == '/' {
        spec_strip_trailing_slashes(s.take(s.len() - 1))
    } else {
        s
    }
}

/// Drop every trailing `/` from a string.
pub fn strip_trailing_slashes(s: &str) -> (r: String)
    ensures
        r@ == spec_strip_trailing_slashes(s@),
{
    let n: usize = s.unicode_len();
    let mut k: usize = n;
    proof {
        assert(s@.take(n as int) =~= s@);
    }
    while k > 0 && s.get_char(k - 1) == '/'
        invariant
            k <= n,
            n == s@.len(),
            spec_strip_trailing_slashes(s@) == spec_strip_trailing_slashes(s@.take(k as int)),
        decreases k,
    {
        proof {
            let t = s@.take(k as int);
            assert(t.len() == k && t[k - 1] == '/');
            assert(t.take(k - 1) =~= s@.take(k - 1));
            assert(spec_strip_trailing_slashes(t) == spec_strip_trailing_slashes(s@.take(k - 1)));
        }
        k = k - 1;
    }
    proof {
        let t = s@.take(k as int);
        if k > 0 {
            assert(t[t.len() - 1] == s@[k - 1]);
        }
        assert(spec_strip_trailing_slashes(t) == t);
    }
    let r = s.substring_char(0, k).to_owned();
    proof {
        assert(r@ =~= s@.take(k as int));
    }
    r
}

} // verus!
