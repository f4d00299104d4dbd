//! Character and string helpers shared by the whole crate: ASCII case
//! folding, lexicographic comparison, substring search and decimal rendering.

use vstd::prelude::*;

verus! {

/// ASCII-lowers a single character, leaving all others untouched.
pub open spec fn fold_char(c: char) -> char {
    if 'A' <= c && c <= 'Z' {
        ((c as u8) + 0x20) as char
    } else {
        c
    }
}

/// A string sequence with every ASCII upper-case letter lowered.
pub open spec fn fold_seq(s: Seq<char>) -> Seq<char> {
    s.map(|i: int, c: char| fold_char(c))
}

/// Two strings are the same name when they agree up to ASCII case.
pub open spec fn eq_ignore_case_spec(a: Seq<char>, b: Seq<char>) -> bool {
    fold_seq(a) == fold_seq(b)
}

fn fold_char_exec(c: char) -> (r: char)
    ensures
        r == fold_char(c),
{
    if 'A' <= c && c <= 'Z' {
        let b = (c as u8) + 0x20;
        b as char
    } else {
        c
    }
}

/// Case-insensitive equality on whole strings, the resolver's notion of
/// name identity.
pub fn eq_ignore_ascii_case(a: &str, b: &str) -> (r: bool)
    ensures
        r == eq_ignore_case_spec(a@, b@),
{
    let a_len = a.unicode_len();
    let b_len = b.unicode_len();
    if a_len != b_len {
        assert(fold_seq(a@).len() != fold_seq(b@).len());
        return false;
    }
    let mut i: usize = 0;
    while i < a_len
        invariant
            i <= a_len,
            a_len == a@.len(),
            b_len == b@.len(),
            a_len == b_len,
            forall|j: int| 0 <= j < i ==> fold_char(a@[j]) == fold_char(b@[j]),
        decreases a_len - i,
    {
        let ca = a.get_char(i);
        let cb = b.get_char(i);
        if fold_char_exec(ca) != fold_char_exec(cb) {
            assert(fold_seq(a@)[i as int] != fold_seq(b@)[i as int]);
            return false;
        }
        i = i + 1;
    }
    assert(fold_seq(a@) =~= fold_seq(b@));
    true
}

/// Exact string equality on slices.
pub fn str_eq(a: &str, b: &str) -> (r: bool)
    ensures
        r == (a@ == b@),
{
    let a_len = a.unicode_len();
    let b_len = b.unicode_len();
    if a_len != b_len {
        return false;
    }
    let mut i: usize = 0;
    while i < a_len
        invariant
            i <= a_len,
            a_len == a@.len(),
            b_len == b@.len(),
            a_len == b_len,
            forall|j: int| 0 <= j < i ==> a@[j] == b@[j],
        decreases a_len - i,
    {
        if a.get_char(i) != b.get_char(i) {
            return false;
        }
        i = i + 1;
    }
    assert(a@ =~= b@);
    true
}

/// Code-point lexicographic order on strings; for the strings at hand this
/// is the order the platform's string comparison yields.
pub open spec fn lex_leq(a: Seq<char>, b: Seq<char>) -> bool
    decreases a.len(),
{
    if a.len() == 0 {
        true
    } else if b.len() == 0 {
        false
    } else if a[0] == b[0] {
        lex_leq(a.skip(1), b.skip(1))
    } else {
        (a[0] as u32) < (b[0] as u32)
    }
}

/// Any two strings are ordered one way or the other.
pub proof fn lemma_lex_leq_total(a: Seq<char>, b: Seq<char>)
    ensures
        lex_leq(a, b) || lex_leq(b, a),
    decreases a.len(),
{
    if a.len() == 0 || b.len() == 0 {
    } else if a[0] == b[0] {
        lemma_lex_leq_total(a.skip(1), b.skip(1));
    } else {
        vstd::utf8::char_u32_cast(a[0], a[0] as u32);
        vstd::utf8::char_u32_cast(b[0], b[0] as u32);
        assert((a[0] as u32) != (b[0] as u32));
    }
}

/// Decides `lex_leq` on two string slices.
pub fn str_leq(a: &str, b: &str) -> (r: bool)
    ensures
        r == lex_leq(a@, b@),
{
    let a_len = a.unicode_len();
    let b_len = b.unicode_len();
    let mut i: usize = 0;
    assert(a@.skip(0) =~= a@);
    assert(b@.skip(0) =~= b@);
    loop
        invariant
            i <= a_len,
            i <= b_len,
            a_len == a@.len(),
            b_len == b@.len(),
            lex_leq(a@, b@) == lex_leq(a@.skip(i as int), b@.skip(i as int)),
        decreases a_len - i,
    {
        if i >= a_len {
            assert(a@.skip(i as int).len() == 0);
            return true;
        }
        if i >= b_len {
            assert(b@.skip(i as int).len() == 0);
            assert(a@.skip(i as int).len() > 0);
            return false;
        }
        let ca = a.get_char(i);
        let cb = b.get_char(i);
        assert(a@.skip(i as int)[0] == ca);
        assert(b@.skip(i as int)[0] == cb);
        if ca == cb {
            assert(a@.skip(i as int).skip(1) =~= a@.skip(i + 1));
            assert(b@.skip(i as int).skip(1) =~= b@.skip(i + 1));
            i = i + 1;
        } else {
            return (ca as u32) < (cb as u32);
        }
    }
}

/// Whether `pat` occurs as a contiguous part of `s`.
pub open spec fn contains_spec(s: Seq<char>, pat: Seq<char>) -> bool {
    exists|i: int|
        0 <= i && i + pat.len() <= s.len() && #[trigger] s.subrange(i, i + pat.len() as int)
            == pat
}

fn match_at(s: &str, pat: &str, at: usize) -> (r: bool)
    requires
        at + pat@.len() <= s@.len(),
        s@.len() <= usize::MAX,
    ensures
        r == (s@.subrange(at as int, at + pat@.len() as int) == pat@),
{
    let pat_len = pat.unicode_len();
    let mut j: usize = 0;
    while j < pat_len
        invariant
            j <= pat_len,
            pat_len == pat@.len(),
            at + pat_len <= s@.len(),
            s@.len() <= usize::MAX,
            forall|k: int| 0 <= k < j ==> s@[at + k] == pat@[k],
        decreases pat_len - j,
    {
        if s.get_char(at + j) != pat.get_char(j) {
            assert(s@.subrange(at as int, at + pat@.len() as int)[j as int] != pat@[j as int]);
            return false;
        }
        j = j + 1;
    }
    assert(s@.subrange(at as int, at + pat@.len() as int) =~= pat@);
    true
}

/// Naive substring search, the crate's stand-in for the platform's
/// `contains`.
pub fn str_contains(s: &str, pat: &str) -> (r: bool)
    ensures
        r == contains_spec(s@, pat@),
{
    let s_len = s.unicode_len();
    let pat_len = pat.unicode_len();
    if pat_len > s_len {
        return false;
    }
    if pat_len == 0 {
        assert(s@.subrange(0, 0 + pat@.len() as int) =~= pat@);
        return true;
    }
    let mut i: usize = 0;
    while i <= s_len - pat_len
        invariant
            pat_len == pat@.len(),
            s_len == s@.len(),
            0 < pat_len <= s_len,
            i + pat_len <= s_len + 1,
            forall|k: int|
                0 <= k < i ==> #[trigger] s@.subrange(k, k + pat@.len() as int) != pat@,
        decreases s_len - i,
    {
        if match_at(s, pat, i) {
            assert(s@.subrange(i as int, i + pat@.len() as int) == pat@);
            return true;
        }
        i = i + 1;
    }
    false
}

/// The ASCII whitespace characters the trimming helper removes.
pub open spec fn is_space(c: char) -> bool {
    c == ' ' || c == '\t' || c == '\r' || c == '\n'
}

/// `s` without leading and trailing ASCII whitespace.
pub open spec fn trim_spec(s: Seq<char>) -> Seq<char>
    decreases s.len(),
{
    if s.len() == 0 {
        s
    } else if is_space(s[0]) {
        trim_spec(s.skip(1))
    } else if is_space(s.last()) {
        trim_spec(s.take(s.len() - 1))
    } else {
        s
    }
}

fn is_space_exec(c: char) -> (r: bool)
    ensures
        r == is_space(c),
{
    c == ' ' || c == '\t' || c == '\r' || c == '\n'
}

/// Removes leading and trailing ASCII whitespace.
#[verifier::rlimit(50)]
pub fn str_trim(s: &str) -> (r: String)
    ensures
        r@ == trim_spec(s@),
{
    let len = s.unicode_len();
    let mut lo: usize = 0;
    assert(s@.skip(0) =~= s@);
    while lo < len && is_space_exec(s.get_char(lo))
        invariant
            lo <= len,
            len == s@.len(),
            forall|k: int| 0 <= k < lo ==> is_space(s@[k]),
            trim_spec(s@) == trim_spec(s@.skip(lo as int)),
        decreases len - lo,
    {
        assert(s@.skip(lo as int)[0] == s@[lo as int]);
        assert(s@.skip(lo as int).skip(1) =~= s@.skip(lo + 1));
        lo = lo + 1;
    }
    let mut hi: usize = len;
    assert(s@.skip(lo as int).take(len - lo) =~= s@.skip(lo as int));
    while hi > lo && is_space_exec(s.get_char(hi - 1))
        invariant
            lo <= hi <= len,
            len == s@.len(),
            lo < len ==> !is_space(s@[lo as int]),
            lo == len ==> hi == lo,
            trim_spec(s@) == trim_spec(s@.skip(lo as int).take(hi - lo)),
        decreases hi,
    {
        proof {
            let t = s@.skip(lo as int).take(hi - lo);
            assert(t.last() == s@[hi - 1]);
            assert(t.len() > 0);
            if t.len() > 1 {
                assert(t[0] == s@[lo as int]);
                assert(!is_space(t[0]));
            } else {
                assert(t[0] == s@[hi - 1]);
            }
            assert(t.take(t.len() - 1) =~= s@.skip(lo as int).take(hi - 1 - lo));
        }
        hi = hi - 1;
    }
    let sub = s.substring_char(lo, hi);
    let r = sub.to_owned();
    proof {
        let t = s@.skip(lo as int).take(hi - lo);
        assert(sub@ =~= t);
        if t.len() > 0 {
            assert(t[0] == s@[lo as int]);
            assert(t.last() == s@[hi - 1]);
        }
        assert(trim_spec(t) == t);
    }
    r
}

/// One decimal digit as a character.
pub open spec fn dec_digit(d: int) -> char {
    (0x30 + d) as char
}

/// The decimal rendering of a non-negative number.
pub open spec fn dec_of(n: int) -> Seq<char>
    decreases n,
{
    if n < 10 {
        seq![dec_digit(n)]
    } else {
        dec_of(n / 10).push(dec_digit(n % 10))
    }
}

fn digit_str(d: u16) -> (r: &'static str)
    requires
        d < 10,
    ensures
        r@ == seq![dec_digit(d as int)],
{
    proof {
        reveal_strlit("0");
        reveal_strlit("1");
        reveal_strlit("2");
        reveal_strlit("3");
        reveal_strlit("4");
        reveal_strlit("5");
        reveal_strlit("6");
        reveal_strlit("7");
        reveal_strlit("8");
        reveal_strlit("9");
    }
    match d {
        0 => "0",
        1 => "1",
        2 => "2",
        3 => "3",
        4 => "4",
        5 => "5",
        6 => "6",
        7 => "7",
        8 => "8",
        _ => {
            assert(d == 9);
            "9"
        },
    }
}

/// Renders a 16-bit number in decimal, as revisions are shown.
pub fn u16_to_dec(n: u16) -> (r: String)
    ensures
        r@ == dec_of(n as int),
    decreases n,
{
    if n < 10 {
        let mut s = String::new();
        s.append(digit_str(n));
        assert(s@ =~= dec_of(n as int));
        s
    } else {
        let mut s = u16_to_dec(n / 10);
        s.append(digit_str(n % 10));
        assert(s@ =~= dec_of(n as int));
        s
    }
}

/// Renders a machine-word number in decimal, for line numbers.
pub fn usize_to_dec(n: usize) -> (r: String)
    ensures
        r@ == dec_of(n as int),
    decreases n,
{
    if n < 10 {
        let d: u16 = n as u16;
        let mut s = String::new();
        s.append(digit_str(d));
        assert(s@ =~= dec_of(n as int));
        s
    } else {
        let mut s = usize_to_dec(n / 10);
        let d: u16 = (n % 10) as u16;
        s.append(digit_str(d));
        assert(s@ =~= dec_of(n as int));
        s
    }
}


/// Renders a 64-bit number in decimal.
pub fn u64_to_dec(n: u64) -> (r: String)
    ensures
        r@ == dec_of(n as int),
    decreases n,
{
    if n < 10 {
        let mut s = String::new();
        s.append(digit_str((n % 10) as u16));
        assert(s@ =~= dec_of(n as int));
        s
    } else {
        let mut s = u64_to_dec(n / 10);
        s.append(digit_str((n % 10) as u16));
        assert(s@ =~= dec_of(n as int));
        s
    }
}



} // verus!
