//! Small verified text utilities: substring search, trimming, string
//! equality, and decimal formatting. These back the inline-style editing and
//! the pixel-value rendering of the placement code.

use vstd::prelude::*;

verus! {

/// Index of the first occurrence of `pat` in `s` at or after `from`,
/// or -1 if there is none.
pub open spec fn spec_find(s: Seq<char>, pat: Seq<char>, from: int) -> int
    decreases s.len() - from,
{
    if from < 0 || from + pat.len() > s.len() {
        -1
    } else if pat.len() == 0 {
        from
    } else if s.subrange(from, from + pat.len() as int) == pat {
        from
    } else {
        spec_find(s, pat, from + 1)
    }
}

/// Whether `pat` occurs anywhere in `s`.
pub open spec fn spec_contains(s: Seq<char>, pat: Seq<char>) -> bool {
    spec_find(s, pat, 0) >= 0
}

/// A found index is a real match.
pub proof fn lemma_find_is_match(s: Seq<char>, pat: Seq<char>, from: int)
    requires
        spec_find(s, pat, from) >= 0,
    ensures
        from <= spec_find(s, pat, from),
        spec_find(s, pat, from) + pat.len() <= s.len(),
        s.subrange(spec_find(s, pat, from), spec_find(s, pat, from) + pat.len()) == pat,
    decreases s.len() - from,
{
    if !(from < 0 || from + pat.len() > s.len()) {
        if pat.len() == 0 {
            assert(s.subrange(from, from) =~= pat);
        } else if s.subrange(from, from + pat.len() as int) != pat {
            lemma_find_is_match(s, pat, from + 1);
        }
    }
}

/// Whether `pat` matches `s` at position `i`.
fn match_at(s: &str, pat: &str, i: usize, s_len: usize, pat_len: usize) -> (r: bool)
    requires
        s_len == s@.len(),
        pat_len == pat@.len(),
        i + pat_len <= s_len,
    ensures
        r == (s@.subrange(i as int, i + pat@.len()) == pat@),
{
    let mut j: usize = 0;
    while j < pat_len
        invariant
            s_len == s@.len(),
            pat_len == pat@.len(),
            i + pat_len <= s_len,
            0 <= j <= pat_len,
            forall|k: int| 0 <= k < j ==> s@[i + k] == pat@[k],
        decreases pat_len - j,
    {
        if s.get_char(i + j) != pat.get_char(j) {
            assert(s@.subrange(i as int, i + pat@.len())[j as int] == s@[i + j]);
            return false;
        }
        j += 1;
    }
    proof {
        assert(s@.subrange(i as int, i + pat@.len()) =~= pat@);
    }
    true
}

/// First occurrence of `pat` in `s` at or after `from`, if any.
pub fn find_from(s: &str, pat: &str, from: usize) -> (r: Option<usize>)
    ensures
        match r {
            Some(i) => spec_find(s@, pat@, from as int) == i as int && from <= i,
            None => spec_find(s@, pat@, from as int) == -1,
        },
{
    let s_len = s.unicode_len();
    let pat_len = pat.unicode_len();
    if from > s_len || pat_len > s_len - from {
        return None;
    }
    if pat_len == 0 {
        proof {
            assert(s@.subrange(from as int, from as int) =~= pat@);
        }
        return Some(from);
    }
    let limit = s_len - pat_len;
    let mut i: usize = from;
    while i <= limit
        invariant
            s_len == s@.len(),
            pat_len == pat@.len(),
            1 <= pat_len <= s_len,
            limit == s_len - pat_len,
            from <= i <= limit + 1,
            spec_find(s@, pat@, from as int) == spec_find(s@, pat@, i as int),
        decreases limit + 1 - i,
    {
        if match_at(s, pat, i, s_len, pat_len) {
            return Some(i);
        }
        proof {
            assert(s@.subrange(i as int, i + pat@.len() as int) != pat@);
            assert(spec_find(s@, pat@, i as int) == spec_find(s@, pat@, i + 1));
        }
        i += 1;
    }
    None
}

/// First occurrence of `pat` in `s`, if any.
pub fn find(s: &str, pat: &str) -> (r: Option<usize>)
    ensures
        match r {
            Some(i) => spec_find(s@, pat@, 0) == i as int,
            None => spec_find(s@, pat@, 0) == -1,
        },
{
    find_from(s, pat, 0)
}

/// Whether `pat` occurs in `s`; the executable side of `spec_contains`.
pub fn contains(s: &str, pat: &str) -> (r: bool)
    ensures
        r == spec_contains(s@, pat@),
{
    let r = find(s, pat);
    r.is_some()
}

/// Character-for-character string equality.
pub fn str_eq(a: &str, b: &str) -> (r: bool)
    ensures
        r == (a@ == b@),
{
    let a_len = a.unicode_len();
    let b_len = b.unicode_len();
    if a_len != b_len {
        return false;
    }
    let mut i: usize = 0;
    while i < a_len
        invariant
            a_len == a@.len(),
            b_len == b@.len(),
            a_len == b_len,
            0 <= i <= a_len,
            forall|k: int| 0 <= k < i ==> a@[k] == b@[k],
        decreases a_len - i,
    {
        if a.get_char(i) != b.get_char(i) {
            return false;
        }
        i += 1;
    }
    proof {
        assert(a@ =~= b@);
    }
    true
}

/// The whitespace characters stripped by `trim`.
pub open spec fn is_space_char(c: char) -> bool {
    c == ' ' || c == '\t' || c == '\n' || c == '\r'
}

/// `s` without leading whitespace.
pub open spec fn spec_trim_start(s: Seq<char>) -> Seq<char>
    decreases s.len(),
{
    if s.len() > 0 && is_space_char(s[0]) {
        spec_trim_start(s.drop_first())
    } else {
        s
    }
}

/// `s` without trailing whitespace.
pub open spec fn spec_trim_end(s: Seq<char>) -> Seq<char>
    decreases s.len(),
{
    if s.len() > 0 && is_space_char(s[s.len() - 1]) {
        spec_trim_end(s.drop_last())
    } else {
        s
    }
}

/// `s` without leading or trailing whitespace.
pub open spec fn spec_trim(s: Seq<char>) -> Seq<char> {
    spec_trim_end(spec_trim_start(s))
}

proof fn lemma_trim_start_subrange(s: Seq<char>, a: int)
    requires
        0 <= a <= s.len(),
        forall|i: int| 0 <= i < a ==> is_space_char(s[i]),
        a == s.len() || !is_space_char(s[a]),
    ensures
        spec_trim_start(s) == s.subrange(a, s.len() as int),
    decreases a,
{
    if a == 0 {
        assert(s.subrange(0, s.len() as int) =~= s);
    } else {
        let s1 = s.drop_first();
        assert(s1 =~= s.subrange(1, s.len() as int));
        lemma_trim_start_subrange(s1, a - 1);
        assert(s1.subrange(a - 1, s1.len() as int) =~= s.subrange(a, s.len() as int));
    }
}

proof fn lemma_trim_end_subrange(s: Seq<char>, b: int)
    requires
        0 <= b <= s.len(),
        forall|i: int| b <= i < s.len() ==> is_space_char(s[i]),
        b == 0 || !is_space_char(s[b - 1]),
    ensures
        spec_trim_end(s) == s.subrange(0, b),
    decreases s.len() - b,
{
    if b == s.len() {
        assert(s.subrange(0, b) =~= s);
    } else {
        let s1 = s.drop_last();
        assert(s1 =~= s.subrange(0, s.len() - 1));
        lemma_trim_end_subrange(s1, b);
        assert(s1.subrange(0, b) =~= s.subrange(0, b));
    }
}

/// Whether `c` is stripped by `trim`.
fn is_space(c: char) -> (r: bool)
    ensures
        r == is_space_char(c),
{
    c == ' ' || c == '\t' || c == '\n' || c == '\r'
}

/// `s` without leading and trailing whitespace.
pub fn trim<'a>(s: &'a str) -> (r: &'a str)
    ensures
        r@ == spec_trim(s@),
{
    let len = s.unicode_len();
    let mut a: usize = 0;
    while a < len && is_space(s.get_char(a))
        invariant
            len == s@.len(),
            0 <= a <= len,
            forall|i: int| 0 <= i < a ==> is_space_char(s@[i]),
        decreases len - a,
    {
        a += 1;
    }
    proof {
        lemma_trim_start_subrange(s@, a as int);
    }
    let mut b: usize = len;
    while b > a && is_space(s.get_char(b - 1))
        invariant
            len == s@.len(),
            0 <= a <= b <= len,
            forall|i: int| b <= i < len ==> is_space_char(s@[i]),
        decreases b,
    {
        b -= 1;
    }
    let r = s.substring_char(a, b);
    proof {
        let st = spec_trim_start(s@);
        assert(st == s@.subrange(a as int, len as int));
        if b == a {
            lemma_trim_end_subrange(st, 0);
        } else {
            assert(forall|i: int| b - a <= i < st.len() ==> is_space_char(#[trigger] st[i]));
            lemma_trim_end_subrange(st, b - a);
        }
        assert(st.subrange(0, b - a) =~= s@.subrange(a as int, b as int));
    }
    r
}

/// The characters a sequence of ASCII byte values stands for.
pub open spec fn chars_of_bytes(s: Seq<u8>) -> Seq<char> {
    s.map_values(|b: u8| b as char)
}

/// Appending a byte appends the matching character.
pub proof fn lemma_chars_of_bytes_push(s: Seq<u8>, b: u8)
    ensures
        chars_of_bytes(s.push(b)) =~= chars_of_bytes(s).push(b as char),
{
}

/// Relies on `String::from_utf8`: bytes below 128 are ASCII, form valid
/// UTF-8, and decode to the characters with the same code points.
#[verifier::external_body]
pub(crate) fn ascii_to_string(v: Vec<u8>) -> (r: String)
    requires
        forall|i: int| 0 <= i < v@.len() ==> v@[i] < 128,
    ensures
        r@ == chars_of_bytes(v@),
{
    String::from_utf8(v).unwrap_or_default()
}

/// The decimal digit character for `d`.
pub open spec fn dec_digit(d: int) -> char {
    ((48 + d) as u8) as char
}

/// The decimal representation of `n`, most significant digit first.
pub open spec fn spec_dec_nat(n: nat) -> Seq<char>
    decreases n,
{
    if n < 10 {
        seq![dec_digit(n as int)]
    } else {
        spec_dec_nat(n / 10).push(dec_digit((n % 10) as int))
    }
}

/// The decimal representation of `v`, with a leading minus sign when
/// negative.
pub open spec fn spec_dec_int(v: int) -> Seq<char> {
    if v < 0 {
        seq!['-'] + spec_dec_nat((-v) as nat)
    } else {
        spec_dec_nat(v as nat)
    }
}

/// Appends the ASCII decimal digits of `n` to `out`.
fn push_dec_u64(n: u64, out: &mut Vec<u8>)
    requires
        forall|i: int| 0 <= i < old(out)@.len() ==> old(out)@[i] < 128,
    ensures
        forall|i: int| 0 <= i < final(out)@.len() ==> final(out)@[i] < 128,
        chars_of_bytes(final(out)@) == chars_of_bytes(old(out)@) + spec_dec_nat(n as nat),
    decreases n,
{
    if n >= 10 {
        push_dec_u64(n / 10, out);
    }
    let ghost before = out@;
    let d: u8 = 48 + ((n % 10) as u8);
    out.push(d);
    proof {
        lemma_chars_of_bytes_push(before, d);
        if n < 10 {
            assert(chars_of_bytes(final(out)@) =~= chars_of_bytes(old(out)@) + spec_dec_nat(
                n as nat,
            ));
        } else {
            assert(chars_of_bytes(final(out)@) =~= chars_of_bytes(old(out)@) + spec_dec_nat(
                n as nat,
            ));
        }
    }
}

/// The decimal string for `v`, as `spec_dec_int` describes it.
pub fn i32_to_string(v: i32) -> (r: String)
    ensures
        r@ == spec_dec_int(v as int),
{
    let mut buf: Vec<u8> = Vec::new();
    if v < 0 {
        buf.push(45);
        let m: u64 = (-(v as i64)) as u64;
        push_dec_u64(m, &mut buf);
        proof {
            assert(chars_of_bytes(seq![45u8]) =~= seq!['-']);
            assert(chars_of_bytes(buf@) =~= spec_dec_int(v as int));
        }
    } else {
        push_dec_u64(v as u64, &mut buf);
        proof {
            assert(chars_of_bytes(buf@) =~= spec_dec_int(v as int));
        }
    }
    ascii_to_string(buf)
}

} // verus!
