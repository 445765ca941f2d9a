//! Verified inline-style editing. The widget never clobbers a style
//! attribute wholesale: it normalizes what is there, appends `key:value;`
//! declarations that are missing, and — for the placement keys it owns —
//! replaces the value of a declaration that is already present.

use vstd::prelude::*;
use crate::text::contains;
use crate::text::find;
use crate::text::find_from;
use crate::text::lemma_find_is_match;
use crate::text::spec_contains;
use crate::text::spec_find;
use crate::text::spec_trim;
use crate::text::trim;

verus! {

/// `style` trimmed and, when non-empty, closed with a `;` so that
/// declarations can be appended.
pub open spec fn spec_normalize(style: Seq<char>) -> Seq<char> {
    let t = spec_trim(style);
    if t.len() > 0 && t[t.len() - 1] != ';' {
        t + ";"@
    } else {
        t
    }
}

/// `style` with `key:value;` appended when no `key:` declaration is
/// present; an existing declaration is left alone.
pub open spec fn spec_merge_decl(style: Seq<char>, key: Seq<char>, value: Seq<char>) -> Seq<char> {
    if spec_contains(style, key + ":"@) {
        style
    } else {
        style + key + ":"@ + value + ";"@
    }
}

/// `style` with the `key:` declaration's value replaced by `value`, or with
/// `key:value;` appended when no such declaration is present.
pub open spec fn spec_set_decl(style: Seq<char>, key: Seq<char>, value: Seq<char>) -> Seq<char> {
    let pat = key + ":"@;
    let i = spec_find(style, pat, 0);
    if i < 0 {
        style + pat + value + ";"@
    } else {
        let vstart = i + pat.len();
        let j = spec_find(style, ";"@, vstart);
        if j < 0 {
            style.take(vstart) + value + ";"@
        } else {
            style.take(vstart) + value + style.skip(j)
        }
    }
}

/// `style` normalized, then merged with each `(key, value)` pair in order.
pub open spec fn spec_merge_decls(style: Seq<char>, pairs: Seq<(Seq<char>, Seq<char>)>) -> Seq<
    char,
>
    decreases pairs.len(),
{
    if pairs.len() == 0 {
        style
    } else {
        spec_merge_decls(spec_merge_decl(style, pairs[0].0, pairs[0].1), pairs.skip(1))
    }
}

/// The views of a list of `(key, value)` pairs.
pub open spec fn pair_views(pairs: Seq<(String, String)>) -> Seq<(Seq<char>, Seq<char>)> {
    pairs.map_values(|p: (String, String)| (p.0@, p.1@))
}

/// `style` trimmed and closed with `;` when non-empty, ready for appending.
pub fn normalize_style(style: &str) -> (r: String)
    ensures
        r@ == spec_normalize(style@),
{
    let t = trim(style);
    let t_len = t.unicode_len();
    let mut out = String::from_str(t);
    if t_len > 0 && t.get_char(t_len - 1) != ';' {
        out.append(";");
    }
    out
}

/// Appends `key:value;` to `style` unless a `key:` declaration is present.
/// Keeps an existing declaration — the host's own styling wins.
pub fn merge_decl(style: &str, key: &str, value: &str) -> (r: String)
    ensures
        r@ == spec_merge_decl(style@, key@, value@),
{
    let mut pat = String::from_str(key);
    pat.append(":");
    if contains(style, pat.as_str()) {
        String::from_str(style)
    } else {
        let mut out = String::from_str(style);
        out.append(pat.as_str());
        out.append(value);
        out.append(";");
        out
    }
}

/// Replaces the value of the `key:` declaration in `style`, or appends
/// `key:value;` when there is none.
pub fn set_decl(style: &str, key: &str, value: &str) -> (r: String)
    ensures
        r@ == spec_set_decl(style@, key@, value@),
{
    let mut pat = String::from_str(key);
    pat.append(":");
    match find(style, pat.as_str()) {
        None => {
            let mut out = String::from_str(style);
            out.append(pat.as_str());
            out.append(value);
            out.append(";");
            out
        },
        Some(i) => {
            proof {
                lemma_find_is_match(style@, pat@, 0);
            }
            let pat_len = pat.as_str().unicode_len();
            let len = style.unicode_len();
            let vstart = i + pat_len;
            let head = style.substring_char(0, vstart);
            let mut out = String::from_str(head);
            out.append(value);
            match find_from(style, ";", vstart) {
                None => {
                    out.append(";");
                },
                Some(j) => {
                    proof {
                        lemma_find_is_match(style@, ";"@, vstart as int);
                        reveal_strlit(";");
                    }
                    out.append(style.substring_char(j, len));
                },
            }
            proof {
                assert(head@ =~= style@.take(vstart as int));
                assert(style@.subrange(vstart as int, style@.len() as int) =~= style@.skip(
                    vstart as int,
                ));
            }
            out
        },
    }
}

/// `style` normalized, then each missing `(key, value)` declaration
/// appended in order.
pub fn merge_inline_style(current: &str, pairs: &Vec<(String, String)>) -> (r: String)
    ensures
        r@ == spec_merge_decls(spec_normalize(current@), pair_views(pairs@)),
{
    let mut out = normalize_style(current);
    let n = pairs.len();
    let mut k: usize = 0;
    while k < n
        invariant
            n == pairs@.len(),
            0 <= k <= n,
            out@ == spec_merge_decls(spec_normalize(current@), pair_views(pairs@).take(k as int)),
        decreases n - k,
    {
        let merged = merge_decl(out.as_str(), pairs[k].0.as_str(), pairs[k].1.as_str());
        out = merged;
        proof {
            lemma_merge_decls_snoc(spec_normalize(current@), pair_views(pairs@), k as int);
        }
        k += 1;
    }
    proof {
        assert(pair_views(pairs@).take(n as int) =~= pair_views(pairs@));
    }
    out
}

/// Merging one more pair continues the fold.
proof fn lemma_merge_decls_snoc(style: Seq<char>, pairs: Seq<(Seq<char>, Seq<char>)>, k: int)
    requires
        0 <= k < pairs.len(),
    ensures
        spec_merge_decls(style, pairs.take(k + 1)) == spec_merge_decl(
            spec_merge_decls(style, pairs.take(k)),
            pairs[k].0,
            pairs[k].1,
        ),
    decreases k,
{
    if k == 0 {
        assert(pairs.take(1)[0] == pairs[0]);
        assert(pairs.take(1).skip(1) =~= Seq::<(Seq<char>, Seq<char>)>::empty());
        assert(pairs.take(0) =~= Seq::<(Seq<char>, Seq<char>)>::empty());
        assert(spec_merge_decls(style, pairs.take(0)) == style);
        assert(spec_merge_decls(style, pairs.take(1)) == spec_merge_decls(
            spec_merge_decl(style, pairs[0].0, pairs[0].1),
            pairs.take(1).skip(1),
        ));
    } else {
        let style1 = spec_merge_decl(style, pairs[0].0, pairs[0].1);
        lemma_merge_decls_snoc(style1, pairs.skip(1), k - 1);
        assert(pairs.take(k + 1)[0] == pairs[0]);
        assert(pairs.take(k + 1).skip(1) =~= pairs.skip(1).take(k));
        assert(pairs.take(k)[0] == pairs[0]);
        assert(pairs.take(k).skip(1) =~= pairs.skip(1).take(k - 1));
        assert(pairs.skip(1)[k - 1] == pairs[k]);
        assert(spec_merge_decls(style, pairs.take(k + 1)) == spec_merge_decls(
            style1,
            pairs.skip(1).take(k),
        ));
        assert(spec_merge_decls(style, pairs.take(k)) == spec_merge_decls(
            style1,
            pairs.skip(1).take(k - 1),
        ));
    }
}

} // verus!
