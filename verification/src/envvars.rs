//! Expansion of environment variable references in configured paths and
//! commands: `%NAME%` (only where it does not touch a letter or digit),
//! `${NAME}` and `$NAME`.
//!
//! The variables are handed in as `(name, value)` pairs in the order in which
//! the environment lists them; the expansion itself is plain text work.
use vstd::prelude::*;

use crate::text::{
    char_bytes, char_bytes_exec, append_chars, chars_of, find_from, find_from_spec, lemma_find_from_props, occurs_at, slice_chars, string_of,
};

verus! {

// ---------------------------------------------------------------------------
// UTF-8 lengths
// ---------------------------------------------------------------------------
/// The number of bytes of `s` in UTF-8 (`str::len`).
pub open spec fn byte_len(s: Seq<char>) -> nat
    decreases s.len(),
{
    if s.len() == 0 {
        0
    } else {
        byte_len(s.drop_last()) + char_bytes(s.last())
    }
}

pub proof fn lemma_byte_len_bounds(s: Seq<char>)
    ensures
        s.len() <= byte_len(s) <= 4 * s.len(),
    decreases s.len(),
{
    if s.len() > 0 {
        lemma_byte_len_bounds(s.drop_last());
    }
}

/// The UTF-8 length of the first `m` characters of `h`.
fn byte_len_prefix(h: &Vec<char>, m: usize) -> (r: u128)
    requires
        m <= h.len(),
    ensures
        r == byte_len(h@.subrange(0, m as int)),
{
    let mut r: u128 = 0;
    let mut i: usize = 0;
    while i < m
        invariant
            i <= m <= h.len(),
            r == byte_len(h@.subrange(0, i as int)),
            r <= 4 * i,
        decreases m - i,
    {
        proof {
            lemma_byte_len_bounds(h@.subrange(0, i as int));
        }
        let b = char_bytes_exec(h[i]) as u128;
        r = r + b;
        i += 1;
        assert(h@.subrange(0, i as int).drop_last() =~= h@.subrange(0, i - 1));
    }
    r
}

// ---------------------------------------------------------------------------
// Character tests (std)
// ---------------------------------------------------------------------------
/// What `char::is_alphanumeric` returns: whether `c` has the Unicode
/// `Alphabetic` or `Numeric` property.
pub uninterp spec fn is_alnum(c: char) -> bool;

/// Calls `char::is_alphanumeric`.  Trusted: the result is `is_alnum(c)`,
/// a function of `c` alone; which characters qualify is not stated.
#[verifier::external_body]
fn is_alphanumeric(c: char) -> (r: bool)
    ensures
        r == is_alnum(c),
{
    c.is_alphanumeric()
}

// ---------------------------------------------------------------------------
// The `%NAME%` pass
// ---------------------------------------------------------------------------
/// The character at index `k`, or a space past the end
/// (`chars().nth(k).unwrap_or(' ')`).
pub open spec fn nth_or_space(h: Seq<char>, k: int) -> char {
    if 0 <= k < h.len() {
        h[k]
    } else {
        ' '
    }
}

/// Whether the occurrence of `p` at character index `m` of `h` stands apart
/// from letters and digits.  The neighbours are looked up by the byte
/// offsets of the occurrence, taken as character indices; for ASCII text
/// the two coincide.
pub open spec fn pct_ok(h: Seq<char>, p: Seq<char>, m: int) -> bool {
    let start = byte_len(h.subrange(0, m));
    let after = start + byte_len(p);
    &&& (start == 0 || !is_alnum(nth_or_space(h, start - 1)))
    &&& (after >= byte_len(h) || !is_alnum(nth_or_space(h, after as int)))
}

/// The text that the `%NAME%` pass produces from character index `s` on:
/// an occurrence that stands apart is replaced by `val`; after one that does
/// not, the search resumes one character further and the text up to there
/// is not kept.
#[verifier::opaque]
pub open spec fn pct_pass(h: Seq<char>, p: Seq<char>, val: Seq<char>, s: int) -> Seq<char>
    decreases h.len() - s,
    when 0 <= s <= h.len() && p.len() > 0
    via pct_pass_decreases
{
    match find_from_spec(h, p, s) {
        Some(m) => if pct_ok(h, p, m) {
            h.subrange(s, m) + val + pct_pass(h, p, val, m + p.len())
        } else {
            pct_pass(h, p, val, m + 1)
        },
        None => h.subrange(s, h.len() as int),
    }
}

/// `h` with the first occurrence of `p` replaced by `val` (`replacen(p, val, 1)`).
pub open spec fn replace_first(h: Seq<char>, p: Seq<char>, val: Seq<char>) -> Seq<char> {
    match find_from_spec(h, p, 0) {
        Some(i) => h.subrange(0, i) + val + h.subrange(i + p.len(), h.len() as int),
        None => h,
    }
}

pub open spec fn pct_pattern(key: Seq<char>) -> Seq<char> {
    seq!['%'] + key + seq!['%']
}

pub open spec fn brace_pattern(key: Seq<char>) -> Seq<char> {
    seq!['$', '{'] + key + seq!['}']
}

pub open spec fn dollar_pattern(key: Seq<char>) -> Seq<char> {
    seq!['$'] + key
}

/// The expansion of one variable.
pub open spec fn expand_one(h: Seq<char>, key: Seq<char>, val: Seq<char>) -> Seq<char> {
    let a = pct_pass(h, pct_pattern(key), val, 0);
    let b = replace_first(a, brace_pattern(key), val);
    replace_first(b, dollar_pattern(key), val)
}

pub open spec fn vars_view(v: Seq<(String, String)>) -> Seq<(Seq<char>, Seq<char>)> {
    v.map_values(|kv: (String, String)| (kv.0@, kv.1@))
}

/// The expansion of every variable, in the order given.
pub open spec fn expand_all(h: Seq<char>, vars: Seq<(Seq<char>, Seq<char>)>) -> Seq<char>
    decreases vars.len(),
{
    if vars.len() == 0 {
        h
    } else {
        expand_one(expand_all(h, vars.drop_last()), vars.last().0, vars.last().1)
    }
}

#[via_fn]
proof fn pct_pass_decreases(h: Seq<char>, p: Seq<char>, val: Seq<char>, s: int) {
    lemma_find_from_props(h, p, s);
}

proof fn lemma_pct_step(h: Seq<char>, p: Seq<char>, val: Seq<char>, s: int)
    requires
        0 <= s <= h.len(),
        p.len() > 0,
    ensures
        match find_from_spec(h, p, s) {
            Some(m) => {
                &&& s <= m
                &&& m + p.len() <= h.len()
                &&& pct_ok(h, p, m) ==> pct_pass(h, p, val, s) == h.subrange(s, m) + val
                    + pct_pass(h, p, val, m + p.len())
                &&& !pct_ok(h, p, m) ==> pct_pass(h, p, val, s) == pct_pass(h, p, val, m + 1)
            },
            None => pct_pass(h, p, val, s) == h.subrange(s, h.len() as int),
        },
{
    lemma_find_from_props(h, p, s);
    reveal(pct_pass);
}

fn pct_ok_exec(h: &Vec<char>, p: &Vec<char>, m: usize) -> (r: bool)
    requires
        m <= h.len(),
    ensures
        r == pct_ok(h@, p@, m as int),
{
    let start = byte_len_prefix(h, m);
    let plen = byte_len_prefix(p, p.len());
    let total = byte_len_prefix(h, h.len());
    proof {
        assert(p@.subrange(0, p.len() as int) =~= p@);
        assert(h@.subrange(0, h.len() as int) =~= h@);
        lemma_byte_len_bounds(h@.subrange(0, m as int));
        lemma_byte_len_bounds(p@);
    }
    let before_ok = if start == 0 {
        true
    } else {
        let k = start - 1;
        let c = if k < h.len() as u128 {
            h[k as usize]
        } else {
            ' '
        };
        !is_alphanumeric(c)
    };
    let after = start + plen;
    let after_ok = if after >= total {
        true
    } else {
        let c = if after < h.len() as u128 {
            h[after as usize]
        } else {
            ' '
        };
        !is_alphanumeric(c)
    };
    before_ok && after_ok
}

#[verifier::spinoff_prover]
#[verifier::rlimit(40)]
fn pct_replace(h: &Vec<char>, p: &Vec<char>, val: &Vec<char>) -> (r: Vec<char>)
    requires
        p.len() > 0,
    ensures
        r@ == pct_pass(h@, p@, val@, 0),
{
    let mut result: Vec<char> = Vec::new();
    let mut s: usize = 0;
    loop
        invariant_except_break
            s <= h.len(),
            p.len() > 0,
            pct_pass(h@, p@, val@, 0) == result@ + pct_pass(h@, p@, val@, s as int),
        ensures
            result@ == pct_pass(h@, p@, val@, 0),
        decreases h.len() - s,
    {
        let f = find_from(h, p, s);
        proof {
            lemma_pct_step(h@, p@, val@, s as int);
        }
        match f {
            None => {
                let rest = slice_chars(h, s, h.len());
                append_chars(&mut result, &rest);
                assert(result@ =~= pct_pass(h@, p@, val@, 0));
                break ;
            },
            Some(m) => {
                if pct_ok_exec(h, p, m) {
                    let seg = slice_chars(h, s, m);
                    let ghost before = result@;
                    append_chars(&mut result, &seg);
                    append_chars(&mut result, val);
                    assert(result@ =~= before + (h@.subrange(s as int, m as int) + val@));
                    assert(before + (h@.subrange(s as int, m as int) + val@ + pct_pass(
                        h@,
                        p@,
                        val@,
                        m + p.len(),
                    )) =~= result@ + pct_pass(h@, p@, val@, m + p.len()));
                    s = m + p.len();
                } else {
                    s = m + 1;
                }
            },
        }
    }
    result
}

pub fn replace_first_exec(h: &Vec<char>, p: &Vec<char>, val: &Vec<char>) -> (r: Vec<char>)
    ensures
        r@ == replace_first(h@, p@, val@),
{
    let f = find_from(h, p, 0);
    proof {
        lemma_find_from_props(h@, p@, 0);
    }
    match f {
        Some(i) => {
            assert(occurs_at(h@, p@, i as int));
            assert(i + p.len() <= h.len());
            let mut r = slice_chars(h, 0, i);
            append_chars(&mut r, val);
            let rest = slice_chars(h, i + p.len(), h.len());
            append_chars(&mut r, &rest);
            r
        },
        None => {
            let mut r: Vec<char> = Vec::new();
            append_chars(&mut r, h);
            r
        },
    }
}

fn expand_one_exec(h: &Vec<char>, key: &Vec<char>, val: &Vec<char>) -> (r: Vec<char>)
    ensures
        r@ == expand_one(h@, key@, val@),
{
    let mut pct: Vec<char> = Vec::new();
    pct.push('%');
    append_chars(&mut pct, key);
    pct.push('%');
    assert(pct@ =~= pct_pattern(key@));
    let a = pct_replace(h, &pct, val);
    let mut brace: Vec<char> = Vec::new();
    brace.push('$');
    brace.push('{');
    append_chars(&mut brace, key);
    brace.push('}');
    assert(brace@ =~= brace_pattern(key@));
    let b = replace_first_exec(&a, &brace, val);
    let mut dollar: Vec<char> = Vec::new();
    dollar.push('$');
    append_chars(&mut dollar, key);
    assert(dollar@ =~= dollar_pattern(key@));
    replace_first_exec(&b, &dollar, val)
}

/// Expands the references to each variable of `vars` in `value`, one
/// variable after the other.
pub fn expand_env_vars(value: &str, vars: &Vec<(String, String)>) -> (r: String)
    ensures
        r@ == expand_all(value@, vars_view(vars@)),
{
    let mut expanded = chars_of(value);
    let mut i: usize = 0;
    while i < vars.len()
        invariant
            i <= vars.len(),
            expanded@ == expand_all(value@, vars_view(vars@.subrange(0, i as int))),
        decreases vars.len() - i,
    {
        let key = chars_of(vars[i].0.as_str());
        let val = chars_of(vars[i].1.as_str());
        expanded = expand_one_exec(&expanded, &key, &val);
        i += 1;
        assert(vars_view(vars@.subrange(0, i as int)).drop_last() =~= vars_view(
            vars@.subrange(0, i - 1),
        ));
    }
    assert(vars@.subrange(0, vars.len() as int) =~= vars@);
    string_of(&expanded)
}

} // verus!
