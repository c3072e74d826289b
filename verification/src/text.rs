//! Character-level string operations with specifications.
//!
//! Strings are viewed as sequences of `char`s.  The executable functions here
//! work on `Vec<char>` buffers and are proved against the spec functions of
//! this module, which the rest of the library uses in its contracts.
use vstd::prelude::*;

verus! {

// ---------------------------------------------------------------------------
// Character classes
// ---------------------------------------------------------------------------
/// The Unicode `White_Space` property, which `char::is_whitespace` and
/// `str::trim` use.
pub open spec fn is_ws(c: char) -> bool {
    let u = c as u32;
    ||| 0x09 <= u <= 0x0d
    ||| u == 0x20
    ||| u == 0x85
    ||| u == 0xa0
    ||| u == 0x1680
    ||| 0x2000 <= u <= 0x200a
    ||| u == 0x2028
    ||| u == 0x2029
    ||| u == 0x202f
    ||| u == 0x205f
    ||| u == 0x3000
}

pub fn is_whitespace_char(c: char) -> (b: bool)
    ensures
        b == is_ws(c),
{
    let u = c as u32;
    (0x09 <= u && u <= 0x0d) || u == 0x20 || u == 0x85 || u == 0xa0 || u == 0x1680 || (0x2000
        <= u && u <= 0x200a) || u == 0x2028 || u == 0x2029 || u == 0x202f || u == 0x205f || u
        == 0x3000
}

/// ASCII lower-casing of one character (`char::to_ascii_lowercase`).
pub open spec fn ascii_lower(c: char) -> char {
    if 'A' <= c && c <= 'Z' {
        ((c as u32) + 32) as char
    } else {
        c
    }
}

pub open spec fn ascii_lower_seq(s: Seq<char>) -> Seq<char> {
    s.map_values(|c: char| ascii_lower(c))
}

pub fn ascii_lower_char(c: char) -> (r: char)
    ensures
        r == ascii_lower(c),
{
    if 'A' <= c && c <= 'Z' {
        let u = (c as u32) + 32;
        let r = char_from_ascii(u);
        r
    } else {
        c
    }
}

fn char_from_ascii(u: u32) -> (c: char)
    requires
        0x61 <= u <= 0x7a,
    ensures
        c == u as char,
{
    (u as u8) as char
}

pub fn ascii_lowercase(s: &Vec<char>) -> (r: Vec<char>)
    ensures
        r@ == ascii_lower_seq(s@),
{
    let mut r: Vec<char> = Vec::new();
    let mut i: usize = 0;
    while i < s.len()
        invariant
            i <= s.len(),
            r@ == ascii_lower_seq(s@.subrange(0, i as int)),
        decreases s.len() - i,
    {
        let c = ascii_lower_char(s[i]);
        r.push(c);
        i += 1;
        assert(ascii_lower_seq(s@.subrange(0, i as int)) =~= ascii_lower_seq(
            s@.subrange(0, (i - 1) as int),
        ).push(ascii_lower(s@[i - 1])));
    }
    assert(s@.subrange(0, s.len() as int) =~= s@);
    r
}

// ---------------------------------------------------------------------------
// Unicode lower-casing (std)
// ---------------------------------------------------------------------------
/// What `str::to_lowercase` returns for a string: the Unicode full lower-case
/// mapping, a function of the string alone.
pub uninterp spec fn lowercase(s: Seq<char>) -> Seq<char>;

/// Whether every character of `s` is ASCII.
pub open spec fn is_ascii_text(s: Seq<char>) -> bool {
    forall|i: int| 0 <= i < s.len() ==> (s[i] as u32) < 128
}

/// Calls `str::to_lowercase`.  Trusted: the result is the Unicode lower-case
/// mapping of `s`, which this library names `lowercase`; for ASCII text that
/// mapping turns `A`..`Z` into `a`..`z` and keeps every other character (as
/// `str::to_ascii_lowercase` does).  Beyond ASCII nothing is stated.
#[verifier::external_body]
pub(crate) fn to_lowercase(s: &str) -> (r: String)
    ensures
        r@ == lowercase(s@),
        is_ascii_text(s@) ==> r@ == ascii_lower_seq(s@),
{
    s.to_lowercase()
}

// ---------------------------------------------------------------------------
// Conversions between strings and character buffers
// ---------------------------------------------------------------------------
pub fn chars_of(s: &str) -> (v: Vec<char>)
    ensures
        v@ == s@,
{
    let n = s.unicode_len();
    let mut v: Vec<char> = Vec::new();
    let mut i: usize = 0;
    while i < n
        invariant
            n == s@.len(),
            i <= n,
            v@ == s@.subrange(0, i as int),
        decreases n - i,
    {
        let c = s.get_char(i);
        v.push(c);
        i += 1;
        assert(v@ =~= s@.subrange(0, i as int));
    }
    assert(v@ =~= s@);
    v
}

/// Calls `String::push`.  Trusted: appends one character.
#[verifier::external_body]
pub(crate) fn push_char(s: &mut String, c: char)
    ensures
        final(s)@ == old(s)@.push(c),
{
    s.push(c)
}

pub fn string_of(v: &Vec<char>) -> (s: String)
    ensures
        s@ == v@,
{
    let mut s = String::new();
    let mut i: usize = 0;
    while i < v.len()
        invariant
            i <= v.len(),
            s@ == v@.subrange(0, i as int),
        decreases v.len() - i,
    {
        push_char(&mut s, v[i]);
        i += 1;
        assert(s@ =~= v@.subrange(0, i as int));
    }
    assert(s@ =~= v@);
    s
}

pub fn str_to_string(s: &str) -> (r: String)
    ensures
        r@ == s@,
{
    s.to_owned()
}

pub fn append_chars(dst: &mut Vec<char>, src: &Vec<char>)
    ensures
        final(dst)@ == old(dst)@ + src@,
{
    let mut i: usize = 0;
    while i < src.len()
        invariant
            i <= src.len(),
            dst@ == old(dst)@ + src@.subrange(0, i as int),
        decreases src.len() - i,
    {
        dst.push(src[i]);
        i += 1;
        assert(dst@ =~= old(dst)@ + src@.subrange(0, i as int));
    }
    assert(src@.subrange(0, src.len() as int) =~= src@);
}

pub fn append_str(dst: &mut Vec<char>, src: &str)
    ensures
        final(dst)@ == old(dst)@ + src@,
{
    let v = chars_of(src);
    append_chars(dst, &v);
}

pub fn slice_chars(v: &Vec<char>, from: usize, to: usize) -> (r: Vec<char>)
    requires
        from <= to <= v.len(),
    ensures
        r@ == v@.subrange(from as int, to as int),
{
    let mut r: Vec<char> = Vec::new();
    let mut i = from;
    while i < to
        invariant
            from <= i <= to <= v.len(),
            r@ == v@.subrange(from as int, i as int),
        decreases to - i,
    {
        r.push(v[i]);
        i += 1;
        assert(r@ =~= v@.subrange(from as int, i as int));
    }
    r
}

pub fn chars_eq(a: &Vec<char>, b: &Vec<char>) -> (r: bool)
    ensures
        r == (a@ == b@),
{
    if a.len() != b.len() {
        return false;
    }
    let mut i: usize = 0;
    while i < a.len()
        invariant
            a.len() == b.len(),
            i <= a.len(),
            forall|k: int| 0 <= k < i ==> a@[k] == b@[k],
        decreases a.len() - i,
    {
        if a[i] != b[i] {
            return false;
        }
        i += 1;
    }
    assert(a@ =~= b@);
    true
}

pub fn str_eq(a: &str, b: &str) -> (r: bool)
    ensures
        r == (a@ == b@),
{
    let va = chars_of(a);
    let vb = chars_of(b);
    chars_eq(&va, &vb)
}

// ---------------------------------------------------------------------------
// Substrings
// ---------------------------------------------------------------------------
pub open spec fn occurs_at(h: Seq<char>, n: Seq<char>, i: int) -> bool {
    0 <= i && i + n.len() <= h.len() && h.subrange(i, i + n.len()) == n
}

/// `str::contains` with a string pattern.
pub open spec fn contains(h: Seq<char>, n: Seq<char>) -> bool {
    exists|i: int| #[trigger] occurs_at(h, n, i)
}

pub open spec fn starts_with(h: Seq<char>, p: Seq<char>) -> bool {
    p.len() <= h.len() && h.subrange(0, p.len() as int) == p
}

pub open spec fn ends_with(h: Seq<char>, p: Seq<char>) -> bool {
    p.len() <= h.len() && h.subrange(h.len() - p.len(), h.len() as int) == p
}

/// Whether `n` occurs in `h` at some position `i` with `from <= i < upto`.
pub open spec fn occurs_between(h: Seq<char>, n: Seq<char>, from: int, upto: int) -> bool {
    exists|i: int| from <= i < upto && #[trigger] occurs_at(h, n, i)
}

/// The first position at or after `from` where `n` occurs in `h`
/// (`str::find` on `h[from..]`, offset by `from`).
pub open spec fn find_from_spec(h: Seq<char>, n: Seq<char>, from: int) -> Option<int> {
    if exists|i: int| from <= i && #[trigger] occurs_at(h, n, i) {
        Some(choose|i: int| from <= i && occurs_at(h, n, i) && !occurs_between(h, n, from, i))
    } else {
        None
    }
}

pub fn occurs_at_exec(h: &Vec<char>, n: &Vec<char>, i: usize) -> (r: bool)
    ensures
        r == occurs_at(h@, n@, i as int),
{
    if i > h.len() || n.len() > h.len() - i {
        return false;
    }
    let mut k: usize = 0;
    while k < n.len()
        invariant
            i + n.len() <= h.len(),
            k <= n.len(),
            forall|j: int| 0 <= j < k ==> h@[i + j] == n@[j],
        decreases n.len() - k,
    {
        if h[i + k] != n[k] {
            assert(h@.subrange(i as int, i + n.len())[k as int] != n@[k as int]);
            return false;
        }
        k += 1;
    }
    assert(h@.subrange(i as int, i + n.len()) =~= n@);
    true
}

pub proof fn lemma_find_from_some(h: Seq<char>, n: Seq<char>, from: int, i: int)
    requires
        from <= i,
        occurs_at(h, n, i),
        !occurs_between(h, n, from, i),
    ensures
        find_from_spec(h, n, from) == Some(i),
{
    let j = choose|j: int| from <= j && occurs_at(h, n, j) && !occurs_between(h, n, from, j);
    if j < i {
        assert(occurs_between(h, n, from, i));
    }
    if i < j {
        assert(occurs_between(h, n, from, j));
    }
}

proof fn lemma_first_occurrence_exists(h: Seq<char>, n: Seq<char>, from: int, i: int)
    requires
        from <= i,
        occurs_at(h, n, i),
    ensures
        exists|m: int| from <= m && occurs_at(h, n, m) && !occurs_between(h, n, from, m),
    decreases i - from,
{
    if occurs_between(h, n, from, i) {
        let j = choose|j: int| from <= j < i && #[trigger] occurs_at(h, n, j);
        lemma_first_occurrence_exists(h, n, from, j);
    } else {
        assert(from <= i && occurs_at(h, n, i) && !occurs_between(h, n, from, i));
    }
}

/// What `find_from_spec` gives: the first occurrence at or after `from`, or
/// none when there is no occurrence there.
pub proof fn lemma_find_from_props(h: Seq<char>, n: Seq<char>, from: int)
    ensures
        match find_from_spec(h, n, from) {
            Some(m) => from <= m && occurs_at(h, n, m) && !occurs_between(h, n, from, m),
            None => forall|i: int| from <= i ==> !#[trigger] occurs_at(h, n, i),
        },
{
    if exists|i: int| from <= i && #[trigger] occurs_at(h, n, i) {
        let i = choose|i: int| from <= i && #[trigger] occurs_at(h, n, i);
        lemma_first_occurrence_exists(h, n, from, i);
    }
}

pub fn find_from(h: &Vec<char>, n: &Vec<char>, from: usize) -> (r: Option<usize>)
    ensures
        match r {
            Some(i) => find_from_spec(h@, n@, from as int) == Some(i as int),
            None => find_from_spec(h@, n@, from as int) is None,
        },
{
    if from > h.len() {
        assert forall|j: int| from <= j && #[trigger] occurs_at(h@, n@, j) implies false by {}
        return None;
    }
    let mut i = from;
    loop
        invariant
            from <= i <= h.len(),
            !occurs_between(h@, n@, from as int, i as int),
        decreases h.len() - i,
    {
        if occurs_at_exec(h, n, i) {
            proof {
                lemma_find_from_some(h@, n@, from as int, i as int);
            }
            return Some(i);
        }
        assert forall|j: int| from <= j < i + 1 && #[trigger] occurs_at(h@, n@, j) implies false by {
            if j < i {
                assert(occurs_between(h@, n@, from as int, i as int));
            }
        }
        if i == h.len() {
            assert forall|j: int| from <= j && #[trigger] occurs_at(h@, n@, j) implies false by {
                if j < i {
                    assert(occurs_between(h@, n@, from as int, i as int));
                }
            }
            return None;
        }
        i += 1;
    }
}

pub fn contains_chars(h: &Vec<char>, n: &Vec<char>) -> (r: bool)
    ensures
        r == contains(h@, n@),
{
    let f = find_from(h, n, 0);
    match f {
        Some(i) => {
            true
        },
        None => {
            assert forall|i: int| !(#[trigger] occurs_at(h@, n@, i)) by {
                if occurs_at(h@, n@, i) {
                    assert(0 <= i);
                }
            }
            false
        },
    }
}

pub fn contains_str(h: &Vec<char>, n: &str) -> (r: bool)
    ensures
        r == contains(h@, n@),
{
    let nv = chars_of(n);
    contains_chars(h, &nv)
}

pub fn starts_with_chars(h: &Vec<char>, p: &Vec<char>) -> (r: bool)
    ensures
        r == starts_with(h@, p@),
{
    let r = occurs_at_exec(h, p, 0);
    assert(r == starts_with(h@, p@));
    r
}

pub fn starts_with_str(h: &Vec<char>, p: &str) -> (r: bool)
    ensures
        r == starts_with(h@, p@),
{
    let pv = chars_of(p);
    starts_with_chars(h, &pv)
}

pub fn ends_with_chars(h: &Vec<char>, p: &Vec<char>) -> (r: bool)
    ensures
        r == ends_with(h@, p@),
{
    if p.len() > h.len() {
        return false;
    }
    let r = occurs_at_exec(h, p, h.len() - p.len());
    r
}

pub fn ends_with_str(h: &Vec<char>, p: &str) -> (r: bool)
    ensures
        r == ends_with(h@, p@),
{
    let pv = chars_of(p);
    ends_with_chars(h, &pv)
}

// ---------------------------------------------------------------------------
// Trimming
// ---------------------------------------------------------------------------
pub open spec fn trim_start(s: Seq<char>) -> Seq<char>
    decreases s.len(),
{
    if s.len() > 0 && is_ws(s[0]) {
        trim_start(s.drop_first())
    } else {
        s
    }
}

pub open spec fn trim_end(s: Seq<char>) -> Seq<char>
    decreases s.len(),
{
    if s.len() > 0 && is_ws(s.last()) {
        trim_end(s.drop_last())
    } else {
        s
    }
}

/// `str::trim`: leading and trailing Unicode white space removed.
pub open spec fn trim(s: Seq<char>) -> Seq<char> {
    trim_end(trim_start(s))
}

pub fn trim_chars(s: &Vec<char>) -> (r: Vec<char>)
    ensures
        r@ == trim(s@),
{
    let n = s.len();
    let mut i: usize = 0;
    assert(s@.subrange(0, n as int) =~= s@);
    while i < n && is_whitespace_char(s[i])
        invariant
            n == s.len(),
            i <= n,
            trim_start(s@) == trim_start(s@.subrange(i as int, n as int)),
        decreases n - i,
    {
        assert(s@.subrange(i as int + 1, n as int) =~= s@.subrange(i as int, n as int).drop_first());
        i += 1;
    }
    let ghost rest = s@.subrange(i as int, n as int);
    assert(trim_start(rest) == rest);
    let mut j: usize = n;
    while j > i && is_whitespace_char(s[j - 1])
        invariant
            n == s.len(),
            i <= j <= n,
            rest == s@.subrange(i as int, n as int),
            trim_end(rest) == trim_end(s@.subrange(i as int, j as int)),
        decreases j,
    {
        assert(s@.subrange(i as int, j - 1) =~= s@.subrange(i as int, j as int).drop_last());
        j -= 1;
    }
    assert(trim_end(s@.subrange(i as int, j as int)) == s@.subrange(i as int, j as int));
    slice_chars(s, i, j)
}

pub fn trim_str(s: &str) -> (r: Vec<char>)
    ensures
        r@ == trim(s@),
{
    let v = chars_of(s);
    trim_chars(&v)
}

// ---------------------------------------------------------------------------
// Single characters and decimal numbers
// ---------------------------------------------------------------------------
pub fn contains_char(v: &Vec<char>, c: char) -> (r: bool)
    ensures
        r == v@.contains(c),
{
    let mut i: usize = 0;
    while i < v.len()
        invariant
            i <= v.len(),
            forall|k: int| 0 <= k < i ==> v@[k] != c,
        decreases v.len() - i,
    {
        if v[i] == c {
            assert(v@[i as int] == c);
            return true;
        }
        i += 1;
    }
    false
}

/// The ASCII digit for `d < 10`.
pub open spec fn digit_char(d: nat) -> char {
    ((48 + d) as u32) as char
}

/// The decimal representation of `n`, without leading zeros
/// (what `Display` prints for an unsigned integer).
pub open spec fn decimal(n: nat) -> Seq<char>
    decreases n,
{
    if n < 10 {
        seq![digit_char(n)]
    } else {
        decimal(n / 10).push(digit_char(n % 10))
    }
}

fn digit_of(d: u64) -> (c: char)
    requires
        d < 10,
    ensures
        c == digit_char(d as nat),
{
    ((d as u8) + 48u8) as char
}

pub fn push_decimal(out: &mut Vec<char>, n: u64)
    ensures
        final(out)@ == old(out)@ + decimal(n as nat),
    decreases n,
{
    if n >= 10 {
        push_decimal(out, n / 10);
    }
    let c = digit_of(n % 10);
    out.push(c);
    assert(final(out)@ =~= old(out)@ + decimal(n as nat)) by {
        if n >= 10 {
            assert(decimal(n as nat) == decimal((n / 10) as nat).push(digit_char((n % 10) as nat)));
        }
    }
}

// ---------------------------------------------------------------------------
// Pattern lists
// ---------------------------------------------------------------------------
/// `r` is the first of `patterns` that occurs in `text` when both are
/// lower-cased, or `None` when none does.
pub open spec fn first_pattern_match(
    text: Seq<char>,
    patterns: Seq<Seq<char>>,
    r: Option<Seq<char>>,
) -> bool {
    match r {
        Some(p) => exists|i: int|
            0 <= i < patterns.len() && p == patterns[i] && contains(
                lowercase(text),
                lowercase(patterns[i]),
            ) && forall|j: int|
                0 <= j < i ==> !#[trigger] contains(lowercase(text), lowercase(patterns[j])),
        None => forall|i: int|
            0 <= i < patterns.len() ==> !#[trigger] contains(lowercase(text), lowercase(patterns[i])),
    }
}

/// At most one result meets `first_pattern_match`.
pub proof fn lemma_first_pattern_match_unique(
    text: Seq<char>,
    patterns: Seq<Seq<char>>,
    r1: Option<Seq<char>>,
    r2: Option<Seq<char>>,
)
    requires
        first_pattern_match(text, patterns, r1),
        first_pattern_match(text, patterns, r2),
    ensures
        r1 == r2,
{
    let t = lowercase(text);
    if r1 is Some {
        let i1 = choose|i: int|
            0 <= i < patterns.len() && r1->0 == patterns[i] && contains(t, lowercase(patterns[i]))
                && forall|j: int| 0 <= j < i ==> !#[trigger] contains(t, lowercase(patterns[j]));
        if r2 is Some {
            let i2 = choose|i: int|
                0 <= i < patterns.len() && r2->0 == patterns[i] && contains(
                    t,
                    lowercase(patterns[i]),
                ) && forall|j: int| 0 <= j < i ==> !#[trigger] contains(t, lowercase(patterns[j]));
            if i1 < i2 {
                assert(!contains(t, lowercase(patterns[i1])));
            } else if i2 < i1 {
                assert(!contains(t, lowercase(patterns[i2])));
            }
        } else {
            assert(!contains(t, lowercase(patterns[i1])));
        }
    } else if r2 is Some {
        let i2 = choose|i: int|
            0 <= i < patterns.len() && r2->0 == patterns[i] && contains(t, lowercase(patterns[i]))
                && forall|j: int| 0 <= j < i ==> !#[trigger] contains(t, lowercase(patterns[j]));
        assert(!contains(t, lowercase(patterns[i2])));
    }
}

/// `first_pattern_match` for ASCII text, where lower-casing is
/// `ascii_lower_seq`.
pub open spec fn first_pattern_match_ascii(
    text: Seq<char>,
    patterns: Seq<Seq<char>>,
    r: Option<Seq<char>>,
) -> bool {
    match r {
        Some(p) => exists|i: int|
            0 <= i < patterns.len() && p == patterns[i] && contains(
                ascii_lower_seq(text),
                ascii_lower_seq(patterns[i]),
            ) && forall|j: int|
                0 <= j < i ==> !#[trigger] contains(ascii_lower_seq(text), ascii_lower_seq(patterns[j])),
        None => forall|i: int|
            0 <= i < patterns.len() ==> !#[trigger] contains(ascii_lower_seq(text), ascii_lower_seq(patterns[i])),
    }
}

/// The first of `patterns` that occurs in `text`, ignoring case; for ASCII
/// text and patterns, case is that of `A`..`Z` against `a`..`z`.
pub fn first_match_ignoring_case(text: &str, patterns: &Vec<String>) -> (r: Option<String>)
    ensures
        first_pattern_match(
            text@,
            patterns@.map_values(|s: String| s@),
            match r {
                Some(s) => Some(s@),
                None => None,
            },
        ),
        is_ascii_text(text@) && (forall|j: int| 0 <= j < patterns@.len() ==> is_ascii_text(#[trigger] patterns@[j]@))
            ==> first_pattern_match_ascii(
            text@,
            patterns@.map_values(|s: String| s@),
            match r {
                Some(s) => Some(s@),
                None => None,
            },
        ),
{
    let ghost pv = patterns@.map_values(|s: String| s@);
    let lower_s = to_lowercase(text);
    let lower = chars_of(lower_s.as_str());
    let mut i: usize = 0;
    while i < patterns.len()
        invariant
            i <= patterns.len(),
            pv == patterns@.map_values(|s: String| s@),
            lower@ == lowercase(text@),
            is_ascii_text(text@) ==> lowercase(text@) == ascii_lower_seq(text@),
            forall|j: int| 0 <= j < i ==> !#[trigger] contains(lowercase(text@), lowercase(pv[j])),
            forall|j: int|
                0 <= j < i ==> (is_ascii_text(pv[j]) ==> #[trigger] lowercase(pv[j]) == ascii_lower_seq(pv[j])),
        decreases patterns.len() - i,
    {
        let pl_s = to_lowercase(patterns[i].as_str());
        let pl = chars_of(pl_s.as_str());
        assert(patterns[i as int]@ == pv[i as int]);
        if contains_chars(&lower, &pl) {
            let p = patterns[i].clone();
            assert(p@ == pv[i as int]);
            proof {
                if is_ascii_text(text@) && (forall|j: int| 0 <= j < patterns@.len() ==> is_ascii_text(#[trigger] patterns@[j]@)) {
                    assert(is_ascii_text(patterns@[i as int]@));
                    assert forall|j: int| 0 <= j < i implies !#[trigger] contains(ascii_lower_seq(text@), ascii_lower_seq(pv[j])) by {
                        assert(is_ascii_text(patterns@[j]@));
                        assert(patterns@[j]@ == pv[j]);
                        assert(!contains(lowercase(text@), lowercase(pv[j])));
                    }
                    assert(contains(ascii_lower_seq(text@), ascii_lower_seq(pv[i as int])));
                }
            }
            return Some(p);
        }
        proof {
            assert(!contains(lowercase(text@), lowercase(pv[i as int])));
        }
        i += 1;
    }
    proof {
        if is_ascii_text(text@) && (forall|j: int| 0 <= j < patterns@.len() ==> is_ascii_text(#[trigger] patterns@[j]@)) {
            assert forall|j: int| 0 <= j < pv.len() implies !#[trigger] contains(ascii_lower_seq(text@), ascii_lower_seq(pv[j])) by {
                assert(is_ascii_text(patterns@[j]@));
                assert(patterns@[j]@ == pv[j]);
                assert(!contains(lowercase(text@), lowercase(pv[j])));
            }
        }
    }
    None
}

// ---------------------------------------------------------------------------
// Shortening text for display
// ---------------------------------------------------------------------------
/// The number of bytes that UTF-8 takes for `c`.
pub open spec fn char_bytes(c: char) -> nat {
    let u = c as u32;
    if u < 0x80 {
        1
    } else if u < 0x800 {
        2
    } else if u < 0x10000 {
        3
    } else {
        4
    }
}

pub fn char_bytes_exec(c: char) -> (r: usize)
    ensures
        r == char_bytes(c),
{
    let u = c as u32;
    if u < 0x80 {
        1
    } else if u < 0x800 {
        2
    } else if u < 0x10000 {
        3
    } else {
        4
    }
}

/// The number of leading characters of `s` that fit in `max` bytes of UTF-8.
pub open spec fn chars_within_bytes(s: Seq<char>, max: int) -> nat
    decreases s.len(),
{
    if s.len() == 0 || char_bytes(s[0]) > max {
        0
    } else {
        1 + chars_within_bytes(s.drop_first(), max - char_bytes(s[0]))
    }
}

/// `s` itself when it has at most `max` characters; else its longest prefix
/// of at most `max` bytes followed by `suffix`.
pub open spec fn truncate_spec(s: Seq<char>, max: int, suffix: Seq<char>) -> Seq<char> {
    if s.len() <= max {
        s
    } else {
        s.subrange(0, chars_within_bytes(s, max) as int) + suffix
    }
}

proof fn lemma_chars_within_bytes_bound(s: Seq<char>, max: int)
    ensures
        chars_within_bytes(s, max) <= s.len(),
    decreases s.len(),
{
    if s.len() > 0 && char_bytes(s[0]) <= max {
        lemma_chars_within_bytes_bound(s.drop_first(), max - char_bytes(s[0]));
    }
}

/// Shortens `value` to at most `max_len` bytes on a character boundary,
/// marking the cut with `suffix`, when it has more than `max_len` characters.
pub fn truncate_with(value: &str, max_len: usize, suffix: &str) -> (r: String)
    ensures
        r@ == truncate_spec(value@, max_len as int, suffix@),
{
    let v = chars_of(value);
    if v.len() <= max_len {
        return str_to_string(value);
    }
    let mut k: usize = 0;
    let mut budget: usize = max_len;
    assert(v@.subrange(0, v.len() as int) =~= v@);
    while k < v.len() && char_bytes_exec(v[k]) <= budget
        invariant
            k <= v.len(),
            budget <= max_len,
            chars_within_bytes(v@, max_len as int) == k + chars_within_bytes(
                v@.subrange(k as int, v.len() as int),
                budget as int,
            ),
        decreases v.len() - k,
    {
        assert(v@.subrange(k as int, v.len() as int).drop_first() =~= v@.subrange(
            k + 1,
            v.len() as int,
        ));
        budget = budget - char_bytes_exec(v[k]);
        k += 1;
    }
    let mut out = slice_chars(&v, 0, k);
    append_str(&mut out, suffix);
    string_of(&out)
}

// ---------------------------------------------------------------------------
// Lexicographic order
// ---------------------------------------------------------------------------
/// `a <= b` in the order of `str`: by code points, a prefix first (which is
/// also the order of the UTF-8 bytes).
pub open spec fn lex_le(a: Seq<char>, b: Seq<char>) -> bool
    decreases a.len(),
{
    if a.len() == 0 {
        true
    } else if b.len() == 0 {
        false
    } else if a[0] != b[0] {
        a[0] < b[0]
    } else {
        lex_le(a.drop_first(), b.drop_first())
    }
}

pub proof fn lemma_lex_refl(a: Seq<char>)
    ensures
        lex_le(a, a),
    decreases a.len(),
{
    if a.len() > 0 {
        lemma_lex_refl(a.drop_first());
    }
}

pub proof fn lemma_lex_total(a: Seq<char>, b: Seq<char>)
    ensures
        lex_le(a, b) || lex_le(b, a),
    decreases a.len(),
{
    if a.len() > 0 && b.len() > 0 {
        if a[0] == b[0] {
            lemma_lex_total(a.drop_first(), b.drop_first());
        }
    }
}

pub proof fn lemma_lex_antisymmetric(a: Seq<char>, b: Seq<char>)
    requires
        lex_le(a, b),
        lex_le(b, a),
    ensures
        a == b,
    decreases a.len(),
{
    if a.len() > 0 && b.len() > 0 {
        lemma_lex_antisymmetric(a.drop_first(), b.drop_first());
        assert(a =~= seq![a[0]] + a.drop_first());
        assert(b =~= seq![b[0]] + b.drop_first());
    }
}

pub proof fn lemma_lex_transitive(a: Seq<char>, b: Seq<char>, c: Seq<char>)
    requires
        lex_le(a, b),
        lex_le(b, c),
    ensures
        lex_le(a, c),
    decreases a.len(),
{
    if a.len() > 0 && b.len() > 0 && c.len() > 0 && a[0] == b[0] && b[0] == c[0] {
        lemma_lex_transitive(a.drop_first(), b.drop_first(), c.drop_first());
    }
}

pub fn lex_le_exec(a: &Vec<char>, b: &Vec<char>) -> (r: bool)
    ensures
        r == lex_le(a@, b@),
{
    let mut i: usize = 0;
    assert(a@.subrange(0, a.len() as int) =~= a@);
    assert(b@.subrange(0, b.len() as int) =~= b@);
    while i < a.len() && i < b.len() && a[i] == b[i]
        invariant
            i <= a.len(),
            i <= b.len(),
            lex_le(a@, b@) == lex_le(a@.subrange(i as int, a.len() as int), b@.subrange(i as int, b.len() as int)),
        decreases a.len() - i,
    {
        assert(a@.subrange(i as int, a.len() as int).drop_first() =~= a@.subrange(i + 1, a.len() as int));
        assert(b@.subrange(i as int, b.len() as int).drop_first() =~= b@.subrange(i + 1, b.len() as int));
        i += 1;
    }
    if i == a.len() {
        true
    } else if i == b.len() {
        false
    } else {
        let x = a[i];
        let y = b[i];
        assert(a@.subrange(i as int, a.len() as int)[0] == x);
        assert(b@.subrange(i as int, b.len() as int)[0] == y);
        x < y
    }
}

// ---------------------------------------------------------------------------
// Port numbers
// ---------------------------------------------------------------------------
pub open spec fn is_digit(c: char) -> bool {
    '0' <= c && c <= '9'
}

/// The value of a decimal digit.
pub open spec fn digit_value(c: char) -> nat {
    if c == '1' {
        1
    } else if c == '2' {
        2
    } else if c == '3' {
        3
    } else if c == '4' {
        4
    } else if c == '5' {
        5
    } else if c == '6' {
        6
    } else if c == '7' {
        7
    } else if c == '8' {
        8
    } else if c == '9' {
        9
    } else {
        0
    }
}

pub fn digit_value_exec(c: char) -> (r: u32)
    ensures
        r == digit_value(c),
{
    if c == '1' {
        1
    } else if c == '2' {
        2
    } else if c == '3' {
        3
    } else if c == '4' {
        4
    } else if c == '5' {
        5
    } else if c == '6' {
        6
    } else if c == '7' {
        7
    } else if c == '8' {
        8
    } else if c == '9' {
        9
    } else {
        0
    }
}

/// The value of a string of decimal digits.
pub open spec fn digits_value(s: Seq<char>) -> nat
    decreases s.len(),
{
    if s.len() == 0 {
        0
    } else {
        digits_value(s.drop_last()) * 10 + digit_value(s.last())
    }
}

/// What `str::parse::<u16>` gives: an optional `+`, then one or more decimal
/// digits whose value fits in 16 bits.
pub open spec fn parse_u16_spec(s: Seq<char>) -> Option<u16> {
    let d = strip_plus(s);
    if d.len() > 0 && all_digits(d) && digits_value(d) <= 65535 {
        Some(digits_value(d) as u16)
    } else {
        None
    }
}

pub open spec fn strip_plus(s: Seq<char>) -> Seq<char> {
    if s.len() > 0 && s[0] == '+' {
        s.drop_first()
    } else {
        s
    }
}

pub open spec fn all_digits(d: Seq<char>) -> bool {
    forall|i: int| 0 <= i < d.len() ==> is_digit(#[trigger] d[i])
}

pub proof fn lemma_digits_value_grows(s: Seq<char>, i: int)
    requires
        0 <= i <= s.len(),
        forall|k: int| 0 <= k < s.len() ==> is_digit(#[trigger] s[k]),
    ensures
        digits_value(s.subrange(0, i)) <= digits_value(s),
    decreases s.len() - i,
{
    if i < s.len() {
        lemma_digits_value_grows(s, i + 1);
        assert(s.subrange(0, i + 1).drop_last() =~= s.subrange(0, i));
    } else {
        assert(s.subrange(0, i) =~= s);
    }
}


/// What `str::parse::<u32>` gives: an optional `+`, then one or more decimal
/// digits whose value fits in 32 bits.
pub open spec fn parse_u32_spec(s: Seq<char>) -> Option<u32> {
    let d = strip_plus(s);
    if d.len() > 0 && all_digits(d) && digits_value(d) <= 4294967295 {
        Some(digits_value(d) as u32)
    } else {
        None
    }
}

pub fn parse_u32_chars(v: &Vec<char>) -> (r: Option<u32>)
    ensures
        r == parse_u32_spec(v@),
{
    let start: usize = if v.len() > 0 && v[0] == '+' {
        1
    } else {
        0
    };
    let ghost d = strip_plus(v@);
    assert(d =~= v@.subrange(start as int, v.len() as int));
    if start == v.len() {
        return None;
    }
    let mut value: u64 = 0;
    let mut i: usize = start;
    while i < v.len()
        invariant
            start <= i <= v.len(),
            d == v@.subrange(start as int, v.len() as int),
            d == strip_plus(v@),
            forall|k: int| start <= k < i ==> is_digit(#[trigger] v@[k]),
            value == digits_value(v@.subrange(start as int, i as int)),
            value <= 4294967295,
        decreases v.len() - i,
    {
        let c = v[i];
        if !('0' <= c && c <= '9') {
            assert(!is_digit(d[i - start]));
            return None;
        }
        let digit = digit_value_exec(c);
        assert(v@.subrange(start as int, i + 1).drop_last() =~= v@.subrange(start as int, i as int));
        if value > 429496729 || (value == 429496729 && digit > 5) {
            proof {
                assert(digits_value(v@.subrange(start as int, i + 1)) > 4294967295);
                if all_digits(d) {
                    assert(d.subrange(0, i + 1 - start) =~= v@.subrange(start as int, i + 1));
                    lemma_digits_value_grows(d, i + 1 - start);
                }
            }
            return None;
        }
        value = value * 10 + digit as u64;
        i += 1;
    }
    assert(all_digits(d)) by {
        assert forall|k: int| 0 <= k < d.len() implies is_digit(#[trigger] d[k]) by {
            assert(d[k] == v@[k + start]);
        }
    }
    assert(v@.subrange(start as int, i as int) =~= d);
    Some(value as u32)
}

} // verus!
