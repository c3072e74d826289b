//! Lines, separated fields and whitespace-separated tokens of command
//! output, as `str::lines`, `str::split`, `str::trim_matches` and
//! `str::split_whitespace` give them.
use vstd::prelude::*;

use crate::text::{chars_of, is_whitespace_char, is_ws, slice_chars, trim_end, trim_start};

verus! {

pub open spec fn vv(v: Seq<Vec<char>>) -> Seq<Seq<char>> {
    v.map_values(|x: Vec<char>| x@)
}

/// The pieces of `s` from position `i` on, the current piece having begun
/// with `cur`, cut at each `sep`.
pub open spec fn pieces_from(s: Seq<char>, sep: char, i: int, cur: Seq<char>) -> Seq<Seq<char>>
    decreases s.len() - i,
{
    if i >= s.len() {
        seq![cur]
    } else if s[i] == sep {
        seq![cur] + pieces_from(s, sep, i + 1, Seq::empty())
    } else {
        pieces_from(s, sep, i + 1, cur.push(s[i]))
    }
}

/// `str::split` on one character: the pieces between the separators, empty
/// ones included; never an empty list.
pub open spec fn split_on(s: Seq<char>, sep: char) -> Seq<Seq<char>> {
    pieces_from(s, sep, 0, Seq::empty())
}

pub fn split_chars(v: &Vec<char>, sep: char) -> (r: Vec<Vec<char>>)
    ensures
        vv(r@) == split_on(v@, sep),
{
    let mut out: Vec<Vec<char>> = Vec::new();
    let mut cur: Vec<char> = Vec::new();
    let mut i: usize = 0;
    while i < v.len()
        invariant
            i <= v.len(),
            vv(out@) + pieces_from(v@, sep, i as int, cur@) == split_on(v@, sep),
        decreases v.len() - i,
    {
        let ghost before = vv(out@);
        let ghost rest = pieces_from(v@, sep, i + 1, Seq::empty());
        if v[i] == sep {
            let piece = cur;
            cur = Vec::new();
            out.push(piece);
            assert(vv(out@) =~= before.push(piece@));
            assert(before + (seq![piece@] + rest) =~= before.push(piece@) + rest);
        } else {
            cur.push(v[i]);
        }
        i += 1;
    }
    let ghost before = vv(out@);
    out.push(cur);
    assert(vv(out@) =~= before + seq![cur@]);
    out
}

/// A line without the `\r` of a `\r\n` ending.
pub open spec fn strip_cr(l: Seq<char>) -> Seq<char> {
    if l.len() > 0 && l.last() == '\r' {
        l.drop_last()
    } else {
        l
    }
}

/// Line `j` of the pieces `p` cut at `\n`: every piece but the last was
/// ended by `\n`, and loses the `\r` of a `\r\n` ending.
pub open spec fn line_of(p: Seq<Seq<char>>, j: int) -> Seq<char> {
    if j < p.len() - 1 {
        strip_cr(p[j])
    } else {
        p[j]
    }
}

/// `str::lines`: the lines of `s` without their `\n` or `\r\n` endings, the
/// final ending being optional; a lone `\r` at the very end stays.
pub open spec fn std_lines(s: Seq<char>) -> Seq<Seq<char>> {
    let p = split_on(s, '\n');
    let n = if p.last().len() == 0 {
        p.len() - 1
    } else {
        p.len() as int
    };
    Seq::new(n as nat, |j: int| line_of(p, j))
}

proof fn lemma_pieces_nonempty(s: Seq<char>, sep: char, i: int, cur: Seq<char>)
    ensures
        pieces_from(s, sep, i, cur).len() >= 1,
    decreases s.len() - i,
{
    if i < s.len() {
        if s[i] == sep {
            lemma_pieces_nonempty(s, sep, i + 1, Seq::empty());
        } else {
            lemma_pieces_nonempty(s, sep, i + 1, cur.push(s[i]));
        }
    }
}

fn strip_cr_exec(l: &Vec<char>) -> (r: Vec<char>)
    ensures
        r@ == strip_cr(l@),
{
    if l.len() > 0 && l[l.len() - 1] == '\r' {
        slice_chars(l, 0, l.len() - 1)
    } else {
        slice_chars(l, 0, l.len())
    }
}

pub fn std_lines_exec(text: &str) -> (r: Vec<Vec<char>>)
    ensures
        vv(r@) == std_lines(text@),
{
    let v = chars_of(text);
    let p = split_chars(&v, '\n');
    proof {
        lemma_pieces_nonempty(v@, '\n', 0, Seq::empty());
    }
    let ghost ps = vv(p@);
    let kept_len: usize = if p[p.len() - 1].len() == 0 {
        p.len() - 1
    } else {
        p.len()
    };
    let mut out: Vec<Vec<char>> = Vec::new();
    let mut i: usize = 0;
    while i < kept_len
        invariant
            ps == vv(p@),
            ps == split_on(text@, '\n'),
            kept_len <= p@.len(),
            i <= kept_len,
            vv(out@) =~= Seq::new(i as nat, |j: int| line_of(ps, j)),
        decreases kept_len - i,
    {
        let line = if i + 1 < p.len() {
            strip_cr_exec(&p[i])
        } else {
            slice_chars(&p[i], 0, p[i].len())
        };
        assert(line@ == line_of(ps, i as int));
        let ghost prev = vv(out@);
        out.push(line);
        assert(vv(out@) =~= prev.push(line@));
        i += 1;
    }
    assert(vv(out@) =~= std_lines(text@));
    out
}

// ---------------------------------------------------------------------------
// Stripping one character from both ends
// ---------------------------------------------------------------------------
pub open spec fn strip_leading(s: Seq<char>, c: char) -> Seq<char>
    decreases s.len(),
{
    if s.len() > 0 && s[0] == c {
        strip_leading(s.drop_first(), c)
    } else {
        s
    }
}

pub open spec fn strip_trailing(s: Seq<char>, c: char) -> Seq<char>
    decreases s.len(),
{
    if s.len() > 0 && s.last() == c {
        strip_trailing(s.drop_last(), c)
    } else {
        s
    }
}

/// `str::trim_matches` with one character.
pub open spec fn trim_matches(s: Seq<char>, c: char) -> Seq<char> {
    strip_trailing(strip_leading(s, c), c)
}

pub fn trim_matches_exec(s: &Vec<char>, c: char) -> (r: Vec<char>)
    ensures
        r@ == trim_matches(s@, c),
{
    let n = s.len();
    let mut i: usize = 0;
    assert(s@.subrange(0, n as int) =~= s@);
    while i < n && s[i] == c
        invariant
            n == s.len(),
            i <= n,
            strip_leading(s@, c) == strip_leading(s@.subrange(i as int, n as int), c),
        decreases n - i,
    {
        assert(s@.subrange(i as int + 1, n as int) =~= s@.subrange(i as int, n as int).drop_first());
        i += 1;
    }
    let ghost rest = s@.subrange(i as int, n as int);
    assert(strip_leading(rest, c) == rest);
    let mut j: usize = n;
    while j > i && s[j - 1] == c
        invariant
            n == s.len(),
            i <= j <= n,
            rest == s@.subrange(i as int, n as int),
            strip_trailing(rest, c) == strip_trailing(s@.subrange(i as int, j as int), c),
        decreases j,
    {
        assert(s@.subrange(i as int, j - 1) =~= s@.subrange(i as int, j as int).drop_last());
        j -= 1;
    }
    assert(strip_trailing(s@.subrange(i as int, j as int), c) == s@.subrange(i as int, j as int));
    slice_chars(s, i, j)
}

// ---------------------------------------------------------------------------
// Whitespace-separated tokens
// ---------------------------------------------------------------------------
/// The leading run of `s` without white space.
pub open spec fn leading_word(s: Seq<char>) -> Seq<char>
    decreases s.len(),
{
    if s.len() > 0 && !is_ws(s[0]) {
        seq![s[0]] + leading_word(s.drop_first())
    } else {
        Seq::empty()
    }
}

/// The trailing run of `s` without white space.
pub open spec fn trailing_word(s: Seq<char>) -> Seq<char>
    decreases s.len(),
{
    if s.len() > 0 && !is_ws(s.last()) {
        trailing_word(s.drop_last()).push(s.last())
    } else {
        Seq::empty()
    }
}

/// `split_whitespace().next()`: the first token.
pub open spec fn first_token(s: Seq<char>) -> Option<Seq<char>> {
    let t = trim_start(s);
    if t.len() == 0 {
        None
    } else {
        Some(leading_word(t))
    }
}

/// `split_whitespace().last()`: the last token.
pub open spec fn last_token(s: Seq<char>) -> Option<Seq<char>> {
    let t = trim_end(s);
    if t.len() == 0 {
        None
    } else {
        Some(trailing_word(t))
    }
}

/// The first position at or after `from` that is not white space.
fn skip_ws(s: &Vec<char>, from: usize) -> (r: usize)
    requires
        from <= s.len(),
    ensures
        from <= r <= s.len(),
        trim_start(s@.subrange(from as int, s.len() as int)) == s@.subrange(r as int, s.len() as int),
{
    let n = s.len();
    let mut i: usize = from;
    while i < n && is_whitespace_char(s[i])
        invariant
            n == s.len(),
            from <= i <= n,
            trim_start(s@.subrange(from as int, n as int)) == trim_start(s@.subrange(i as int, n as int)),
        decreases n - i,
    {
        assert(s@.subrange(i as int + 1, n as int) =~= s@.subrange(i as int, n as int).drop_first());
        i += 1;
    }
    i
}

/// The end of the run without white space that begins at `from`.
fn word_end(s: &Vec<char>, from: usize) -> (r: usize)
    requires
        from <= s.len(),
    ensures
        from <= r <= s.len(),
        leading_word(s@.subrange(from as int, s.len() as int)) == s@.subrange(from as int, r as int),
{
    let n = s.len();
    let mut j: usize = from;
    while j < n && !is_whitespace_char(s[j])
        invariant
            n == s.len(),
            from <= j <= n,
            leading_word(s@.subrange(from as int, n as int)) == s@.subrange(from as int, j as int)
                + leading_word(s@.subrange(j as int, n as int)),
        decreases n - j,
    {
        assert(s@.subrange(j as int + 1, n as int) =~= s@.subrange(j as int, n as int).drop_first());
        assert(s@.subrange(from as int, j + 1) =~= s@.subrange(from as int, j as int) + seq![s@[j as int]]);
        assert(s@.subrange(from as int, j as int) + (seq![s@[j as int]] + leading_word(s@.subrange(j + 1, n as int)))
            =~= s@.subrange(from as int, j + 1) + leading_word(s@.subrange(j + 1, n as int)));
        j += 1;
    }
    assert(leading_word(s@.subrange(j as int, n as int)) =~= Seq::<char>::empty());
    assert(s@.subrange(from as int, j as int) + Seq::<char>::empty() =~= s@.subrange(from as int, j as int));
    j
}

pub fn first_token_exec(s: &Vec<char>) -> (r: Option<Vec<char>>)
    ensures
        match r {
            Some(t) => first_token(s@) == Some(t@),
            None => first_token(s@) is None,
        },
{
    assert(s@.subrange(0, s.len() as int) =~= s@);
    let i = skip_ws(s, 0);
    if i == s.len() {
        return None;
    }
    let j = word_end(s, i);
    Some(slice_chars(s, i, j))
}

/// The last position at or before `upto` after which only white space
/// follows, up to `upto`.
fn skip_ws_back(s: &Vec<char>, upto: usize) -> (r: usize)
    requires
        upto <= s.len(),
    ensures
        r <= upto,
        trim_end(s@.subrange(0, upto as int)) == s@.subrange(0, r as int),
{
    let mut j: usize = upto;
    while j > 0 && is_whitespace_char(s[j - 1])
        invariant
            upto <= s.len(),
            j <= upto,
            trim_end(s@.subrange(0, upto as int)) == trim_end(s@.subrange(0, j as int)),
        decreases j,
    {
        assert(s@.subrange(0, j - 1) =~= s@.subrange(0, j as int).drop_last());
        j -= 1;
    }
    j
}

/// The start of the run without white space that ends at `upto`.
fn word_start(s: &Vec<char>, upto: usize) -> (r: usize)
    requires
        upto <= s.len(),
    ensures
        r <= upto,
        trailing_word(s@.subrange(0, upto as int)) == s@.subrange(r as int, upto as int),
{
    let mut i: usize = upto;
    while i > 0 && !is_whitespace_char(s[i - 1])
        invariant
            upto <= s.len(),
            i <= upto,
            trailing_word(s@.subrange(0, upto as int)) == trailing_word(s@.subrange(0, i as int))
                + s@.subrange(i as int, upto as int),
        decreases i,
    {
        assert(s@.subrange(0, i - 1) =~= s@.subrange(0, i as int).drop_last());
        assert(trailing_word(s@.subrange(0, i - 1)).push(s@[i - 1]) + s@.subrange(i as int, upto as int)
            =~= trailing_word(s@.subrange(0, i - 1)) + s@.subrange(i - 1, upto as int));
        i -= 1;
    }
    assert(trailing_word(s@.subrange(0, i as int)) =~= Seq::<char>::empty());
    assert(Seq::<char>::empty() + s@.subrange(i as int, upto as int) =~= s@.subrange(i as int, upto as int));
    i
}

pub fn last_token_exec(s: &Vec<char>) -> (r: Option<Vec<char>>)
    ensures
        match r {
            Some(t) => last_token(s@) == Some(t@),
            None => last_token(s@) is None,
        },
{
    assert(s@.subrange(0, s.len() as int) =~= s@);
    let j = skip_ws_back(s, s.len());
    if j == 0 {
        return None;
    }
    let i = word_start(s, j);
    Some(slice_chars(s, i, j))
}

} // verus!
