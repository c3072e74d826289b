//! The logic of the local web UI server: hiding secrets in what is logged,
//! and deciding what a request is answered with.
use vstd::prelude::*;

use crate::fields::{pieces_from, split_on};
use crate::fsutil::{extension_spec, portable_path};
use crate::text::{
    append_chars, append_str, chars_of, find_from, find_from_spec, is_whitespace_char, is_ws,
    lemma_find_from_props, occurs_at, slice_chars, str_eq, str_to_string, string_of,
};

verus! {

// ---------------------------------------------------------------------------
// Redaction
// ---------------------------------------------------------------------------
pub open spec fn redacted_mark() -> Seq<char> {
    "<redacted>"@
}

/// The first index at or after `from` that holds `c`.
pub open spec fn find_char_spec(h: Seq<char>, c: char, from: int) -> Option<int> {
    find_from_spec(h, seq![c], from)
}

/// `h` from `cursor` on, with the quoted value that follows each occurrence
/// of `p` replaced by `<redacted>`: after the occurrence, the text up to and
/// including the next `"` is kept, then the value up to the following `"` is
/// replaced.  Where a quote is missing, the search goes on after what was
/// found.
#[verifier::opaque]
pub open spec fn redact_quoted_spec(h: Seq<char>, p: Seq<char>, cursor: int) -> Seq<char>
    decreases h.len() - cursor,
    when 0 <= cursor <= h.len() && p.len() > 0
    via redact_quoted_decreases
{
    match find_from_spec(h, p, cursor) {
        None => h.subrange(cursor, h.len() as int),
        Some(start) => {
            let sf = start + p.len();
            match find_char_spec(h, '"', sf) {
                None => h.subrange(cursor, sf) + redact_quoted_spec(h, p, sf),
                Some(vs) => match find_char_spec(h, '"', vs + 1) {
                    None => h.subrange(cursor, vs + 1) + redact_quoted_spec(h, p, vs + 1),
                    Some(ve) => h.subrange(cursor, vs + 1) + redacted_mark() + redact_quoted_spec(
                        h,
                        p,
                        ve,
                    ),
                },
            }
        },
    }
}

#[via_fn]
proof fn redact_quoted_decreases(h: Seq<char>, p: Seq<char>, cursor: int) {
    lemma_find_from_props(h, p, cursor);
    if let Some(start) = find_from_spec(h, p, cursor) {
        let sf = start + p.len();
        lemma_find_from_props(h, seq!['"'], sf);
        if let Some(vs) = find_char_spec(h, '"', sf) {
            lemma_find_from_props(h, seq!['"'], vs + 1);
        }
    }
}

/// Whether `c` ends a token after a marker.
pub open spec fn ends_token(c: char) -> bool {
    is_ws(c) || c == '"' || c == '\'' || c == ',' || c == ';' || c == ')' || c == ']' || c == '}'
}

/// The first index at or after `from` whose character ends a token, or the
/// length of `h` when none does.
pub open spec fn token_end(h: Seq<char>, from: int) -> int
    decreases h.len() - from,
{
    if from >= h.len() {
        h.len() as int
    } else if ends_token(h[from]) {
        from
    } else {
        token_end(h, from + 1)
    }
}

proof fn lemma_token_end_bounds(h: Seq<char>, from: int)
    requires
        0 <= from <= h.len(),
    ensures
        from <= token_end(h, from) <= h.len(),
    decreases h.len() - from,
{
    if from < h.len() && !ends_token(h[from]) {
        lemma_token_end_bounds(h, from + 1);
    }
}

/// `h` from `cursor` on, with the token after each occurrence of `m`
/// replaced by `<redacted>`.
#[verifier::opaque]
pub open spec fn redact_token_spec(h: Seq<char>, m: Seq<char>, cursor: int) -> Seq<char>
    decreases h.len() - cursor,
    when 0 <= cursor <= h.len() && m.len() > 0
    via redact_token_decreases
{
    match find_from_spec(h, m, cursor) {
        None => h.subrange(cursor, h.len() as int),
        Some(start) => {
            let vs = start + m.len();
            h.subrange(cursor, vs) + redacted_mark() + redact_token_spec(h, m, token_end(h, vs))
        },
    }
}

#[via_fn]
proof fn redact_token_decreases(h: Seq<char>, m: Seq<char>, cursor: int) {
    lemma_find_from_props(h, m, cursor);
    if let Some(start) = find_from_spec(h, m, cursor) {
        lemma_token_end_bounds(h, start + m.len());
    }
}

fn find_char(h: &Vec<char>, c: char, from: usize) -> (r: Option<usize>)
    ensures
        match r {
            Some(i) => find_char_spec(h@, c, from as int) == Some(i as int),
            None => find_char_spec(h@, c, from as int) is None,
        },
{
    let mut n: Vec<char> = Vec::new();
    n.push(c);
    assert(n@ =~= seq![c]);
    find_from(h, &n, from)
}

/// One step of the quoted-value redaction from `cursor`: the text to emit
/// and where to go on, or `None` when no occurrence is left.
pub open spec fn quoted_next(h: Seq<char>, p: Seq<char>, cursor: int) -> Option<(Seq<char>, int)> {
    match find_from_spec(h, p, cursor) {
        None => None,
        Some(start) => {
            let sf = start + p.len();
            match find_char_spec(h, '"', sf) {
                None => Some((h.subrange(cursor, sf), sf)),
                Some(vs) => match find_char_spec(h, '"', vs + 1) {
                    None => Some((h.subrange(cursor, vs + 1), vs + 1)),
                    Some(ve) => Some((h.subrange(cursor, vs + 1) + redacted_mark(), ve)),
                },
            }
        },
    }
}

proof fn lemma_redact_quoted_step(h: Seq<char>, p: Seq<char>, cursor: int)
    requires
        0 <= cursor <= h.len(),
        p.len() > 0,
    ensures
        match quoted_next(h, p, cursor) {
            None => redact_quoted_spec(h, p, cursor) == h.subrange(cursor, h.len() as int),
            Some((seg, next)) => {
                &&& cursor < next <= h.len()
                &&& redact_quoted_spec(h, p, cursor) == seg + redact_quoted_spec(h, p, next)
            },
        },
{
    reveal(redact_quoted_spec);
    lemma_find_from_props(h, p, cursor);
    if let Some(start) = find_from_spec(h, p, cursor) {
        let sf = start + p.len();
        lemma_find_from_props(h, seq!['"'], sf);
        if let Some(vs) = find_char_spec(h, '"', sf) {
            lemma_find_from_props(h, seq!['"'], vs + 1);
            if let Some(ve) = find_char_spec(h, '"', vs + 1) {
                assert(h.subrange(cursor, vs + 1) + redacted_mark() + redact_quoted_spec(h, p, ve)
                    =~= (h.subrange(cursor, vs + 1) + redacted_mark()) + redact_quoted_spec(h, p, ve));
            }
        }
    }
}

fn quoted_next_exec(h: &Vec<char>, p: &Vec<char>, mark: &Vec<char>, cursor: usize) -> (r: Option<(Vec<char>, usize)>)
    requires
        cursor <= h.len(),
        p.len() > 0,
        mark@ == redacted_mark(),
    ensures
        match r {
            None => quoted_next(h@, p@, cursor as int) is None,
            Some((seg, next)) => quoted_next(h@, p@, cursor as int) == Some((seg@, next as int)),
        },
{
    proof {
        lemma_find_from_props(h@, p@, cursor as int);
    }
    match find_from(h, p, cursor) {
        None => None,
        Some(start) => {
            let sf = start + p.len();
            proof {
                lemma_find_from_props(h@, seq!['"'], sf as int);
            }
            match find_char(h, '"', sf) {
                None => Some((slice_chars(h, cursor, sf), sf)),
                Some(vs) => {
                    proof {
                        lemma_find_from_props(h@, seq!['"'], vs + 1);
                    }
                    let mut seg = slice_chars(h, cursor, vs + 1);
                    match find_char(h, '"', vs + 1) {
                        None => Some((seg, vs + 1)),
                        Some(ve) => {
                            append_chars(&mut seg, mark);
                            Some((seg, ve))
                        },
                    }
                },
            }
        },
    }
}

/// Replaces the quoted value after each occurrence of `pattern`.
#[verifier::rlimit(40)]
pub fn redact_quoted_value_after_pattern(input: &str, pattern: &str) -> (r: String)
    requires
        pattern@.len() > 0,
    ensures
        r@ == redact_quoted_spec(input@, pattern@, 0),
{
    let h = chars_of(input);
    let p = chars_of(pattern);
    let mark = chars_of("<redacted>");
    let mut result: Vec<char> = Vec::new();
    let mut cursor: usize = 0;
    loop
        invariant_except_break
            cursor <= h.len(),
            p@.len() > 0,
            mark@ == redacted_mark(),
            redact_quoted_spec(h@, p@, 0) == result@ + redact_quoted_spec(h@, p@, cursor as int),
        ensures
            result@ == redact_quoted_spec(h@, p@, 0),
        decreases h.len() - cursor,
    {
        proof {
            lemma_redact_quoted_step(h@, p@, cursor as int);
        }
        let ghost before = result@;
        let ghost tail = redact_quoted_spec(h@, p@, cursor as int);
        assert(redact_quoted_spec(h@, p@, 0) == before + tail);
        match quoted_next_exec(&h, &p, &mark, cursor) {
            None => {
                let rest = slice_chars(&h, cursor, h.len());
                assert(tail == rest@);
                append_chars(&mut result, &rest);
                assert(result@ == before + tail);
                break ;
            },
            Some((seg, next)) => {
                let ghost after = redact_quoted_spec(h@, p@, next as int);
                assert(tail == seg@ + after);
                append_chars(&mut result, &seg);
                assert(before + (seg@ + after) =~= result@ + after);
                cursor = next;
            },
        }
    }
    string_of(&result)
}

proof fn lemma_redact_token_step(h: Seq<char>, m: Seq<char>, cursor: int)
    requires
        0 <= cursor <= h.len(),
        m.len() > 0,
    ensures
        match find_from_spec(h, m, cursor) {
            None => redact_token_spec(h, m, cursor) == h.subrange(cursor, h.len() as int),
            Some(start) => {
                let vs = start + m.len();
                &&& cursor <= start
                &&& vs <= h.len()
                &&& vs <= token_end(h, vs) <= h.len()
                &&& redact_token_spec(h, m, cursor) == h.subrange(cursor, vs) + redacted_mark()
                    + redact_token_spec(h, m, token_end(h, vs))
            },
        },
{
    reveal(redact_token_spec);
    lemma_find_from_props(h, m, cursor);
    if let Some(start) = find_from_spec(h, m, cursor) {
        lemma_token_end_bounds(h, start + m.len());
    }
}

fn ends_token_exec(c: char) -> (r: bool)
    ensures
        r == ends_token(c),
{
    is_whitespace_char(c) || c == '"' || c == '\'' || c == ',' || c == ';' || c == ')' || c == ']'
        || c == '}'
}

fn token_end_exec(h: &Vec<char>, from: usize) -> (r: usize)
    requires
        from <= h.len(),
    ensures
        r == token_end(h@, from as int),
{
    let mut i = from;
    while i < h.len() && !ends_token_exec(h[i])
        invariant
            from <= i <= h.len(),
            token_end(h@, from as int) == token_end(h@, i as int),
        decreases h.len() - i,
    {
        i += 1;
    }
    i
}

/// Replaces the token after each occurrence of `marker`.
#[verifier::spinoff_prover]
#[verifier::rlimit(60)]
pub fn redact_token_after_marker(input: &str, marker: &str) -> (r: String)
    requires
        marker@.len() > 0,
    ensures
        r@ == redact_token_spec(input@, marker@, 0),
{
    let h = chars_of(input);
    let m = chars_of(marker);
    let mark = chars_of("<redacted>");
    let mut result: Vec<char> = Vec::new();
    let mut cursor: usize = 0;
    loop
        invariant_except_break
            cursor <= h.len(),
            m@.len() > 0,
            mark@ == redacted_mark(),
            redact_token_spec(h@, m@, 0) == result@ + redact_token_spec(h@, m@, cursor as int),
        ensures
            result@ == redact_token_spec(h@, m@, 0),
        decreases h.len() - cursor,
    {
        proof {
            lemma_redact_token_step(h@, m@, cursor as int);
        }
        let ghost before = result@;
        match find_from(&h, &m, cursor) {
            None => {
                let rest = slice_chars(&h, cursor, h.len());
                append_chars(&mut result, &rest);
                assert(result@ =~= redact_token_spec(h@, m@, 0));
                break ;
            },
            Some(start) => {
                let vs = start + m.len();
                let seg = slice_chars(&h, cursor, vs);
                append_chars(&mut result, &seg);
                append_chars(&mut result, &mark);
                let ve = token_end_exec(&h, vs);
                assert(before + (h@.subrange(cursor as int, vs as int) + redacted_mark() + redact_token_spec(h@, m@, ve as int)) =~= result@ + redact_token_spec(h@, m@, ve as int));
                cursor = ve;
            },
        }
    }
    string_of(&result)
}

/// The four forms in which a field can be followed by its value:
/// `"f":`, `"f" =`, `f:` and `f =`.
pub open spec fn field_patterns(f: Seq<char>) -> Seq<Seq<char>> {
    seq![
        seq!['"'] + f + seq!['"', ':'],
        seq!['"'] + f + seq!['"', ' ', '='],
        f + seq![':'],
        f + seq![' ', '='],
    ]
}

/// Applies the quoted-value redaction for each pattern in turn.
pub open spec fn redact_quoted_all(h: Seq<char>, ps: Seq<Seq<char>>) -> Seq<char>
    decreases ps.len(),
{
    if ps.len() == 0 {
        h
    } else {
        redact_quoted_all(redact_quoted_spec(h, ps[0], 0), ps.drop_first())
    }
}

/// Redacts the quoted value of field `field_name` in each of its forms.
pub fn redact_quoted_field(input: &str, field_name: &str) -> (r: String)
    ensures
        r@ == redact_quoted_all(input@, field_patterns(field_name@)),
{
    let f = chars_of(field_name);
    let mut p1: Vec<char> = Vec::new();
    p1.push('"');
    append_chars(&mut p1, &f);
    p1.push('"');
    p1.push(':');
    let mut p2: Vec<char> = Vec::new();
    p2.push('"');
    append_chars(&mut p2, &f);
    p2.push('"');
    p2.push(' ');
    p2.push('=');
    let mut p3: Vec<char> = Vec::new();
    append_chars(&mut p3, &f);
    p3.push(':');
    let mut p4: Vec<char> = Vec::new();
    append_chars(&mut p4, &f);
    p4.push(' ');
    p4.push('=');
    let ghost ps = field_patterns(field_name@);
    assert(p1@ =~= ps[0]);
    assert(p2@ =~= ps[1]);
    assert(p3@ =~= ps[2]);
    assert(p4@ =~= ps[3]);
    let r1 = redact_quoted_value_after_pattern(input, string_of(&p1).as_str());
    let r2 = redact_quoted_value_after_pattern(r1.as_str(), string_of(&p2).as_str());
    let r3 = redact_quoted_value_after_pattern(r2.as_str(), string_of(&p3).as_str());
    let r4 = redact_quoted_value_after_pattern(r3.as_str(), string_of(&p4).as_str());
    proof {
        reveal_with_fuel(redact_quoted_all, 5);
        assert(ps.drop_first().drop_first().drop_first().drop_first() =~= Seq::<Seq<char>>::empty());
        assert(ps.drop_first()[0] == ps[1]);
        assert(ps.drop_first().drop_first()[0] == ps[2]);
        assert(ps.drop_first().drop_first().drop_first()[0] == ps[3]);
    }
    r4
}

/// The fields whose quoted values are hidden.
pub open spec fn secret_fields() -> Seq<Seq<char>> {
    seq!["apiKey"@, "api_key"@, "OPENAI_API_KEY"@]
}

/// The markers whose following token is hidden.
pub open spec fn secret_markers() -> Seq<Seq<char>> {
    seq!["Bearer "@, "OPENAI_API_KEY="@, "OPENAI_API_KEY: "@, "apiKey="@, "api_key="@]
}

pub open spec fn redact_fields_all(h: Seq<char>, fs: Seq<Seq<char>>) -> Seq<char>
    decreases fs.len(),
{
    if fs.len() == 0 {
        h
    } else {
        redact_fields_all(redact_quoted_all(h, field_patterns(fs[0])), fs.drop_first())
    }
}

pub open spec fn redact_tokens_all(h: Seq<char>, ms: Seq<Seq<char>>) -> Seq<char>
    decreases ms.len(),
{
    if ms.len() == 0 {
        h
    } else {
        redact_tokens_all(redact_token_spec(h, ms[0], 0), ms.drop_first())
    }
}

/// What is logged of `input`: the values of the secret fields and the
/// tokens after the secret markers replaced by `<redacted>`.
pub open spec fn redact_sensitive_spec(h: Seq<char>) -> Seq<char> {
    redact_tokens_all(redact_fields_all(h, secret_fields()), secret_markers())
}

pub fn redact_sensitive_text(input: &str) -> (r: String)
    ensures
        r@ == redact_sensitive_spec(input@),
{
    let fields: [&str; 3] = ["apiKey", "api_key", "OPENAI_API_KEY"];
    let mut redacted = str_to_string(input);
    let mut i: usize = 0;
    let ghost fs = secret_fields();
    assert(fs.subrange(0, 3) =~= fs);
    while i < 3
        invariant
            i <= 3,
            fs == secret_fields(),
            forall|k: int| 0 <= k < 3 ==> #[trigger] fields@[k]@ == fs[k],
            redact_fields_all(input@, fs) == redact_fields_all(redacted@, fs.subrange(i as int, 3)),
        decreases 3 - i,
    {
        let f = fields[i];
        assert(fs.subrange(i as int, 3).drop_first() =~= fs.subrange(i + 1, 3));
        redacted = redact_quoted_field(redacted.as_str(), f);
        i += 1;
    }
    let markers: [&str; 5] = ["Bearer ", "OPENAI_API_KEY=", "OPENAI_API_KEY: ", "apiKey=", "api_key="];
    let ghost ms = secret_markers();
    let ghost after_fields = redacted@;
    assert(fs.subrange(3, 3) =~= Seq::<Seq<char>>::empty());
    proof {
        reveal_strlit("Bearer ");
        reveal_strlit("OPENAI_API_KEY=");
        reveal_strlit("OPENAI_API_KEY: ");
        reveal_strlit("apiKey=");
        reveal_strlit("api_key=");
    }
    let mut j: usize = 0;
    assert(ms.subrange(0, 5) =~= ms);
    while j < 5
        invariant
            j <= 5,
            ms == secret_markers(),
            forall|k: int| 0 <= k < 5 ==> #[trigger] markers@[k]@ == ms[k],
            forall|k: int| 0 <= k < 5 ==> #[trigger] ms[k].len() > 0,
            redact_tokens_all(after_fields, ms) == redact_tokens_all(redacted@, ms.subrange(j as int, 5)),
        decreases 5 - j,
    {
        let m = markers[j];
        assert(ms.subrange(j as int, 5).drop_first() =~= ms.subrange(j + 1, 5));
        assert(m@.len() > 0);
        redacted = redact_token_after_marker(redacted.as_str(), m);
        j += 1;
    }
    assert(ms.subrange(5, 5) =~= Seq::<Seq<char>>::empty());
    redacted
}

/// Text in which no marker occurs passes the token redaction unchanged.
pub proof fn law_token_redaction_leaves_clean_text(h: Seq<char>, m: Seq<char>)
    requires
        m.len() > 0,
        forall|i: int| !#[trigger] occurs_at(h, m, i),
    ensures
        redact_token_spec(h, m, 0) == h,
{
    lemma_redact_token_step(h, m, 0);
    lemma_find_from_props(h, m, 0);
    assert(h.subrange(0, h.len() as int) =~= h);
}

/// Text in which no pattern occurs passes the quoted-value redaction
/// unchanged.
pub proof fn law_quoted_redaction_leaves_clean_text(h: Seq<char>, p: Seq<char>)
    requires
        p.len() > 0,
        forall|i: int| !#[trigger] occurs_at(h, p, i),
    ensures
        redact_quoted_spec(h, p, 0) == h,
{
    lemma_redact_quoted_step(h, p, 0);
    lemma_find_from_props(h, p, 0);
    assert(h.subrange(0, h.len() as int) =~= h);
}

// ---------------------------------------------------------------------------
// Static files
// ---------------------------------------------------------------------------
/// The media type of a file with extension `ext`.
pub open spec fn content_type_spec(ext: Option<Seq<char>>) -> Seq<char> {
    match ext {
        Some(e) => if e == "html"@ {
            "text/html; charset=utf-8"@
        } else if e == "js"@ || e == "mjs"@ {
            "application/javascript; charset=utf-8"@
        } else if e == "css"@ {
            "text/css"@
        } else if e == "json"@ {
            "application/json"@
        } else if e == "png"@ {
            "image/png"@
        } else if e == "jpg"@ || e == "jpeg"@ {
            "image/jpeg"@
        } else if e == "svg"@ {
            "image/svg+xml"@
        } else if e == "ico"@ {
            "image/x-icon"@
        } else if e == "woff2"@ {
            "font/woff2"@
        } else if e == "woff"@ {
            "font/woff"@
        } else if e == "ttf"@ {
            "font/ttf"@
        } else {
            "application/octet-stream"@
        },
        None => "application/octet-stream"@,
    }
}

/// The media type to serve a file with, by its extension.
pub fn content_type_for_extension(ext: Option<&str>) -> (r: String)
    ensures
        r@ == content_type_spec(
            match ext {
                Some(e) => Some(e@),
                None => None,
            },
        ),
{
    let Some(e) = ext else {
        return str_to_string("application/octet-stream");
    };
    if str_eq(e, "html") {
        str_to_string("text/html; charset=utf-8")
    } else if str_eq(e, "js") || str_eq(e, "mjs") {
        str_to_string("application/javascript; charset=utf-8")
    } else if str_eq(e, "css") {
        str_to_string("text/css")
    } else if str_eq(e, "json") {
        str_to_string("application/json")
    } else if str_eq(e, "png") {
        str_to_string("image/png")
    } else if str_eq(e, "jpg") || str_eq(e, "jpeg") {
        str_to_string("image/jpeg")
    } else if str_eq(e, "svg") {
        str_to_string("image/svg+xml")
    } else if str_eq(e, "ico") {
        str_to_string("image/x-icon")
    } else if str_eq(e, "woff2") {
        str_to_string("font/woff2")
    } else if str_eq(e, "woff") {
        str_to_string("font/woff")
    } else if str_eq(e, "ttf") {
        str_to_string("font/ttf")
    } else {
        str_to_string("application/octet-stream")
    }
}

/// Calls `Path::extension` and turns it into text.  Claimed, from the
/// documentation of `Path::components`, `Path::file_name` and
/// `Path::extension`: for a portable path (see `portable_path`) the file
/// name is the last `/`-separated part that is neither empty nor `.`, none
/// when that part is `..`, and the extension is what follows the name's last
/// `.`, none when the name has no `.` or begins with its only `.`.  Other
/// paths are read by the platform's own rules, which are not stated.
#[verifier::external_body]
fn path_extension(path: &str) -> (r: Option<String>)
    ensures
        portable_path(path@) ==> crate::config::opt_view(r) == extension_spec(path@),
{
    std::path::Path::new(path).extension().map(|e| e.to_string_lossy().into_owned())
}

/// The media type to serve the file at `path` with: by its extension, which
/// for a portable path is `extension_spec`.
pub fn content_type_for(path: &str) -> (r: String)
    ensures
        exists|ext: Option<Seq<char>>| r@ == content_type_spec(ext),
        portable_path(path@) ==> r@ == content_type_spec(extension_spec(path@)),
{
    let ext = path_extension(path);
    match &ext {
        Some(e) => content_type_for_extension(Some(e.as_str())),
        None => content_type_for_extension(None),
    }
}

// ---------------------------------------------------------------------------
// Routing requests
// ---------------------------------------------------------------------------
/// The largest RPC body that the server reads, in bytes.
pub const MAX_RPC_BODY_BYTES: usize = 65536;

/// `s` without the repeated prefix `p` (`str::trim_start_matches`).
pub open spec fn strip_prefix_rep(s: Seq<char>, p: Seq<char>) -> Seq<char>
    decreases s.len(),
{
    if p.len() > 0 && s.len() >= p.len() && s.subrange(0, p.len() as int) == p {
        strip_prefix_rep(s.subrange(p.len() as int, s.len() as int), p)
    } else {
        s
    }
}

fn strip_prefix_rep_exec(s: &Vec<char>, p: &str) -> (r: Vec<char>)
    ensures
        r@ == strip_prefix_rep(s@, p@),
{
    let pv = chars_of(p);
    let n = s.len();
    let m = pv.len();
    let mut i: usize = 0;
    assert(s@.subrange(0, n as int) =~= s@);
    while m > 0 && n - i >= m && crate::text::occurs_at_exec(s, &pv, i)
        invariant
            n == s.len(),
            m == pv.len(),
            pv@ == p@,
            i <= n,
            strip_prefix_rep(s@, p@) == strip_prefix_rep(s@.subrange(i as int, n as int), p@),
        decreases n - i,
    {
        assert(s@.subrange(i as int, n as int).subrange(0, m as int) =~= s@.subrange(i as int, i + m));
        assert(s@.subrange(i as int, n as int).subrange(m as int, n - i) =~= s@.subrange(i + m, n as int));
        i = i + m;
    }
    proof {
        let t = s@.subrange(i as int, n as int);
        if m > 0 && n - i >= m {
            assert(t.subrange(0, m as int) =~= s@.subrange(i as int, i + m));
            assert(!occurs_at(s@, pv@, i as int));
            assert(t.subrange(0, m as int) != p@);
        }
    }
    slice_chars(s, i, n)
}

/// The segments that are kept: all but `.` and `..`, in order.
pub open spec fn kept_segments(ps: Seq<Seq<char>>) -> Seq<Seq<char>>
    decreases ps.len(),
{
    if ps.len() == 0 {
        Seq::empty()
    } else {
        let k = kept_segments(ps.drop_last());
        if ps.last() != "."@ && ps.last() != ".."@ {
            k.push(ps.last())
        } else {
            k
        }
    }
}

/// The segments joined by `/`.
pub open spec fn join_slash(ps: Seq<Seq<char>>) -> Seq<char>
    decreases ps.len(),
{
    if ps.len() == 0 {
        Seq::empty()
    } else if ps.len() == 1 {
        ps[0]
    } else {
        join_slash(ps.drop_last()) + "/"@ + ps.last()
    }
}

/// The part of a request path that names a file: leading `/` and leading
/// `index.html` removed.
pub open spec fn clean_path_spec(uri: Seq<char>) -> Seq<char> {
    strip_prefix_rep(strip_prefix_rep(uri, "/"@), "index.html"@)
}

/// The file path that a request path names under the web root: its
/// segments other than `.` and `..`, joined by `/`.
pub open spec fn sanitized_path_spec(uri: Seq<char>) -> Seq<char> {
    join_slash(kept_segments(crate::fields::split_on(clean_path_spec(uri), '/')))
}

/// What a request to the web UI server is answered with.
#[derive(Debug)]
pub enum Route {
    /// `/rpc` asked with another method than POST: 405.
    MethodNotAllowed,
    /// An RPC body over the limit: 413.
    PayloadTooLarge,
    /// An RPC call, whose body is still to be read.
    Rpc,
    /// The license text.
    License,
    /// The application page itself.
    Index,
    /// A file of the web UI at this path under the web root.
    File(String),
}

pub open spec fn route_spec(uri: Seq<char>, is_post: bool, body_length: Option<usize>) -> Route {
    if uri == "/rpc"@ && !is_post {
        Route::MethodNotAllowed
    } else if uri == "/rpc"@ {
        if body_length matches Some(n) && n > 65536 {
            Route::PayloadTooLarge
        } else {
            Route::Rpc
        }
    } else if uri == "/LICENSE"@ || uri == "/license"@ {
        Route::License
    } else if clean_path_spec(uri).len() == 0 || clean_path_spec(uri) == "index.html"@ {
        Route::Index
    } else {
        Route::File(arbitrary())
    }
}

/// How the server answers a request to `uri`, by method and announced body
/// length.
pub fn route_request(uri: &str, is_post: bool, body_length: Option<usize>) -> (r: Route)
    ensures
        match route_spec(uri@, is_post, body_length) {
            Route::File(_) => r matches Route::File(p) && p@ == sanitized_path_spec(uri@),
            Route::MethodNotAllowed => r is MethodNotAllowed,
            Route::PayloadTooLarge => r is PayloadTooLarge,
            Route::Rpc => r is Rpc,
            Route::License => r is License,
            Route::Index => r is Index,
        },
{
    let is_rpc = str_eq(uri, "/rpc");
    if is_rpc && !is_post {
        return Route::MethodNotAllowed;
    }
    if is_rpc {
        match body_length {
            Some(n) => {
                if n > MAX_RPC_BODY_BYTES {
                    return Route::PayloadTooLarge;
                }
            },
            None => {},
        }
        return Route::Rpc;
    }
    if str_eq(uri, "/LICENSE") || str_eq(uri, "/license") {
        return Route::License;
    }
    let u = chars_of(uri);
    let c1 = strip_prefix_rep_exec(&u, "/");
    let clean = strip_prefix_rep_exec(&c1, "index.html");
    if clean.len() == 0 || crate::text::chars_eq(&clean, &chars_of("index.html")) {
        return Route::Index;
    }
    Route::File(string_of(&sanitize_segments(&clean)))
}

/// The segments of `path` other than `.` and `..`, joined by `/`.
fn sanitize_segments(path: &Vec<char>) -> (r: Vec<char>)
    ensures
        r@ == join_slash(kept_segments(crate::fields::split_on(path@, '/'))),
{
    let parts = crate::fields::split_chars(path, '/');
    let ghost ps = crate::fields::vv(parts@);
    let mut out: Vec<char> = Vec::new();
    let mut count: usize = 0;
    let mut i: usize = 0;
    assert(ps.subrange(0, 0) =~= Seq::<Seq<char>>::empty());
    while i < parts.len()
        invariant
            ps == crate::fields::vv(parts@),
            i <= parts.len(),
            count == kept_segments(ps.subrange(0, i as int)).len(),
            count <= i,
            out@ == join_slash(kept_segments(ps.subrange(0, i as int))),
        decreases parts.len() - i,
    {
        let ghost k = kept_segments(ps.subrange(0, i as int));
        assert(ps.subrange(0, i + 1).drop_last() =~= ps.subrange(0, i as int));
        assert(ps.subrange(0, i + 1).last() == parts@[i as int]@);
        let seg = &parts[i];
        let dot = crate::text::chars_eq(seg, &chars_of("."));
        let dotdot = crate::text::chars_eq(seg, &chars_of(".."));
        if !dot && !dotdot {
            if count > 0 {
                append_str(&mut out, "/");
            }
            append_chars(&mut out, seg);
            assert(k.push(seg@).drop_last() =~= k);
            if count == 0 {
                assert(out@ =~= seg@);
            }
            count += 1;
        }
        i += 1;
    }
    assert(ps.subrange(0, parts.len() as int) =~= ps);
    out
}

/// The RPC methods that the web UI calls.
#[derive(Clone, Copy, Debug, PartialEq, Eq, Structural)]
pub enum RpcMethod {
    LoadConfig,
    SaveConfig,
    Launch,
    Stop,
    HealthCheck,
    ListModels,
    RefreshModels,
    WriteCodexConfig,
    SyncCodexConfig,
    InspectCodexConfig,
    RevertCodexConfig,
    DetectCodex,
    KillCodexByPid,
    ToggleAutoStart,
    SetAutoStart,
    OpenDirectoryPicker,
    GetAppLogs,
    GetFailoverStatus,
    DismissFailoverAlert,
    FailoverToLocal,
    CaptureSessionCheckpoint,
    ListSessionCheckpoints,
    ListCodexSessions,
    ProbeCodexApi,
}

/// The wire name of each RPC method.
pub open spec fn rpc_name(m: RpcMethod) -> Seq<char> {
    match m {
        RpcMethod::LoadConfig => "loadConfig"@,
        RpcMethod::SaveConfig => "saveConfig"@,
        RpcMethod::Launch => "launch"@,
        RpcMethod::Stop => "stop"@,
        RpcMethod::HealthCheck => "healthCheck"@,
        RpcMethod::ListModels => "listModels"@,
        RpcMethod::RefreshModels => "refreshModels"@,
        RpcMethod::WriteCodexConfig => "writeCodexConfig"@,
        RpcMethod::SyncCodexConfig => "syncCodexConfig"@,
        RpcMethod::InspectCodexConfig => "inspectCodexConfig"@,
        RpcMethod::RevertCodexConfig => "revertCodexConfig"@,
        RpcMethod::DetectCodex => "detectCodex"@,
        RpcMethod::KillCodexByPid => "killCodexByPid"@,
        RpcMethod::ToggleAutoStart => "toggleAutoStart"@,
        RpcMethod::SetAutoStart => "setAutoStart"@,
        RpcMethod::OpenDirectoryPicker => "openDirectoryPicker"@,
        RpcMethod::GetAppLogs => "getAppLogs"@,
        RpcMethod::GetFailoverStatus => "getFailoverStatus"@,
        RpcMethod::DismissFailoverAlert => "dismissFailoverAlert"@,
        RpcMethod::FailoverToLocal => "failoverToLocal"@,
        RpcMethod::CaptureSessionCheckpoint => "captureSessionCheckpoint"@,
        RpcMethod::ListSessionCheckpoints => "listSessionCheckpoints"@,
        RpcMethod::ListCodexSessions => "listCodexSessions"@,
        RpcMethod::ProbeCodexApi => "probeCodexApi"@,
    }
}

/// The RPC method that `name` calls, or `None` for an unknown name.
pub fn rpc_method(name: &str) -> (r: Option<RpcMethod>)
    ensures
        match r {
            Some(m) => rpc_name(m) == name@,
            None => forall|m: RpcMethod| rpc_name(m) != name@,
        },
{
    let all: [RpcMethod; 24] = [
        RpcMethod::LoadConfig,
        RpcMethod::SaveConfig,
        RpcMethod::Launch,
        RpcMethod::Stop,
        RpcMethod::HealthCheck,
        RpcMethod::ListModels,
        RpcMethod::RefreshModels,
        RpcMethod::WriteCodexConfig,
        RpcMethod::SyncCodexConfig,
        RpcMethod::InspectCodexConfig,
        RpcMethod::RevertCodexConfig,
        RpcMethod::DetectCodex,
        RpcMethod::KillCodexByPid,
        RpcMethod::ToggleAutoStart,
        RpcMethod::SetAutoStart,
        RpcMethod::OpenDirectoryPicker,
        RpcMethod::GetAppLogs,
        RpcMethod::GetFailoverStatus,
        RpcMethod::DismissFailoverAlert,
        RpcMethod::FailoverToLocal,
        RpcMethod::CaptureSessionCheckpoint,
        RpcMethod::ListSessionCheckpoints,
        RpcMethod::ListCodexSessions,
        RpcMethod::ProbeCodexApi,
    ];
    let mut i: usize = 0;
    while i < 24
        invariant
            i <= 24,
            all@.len() == 24,
            forall|m: RpcMethod| #[trigger] all@.contains(m),
            forall|j: int| 0 <= j < i ==> rpc_name(#[trigger] all@[j]) != name@,
        decreases 24 - i,
    {
        let m = all[i];
        if str_eq(rpc_method_name(m), name) {
            return Some(m);
        }
        i += 1;
    }
    proof {
        assert forall|m: RpcMethod| rpc_name(m) != name@ by {
            let j = choose|j: int| 0 <= j < 24 && all@[j] == m;
        }
    }
    None
}

/// The wire name of `m`.
pub fn rpc_method_name(m: RpcMethod) -> (r: &'static str)
    ensures
        r@ == rpc_name(m),
{
    match m {
        RpcMethod::LoadConfig => "loadConfig",
        RpcMethod::SaveConfig => "saveConfig",
        RpcMethod::Launch => "launch",
        RpcMethod::Stop => "stop",
        RpcMethod::HealthCheck => "healthCheck",
        RpcMethod::ListModels => "listModels",
        RpcMethod::RefreshModels => "refreshModels",
        RpcMethod::WriteCodexConfig => "writeCodexConfig",
        RpcMethod::SyncCodexConfig => "syncCodexConfig",
        RpcMethod::InspectCodexConfig => "inspectCodexConfig",
        RpcMethod::RevertCodexConfig => "revertCodexConfig",
        RpcMethod::DetectCodex => "detectCodex",
        RpcMethod::KillCodexByPid => "killCodexByPid",
        RpcMethod::ToggleAutoStart => "toggleAutoStart",
        RpcMethod::SetAutoStart => "setAutoStart",
        RpcMethod::OpenDirectoryPicker => "openDirectoryPicker",
        RpcMethod::GetAppLogs => "getAppLogs",
        RpcMethod::GetFailoverStatus => "getFailoverStatus",
        RpcMethod::DismissFailoverAlert => "dismissFailoverAlert",
        RpcMethod::FailoverToLocal => "failoverToLocal",
        RpcMethod::CaptureSessionCheckpoint => "captureSessionCheckpoint",
        RpcMethod::ListSessionCheckpoints => "listSessionCheckpoints",
        RpcMethod::ListCodexSessions => "listCodexSessions",
        RpcMethod::ProbeCodexApi => "probeCodexApi",
    }
}

// ---------------------------------------------------------------------------
// Requests that carry settings, and the log view
// ---------------------------------------------------------------------------
/// Whether settings sent with a request change where the launcher connects
/// or which model it uses; only then are they merged over the stored ones.
pub fn has_connection_overlay(incoming: &crate::config::LauncherConfig) -> (r: bool)
    ensures
        r == (incoming.ollama_ip is Some || incoming.openai_base_url is Some
            || incoming.ollama_port is Some || incoming.ollama_scheme is Some
            || incoming.codex_model is Some),
{
    incoming.ollama_ip.is_some() || incoming.openai_base_url.is_some() || incoming.ollama_port.is_some()
        || incoming.ollama_scheme.is_some() || incoming.codex_model.is_some()
}

/// The most log lines that the log view shows.
pub const MAX_LOG_ENTRIES: usize = 500;

/// A line of `app.log` as the log view shows it: `[LEVEL] message` gives the
/// level and the message, trimmed; any other line is `INFO`. Secrets in the
/// message are redacted.
pub open spec fn log_entry_spec(line: Seq<char>) -> (Seq<char>, Seq<char>) {
    if line.len() > 0 && line[0] == '[' && find_char_spec(line, ']', 1) is Some {
        let j = find_char_spec(line, ']', 1)->0;
        (
            crate::text::trim(line.subrange(1, j)),
            redact_sensitive_spec(crate::text::trim(line.subrange(j + 1, line.len() as int))),
        )
    } else {
        ("INFO"@, redact_sensitive_spec(line))
    }
}

pub fn log_entry(line: &str) -> (r: (String, String))
    ensures
        (r.0@, r.1@) == log_entry_spec(line@),
{
    let v = chars_of(line);
    if v.len() > 0 && v[0] == '[' {
        let mut close: Vec<char> = Vec::new();
        close.push(']');
        match find_from(&v, &close, 1) {
            Some(j) => {
                proof {
                    lemma_find_from_props(v@, seq![']'], 1);
                    assert(close@ =~= seq![']']);
                }
                let level = crate::text::trim_chars(&slice_chars(&v, 1, j));
                let rest = crate::text::trim_chars(&slice_chars(&v, j + 1, v.len()));
                let message = redact_sensitive_text(string_of(&rest).as_str());
                return (string_of(&level), message);
            },
            None => {
                proof {
                    assert(close@ =~= seq![']']);
                }
            },
        }
    }
    (str_to_string("INFO"), redact_sensitive_text(line))
}

// ---------------------------------------------------------------------------
// Served paths stay under the web root
// ---------------------------------------------------------------------------
/// The rest of `s` from `j` on holds no `sep`: the pieces are `cur` and that
/// rest, as one.
proof fn lemma_pieces_without_sep(s: Seq<char>, sep: char, j: int, cur: Seq<char>)
    requires
        0 <= j <= s.len(),
        forall|k: int| j <= k < s.len() ==> s[k] != sep,
    ensures
        pieces_from(s, sep, j, cur) == seq![cur + s.subrange(j, s.len() as int)],
    decreases s.len() - j,
{
    if j < s.len() {
        lemma_pieces_without_sep(s, sep, j + 1, cur.push(s[j]));
        assert(cur.push(s[j]) + s.subrange(j + 1, s.len() as int) =~= cur + s.subrange(j, s.len() as int));
    } else {
        assert(cur + s.subrange(j, s.len() as int) =~= cur);
    }
}

/// Cutting `a`, a separator and `x` (which holds no separator) gives the
/// pieces of `a` and then `x`.
proof fn lemma_pieces_append(a: Seq<char>, x: Seq<char>, sep: char, i: int, cur: Seq<char>)
    requires
        0 <= i <= a.len(),
        forall|k: int| 0 <= k < x.len() ==> x[k] != sep,
    ensures
        pieces_from(a + seq![sep] + x, sep, i, cur) == pieces_from(a, sep, i, cur).push(x),
    decreases a.len() - i,
{
    let s = a + seq![sep] + x;
    if i >= a.len() {
        assert(s[a.len() as int] == sep);
        assert forall|k: int| a.len() + 1 <= k < s.len() implies s[k] != sep by {
            assert(s[k] == x[k - a.len() - 1]);
        }
        lemma_pieces_without_sep(s, sep, (a.len() + 1) as int, Seq::empty());
        assert(Seq::<char>::empty() + s.subrange((a.len() + 1) as int, s.len() as int) =~= x);
        assert(i == a.len());
        assert(seq![cur] + seq![x] =~= seq![cur].push(x));
    } else {
        assert(s[i] == a[i]);
        if a[i] == sep {
            lemma_pieces_append(a, x, sep, i + 1, Seq::empty());
            assert(seq![cur] + pieces_from(a, sep, i + 1, Seq::empty()).push(x) =~= (seq![cur]
                + pieces_from(a, sep, i + 1, Seq::empty())).push(x));
        } else {
            lemma_pieces_append(a, x, sep, i + 1, cur.push(a[i]));
        }
    }
}

pub open spec fn no_slash(g: Seq<char>) -> bool {
    forall|k: int| 0 <= k < g.len() ==> g[k] != '/'
}

/// Joining segments without `/` by `/` and cutting again at `/` gives the
/// segments back (one empty piece for none).
proof fn lemma_split_join(ps: Seq<Seq<char>>)
    requires
        forall|i: int| 0 <= i < ps.len() ==> no_slash(#[trigger] ps[i]),
    ensures
        split_on(join_slash(ps), '/') == (if ps.len() == 0 {
            seq![Seq::<char>::empty()]
        } else {
            ps
        }),
    decreases ps.len(),
{
    if ps.len() == 0 {
        assert(split_on(Seq::<char>::empty(), '/') == seq![Seq::<char>::empty()]);
    } else if ps.len() == 1 {
        assert(no_slash(ps[0]));
        lemma_pieces_without_sep(ps[0], '/', 0, Seq::empty());
        assert(Seq::<char>::empty() + ps[0].subrange(0, ps[0].len() as int) =~= ps[0]);
        assert(seq![ps[0]] =~= ps);
    } else {
        let init = ps.drop_last();
        assert forall|i: int| 0 <= i < init.len() implies no_slash(#[trigger] init[i]) by {
            assert(init[i] == ps[i]);
        }
        lemma_split_join(init);
        assert(no_slash(ps.last()));
        assert(join_slash(init) + "/"@ + ps.last() == join_slash(init) + seq!['/'] + ps.last()) by {
            reveal_strlit("/");
        }
        lemma_pieces_append(join_slash(init), ps.last(), '/', 0, Seq::empty());
        assert(init.push(ps.last()) =~= ps);
    }
}

pub open spec fn no_sep(g: Seq<char>, sep: char) -> bool {
    forall|k: int| 0 <= k < g.len() ==> g[k] != sep
}

/// No piece cut at `sep` holds `sep`.
proof fn lemma_pieces_no_sep(s: Seq<char>, sep: char, i: int, cur: Seq<char>)
    requires
        0 <= i,
        no_sep(cur, sep),
    ensures
        forall|j: int| 0 <= j < pieces_from(s, sep, i, cur).len()
            ==> no_sep(#[trigger] pieces_from(s, sep, i, cur)[j], sep),
    decreases s.len() - i,
{
    let p = pieces_from(s, sep, i, cur);
    if i >= s.len() {
        assert(p == seq![cur]);
        assert forall|j: int| 0 <= j < p.len() implies no_sep(#[trigger] p[j], sep) by {
            assert(p[j] == cur);
        }
    } else if s[i] == sep {
        lemma_pieces_no_sep(s, sep, i + 1, Seq::empty());
        let rest = pieces_from(s, sep, i + 1, Seq::empty());
        assert(p == seq![cur] + rest);
        assert forall|j: int| 0 <= j < p.len() implies no_sep(#[trigger] p[j], sep) by {
            if j > 0 {
                assert(p[j] == rest[j - 1]);
            } else {
                assert(p[j] == cur);
            }
        }
    } else {
        let c2 = cur.push(s[i]);
        assert forall|k: int| 0 <= k < c2.len() implies c2[k] != sep by {
            if k < cur.len() {
                assert(c2[k] == cur[k]);
            }
        }
        lemma_pieces_no_sep(s, sep, i + 1, c2);
        assert(p == pieces_from(s, sep, i + 1, c2));
    }
}

proof fn lemma_kept_segments(ps: Seq<Seq<char>>)
    ensures
        forall|i: int| 0 <= i < kept_segments(ps).len() ==> {
            &&& #[trigger] kept_segments(ps)[i] != "."@
            &&& kept_segments(ps)[i] != ".."@
            &&& ps.contains(kept_segments(ps)[i])
        },
    decreases ps.len(),
{
    if ps.len() > 0 {
        let init = ps.drop_last();
        lemma_kept_segments(init);
        let k = kept_segments(init);
        assert forall|i: int| 0 <= i < kept_segments(ps).len() implies {
            &&& #[trigger] kept_segments(ps)[i] != "."@
            &&& kept_segments(ps)[i] != ".."@
            &&& ps.contains(kept_segments(ps)[i])
        } by {
            if i < k.len() {
                assert(kept_segments(ps)[i] == k[i]);
                let j = choose|j: int| 0 <= j < init.len() && init[j] == k[i];
                assert(ps[j] == init[j]);
            } else {
                assert(kept_segments(ps)[i] == ps.last());
                assert(ps[ps.len() - 1] == ps.last());
            }
        }
    }
}

/// A file that the server answers with lies under the web root: no segment
/// of its path is `.` or `..`.
pub proof fn law_served_path_has_no_dot_segments(uri: Seq<char>)
    ensures
        forall|i: int| 0 <= i < split_on(sanitized_path_spec(uri), '/').len() ==> {
            &&& #[trigger] split_on(sanitized_path_spec(uri), '/')[i] != "."@
            &&& split_on(sanitized_path_spec(uri), '/')[i] != ".."@
        },
{
    reveal_strlit(".");
    reveal_strlit("..");
    let ps = split_on(clean_path_spec(uri), '/');
    let k = kept_segments(ps);
    lemma_pieces_no_sep(clean_path_spec(uri), '/', 0, Seq::empty());
    lemma_kept_segments(ps);
    assert forall|i: int| 0 <= i < k.len() implies no_slash(#[trigger] k[i]) by {
        let j = choose|j: int| 0 <= j < ps.len() && ps[j] == k[i];
        assert(no_sep(ps[j], '/'));
    }
    lemma_split_join(k);
    if k.len() == 0 {
        assert(Seq::<char>::empty() != "."@);
        assert(Seq::<char>::empty() != ".."@);
    }
}

} // verus!
