//! Codex's on-disk thread store: the names of rollout files and the choice
//! of the most recent sessions from the session index.
//!
//! Reading the directory and the index file happens around these functions.
use vstd::prelude::*;
use vstd::utf8::{encode_utf8, is_char_boundary, is_char_boundary_iff_not_is_continuation_byte, is_continuation_byte, valid_utf8, encode_utf8_valid_utf8};
use vstd::string::StringSliceAdditionalSpecFns;

use crate::config::opt_view;
use crate::lpad_app_server::CodexThreadSummary;
use crate::text::{
    chars_eq, chars_of, lemma_lex_antisymmetric, lemma_lex_total, lemma_lex_transitive, lex_le,
    lex_le_exec,
};

verus! {

/// Whether 36 bytes have the shape of a UUID: dashes at byte offsets 8, 13,
/// 18 and 23.
pub open spec fn uuid_like_spec(b: Seq<u8>) -> bool {
    b.len() == 36 && b[8] == 0x2d && b[13] == 0x2d && b[18] == 0x2d && b[23] == 0x2d
}

/// Whether `value` has the shape of a UUID (checked on its UTF-8 bytes).
pub fn uuid_like(value: &str) -> (r: bool)
    ensures
        r == uuid_like_spec(value.spec_bytes()),
{
    let b = value.as_bytes();
    b.len() == 36 && b[8] == 0x2d && b[13] == 0x2d && b[18] == 0x2d && b[23] == 0x2d
}

pub open spec fn jsonl_suffix() -> Seq<u8> {
    seq![0x2eu8, 0x6au8, 0x73u8, 0x6fu8, 0x6eu8, 0x6cu8]
}

/// The byte offset at which the last 36 bytes of the stem of a
/// `….jsonl` file name start, when the name has such a stem.
pub open spec fn rollout_id_start(b: Seq<u8>) -> Option<int> {
    if b.len() >= 6 && b.subrange(b.len() - 6, b.len() as int) == jsonl_suffix() && b.len() - 6
        >= 36 {
        Some(b.len() - 42)
    } else {
        None
    }
}

/// The id of a rollout file name `rollout-<time>-<uuid>.jsonl`: the last 36
/// bytes before `.jsonl`, when they have the shape of a UUID.
pub open spec fn rollout_id_spec(b: Seq<u8>) -> Option<Seq<u8>> {
    match rollout_id_start(b) {
        Some(s) => if uuid_like_spec(b.subrange(s, s + 36)) {
            Some(b.subrange(s, s + 36))
        } else {
            None
        },
        None => None,
    }
}

/// The id of a rollout file.  The name is cut at a byte offset,
/// so the name must not have a multi-byte character across that cut.
pub fn extract_rollout_id(file_name: &str) -> (r: Option<String>)
    requires
        rollout_id_start(file_name.spec_bytes()) matches Some(s) ==> is_char_boundary(
            file_name.spec_bytes(),
            s,
        ),
    ensures
        match r {
            Some(id) => rollout_id_spec(file_name.spec_bytes()) == Some(encode_utf8(id@)),
            None => rollout_id_spec(file_name.spec_bytes()) is None,
        },
{
    let b = file_name.as_bytes();
    let n = b.len();
    if n < 6 || !(b[n - 6] == 0x2e && b[n - 5] == 0x6a && b[n - 4] == 0x73 && b[n - 3] == 0x6f
        && b[n - 2] == 0x6e && b[n - 1] == 0x6c) {
        proof {
            if n >= 6 {
                assert(b@.subrange(n - 6, n as int)[0] == b@[n - 6]);
                assert(b@.subrange(n - 6, n as int)[1] == b@[n - 5]);
                assert(b@.subrange(n - 6, n as int)[2] == b@[n - 4]);
                assert(b@.subrange(n - 6, n as int)[3] == b@[n - 3]);
                assert(b@.subrange(n - 6, n as int)[4] == b@[n - 2]);
                assert(b@.subrange(n - 6, n as int)[5] == b@[n - 1]);
            }
        }
        return None;
    }
    assert(b@.subrange(n - 6, n as int) =~= jsonl_suffix());
    if n - 6 < 36 {
        return None;
    }
    let start = n - 42;
    if !(b[start + 8] == 0x2d && b[start + 13] == 0x2d && b[start + 18] == 0x2d && b[start + 23]
        == 0x2d) {
        return None;
    }
    let ghost bs = file_name.spec_bytes();
    proof {
        encode_utf8_valid_utf8(file_name@);
    }
    let (_, tail) = file_name.split_at(start);
    let ghost ts = tail.spec_bytes();
    assert(ts =~= bs.subrange(start as int, n as int));
    proof {
        encode_utf8_valid_utf8(tail@);
        assert(ts[36] == 0x2eu8);
        is_char_boundary_iff_not_is_continuation_byte(ts, 36);
    }
    let (id, _) = tail.split_at(36);
    proof {
        assert(id.spec_bytes() =~= bs.subrange(start as int, start + 36));
    }
    let r = id.to_owned();
    Some(r)
}

// ---------------------------------------------------------------------------
// The session index
// ---------------------------------------------------------------------------
/// One row of `session_index.jsonl`.
#[derive(Debug)]
pub struct SessionIndexRow {
    pub id: String,
    pub thread_name: Option<String>,
    pub updated_at: Option<String>,
}

/// `a < b` for optional texts: nothing first, then texts in the order of
/// `str`.
pub open spec fn key_lt(a: Option<Seq<char>>, b: Option<Seq<char>>) -> bool {
    match (a, b) {
        (None, Some(_)) => true,
        (Some(x), Some(y)) => lex_le(x, y) && x != y,
        _ => false,
    }
}

pub open spec fn row_key(r: SessionIndexRow) -> Option<Seq<char>> {
    opt_view(r.updated_at)
}

/// `sorted` with `x` put after every row that is at least as recent.
pub open spec fn insert_by_recency(sorted: Seq<SessionIndexRow>, x: SessionIndexRow) -> Seq<SessionIndexRow>
    decreases sorted.len(),
{
    if sorted.len() == 0 {
        seq![x]
    } else if key_lt(row_key(sorted[0]), row_key(x)) {
        seq![x] + sorted
    } else {
        seq![sorted[0]] + insert_by_recency(sorted.drop_first(), x)
    }
}

/// The rows, most recently updated first; rows updated at the same time
/// keep their order (a stable sort).
pub open spec fn by_recency(rows: Seq<SessionIndexRow>) -> Seq<SessionIndexRow>
    decreases rows.len(),
{
    if rows.len() == 0 {
        Seq::empty()
    } else {
        insert_by_recency(by_recency(rows.drop_last()), rows.last())
    }
}

fn key_lt_exec(a: &Option<String>, b: &Option<String>) -> (r: bool)
    ensures
        r == key_lt(opt_view(*a), opt_view(*b)),
{
    match (a, b) {
        (None, Some(_)) => true,
        (Some(x), Some(y)) => {
            let xv = chars_of(x.as_str());
            let yv = chars_of(y.as_str());
            lex_le_exec(&xv, &yv) && !chars_eq(&xv, &yv)
        },
        _ => false,
    }
}

/// The position at which `insert_by_recency` puts `x`.
fn insertion_point(sorted: &Vec<SessionIndexRow>, x: &SessionIndexRow) -> (j: usize)
    ensures
        j <= sorted@.len(),
        insert_by_recency(sorted@, *x) == sorted@.subrange(0, j as int) + seq![*x] + sorted@.subrange(
            j as int,
            sorted@.len() as int,
        ),
{
    let n = sorted.len();
    let mut j: usize = 0;
    assert(sorted@.subrange(0, n as int) =~= sorted@);
    while j < n && !key_lt_exec(&sorted[j].updated_at, &x.updated_at)
        invariant
            n == sorted@.len(),
            j <= n,
            insert_by_recency(sorted@, *x) == sorted@.subrange(0, j as int) + insert_by_recency(
                sorted@.subrange(j as int, n as int),
                *x,
            ),
        decreases n - j,
    {
        let ghost t = sorted@.subrange(j as int, n as int);
        assert(t.drop_first() =~= sorted@.subrange(j + 1, n as int));
        assert(sorted@.subrange(0, j + 1) =~= sorted@.subrange(0, j as int) + seq![t[0]]);
        assert(sorted@.subrange(0, j as int) + (seq![t[0]] + insert_by_recency(t.drop_first(), *x))
            =~= sorted@.subrange(0, j + 1) + insert_by_recency(t.drop_first(), *x));
        j += 1;
    }
    proof {
        let t = sorted@.subrange(j as int, n as int);
        if j == n {
            assert(t =~= Seq::<SessionIndexRow>::empty());
        }
        assert(sorted@.subrange(0, j as int) + (seq![*x] + t) =~= sorted@.subrange(0, j as int)
            + seq![*x] + t);
    }
    j
}

/// At most the first `n` of `s`.
pub open spec fn first_n<T>(s: Seq<T>, n: int) -> Seq<T> {
    if s.len() <= n {
        s
    } else {
        s.take(n)
    }
}

/// The rows of the session index that the thread list shows: most recently
/// updated first (a stable sort), at most `limit` of them, `limit` taken
/// between 1 and 200.
pub fn newest_rows(rows: Vec<SessionIndexRow>, limit: usize) -> (r: Vec<SessionIndexRow>)
    ensures
        r@ == first_n(
            by_recency(rows@),
            if limit < 1 {
                1
            } else if limit > 200 {
                200
            } else {
                limit as int
            },
        ),
{
    let ghost given = rows@;
    let total = rows.len();
    assert(given.len() == total);
    let mut rows = rows;
    let mut rest: Vec<SessionIndexRow> = Vec::new();
    while rows.len() > 0
        invariant
            rows@ == given.subrange(0, rows@.len() as int),
            rest@.len() + rows@.len() == given.len(),
            given.len() <= usize::MAX,
            forall|i: int|
                0 <= i < rest@.len() ==> #[trigger] rest@[i] == given[given.len() - 1 - i],
        decreases rows@.len(),
    {
        let row = rows.pop().unwrap();
        rest.push(row);
    }
    let mut sorted: Vec<SessionIndexRow> = Vec::new();
    let mut k: usize = 0;
    assert(given.subrange(0, 0) =~= Seq::<SessionIndexRow>::empty());
    while rest.len() > 0
        invariant
            rest@.len() + k == given.len(),
            given.len() <= usize::MAX,
            forall|i: int|
                0 <= i < rest@.len() ==> #[trigger] rest@[i] == given[given.len() - 1 - i],
            sorted@ == by_recency(given.subrange(0, k as int)),
        decreases rest@.len(),
    {
        let row = rest.pop().unwrap();
        assert(row == given[k as int]);
        assert(given.subrange(0, k + 1).drop_last() =~= given.subrange(0, k as int));
        let j = insertion_point(&sorted, &row);
        let ghost before = sorted@;
        sorted.insert(j, row);
        assert(sorted@ =~= before.subrange(0, j as int) + seq![row] + before.subrange(
            j as int,
            before.len() as int,
        ));
        k += 1;
    }
    assert(given.subrange(0, k as int) =~= given);
    let cap = crate::discovery_log::effective_limit(limit);
    let ghost all = sorted@;
    sorted.truncate(cap);
    assert(sorted@ =~= first_n(all, cap as int));
    sorted
}

/// Each row as `(id, updated_at)`, in order.
pub fn session_ids(rows: Vec<SessionIndexRow>) -> (r: Vec<(String, Option<String>)>)
    ensures
        r@.len() == rows@.len(),
        forall|i: int|
            0 <= i < rows@.len() ==> (#[trigger] r@[i]).0 == rows@[i].id && r@[i].1 == rows@[i].updated_at,
{
    let ghost given = rows@;
    let mut rows = rows;
    let mut rest: Vec<SessionIndexRow> = Vec::new();
    while rows.len() > 0
        invariant
            rows@ == given.subrange(0, rows@.len() as int),
            rest@.len() + rows@.len() == given.len(),
            forall|i: int|
                0 <= i < rest@.len() ==> #[trigger] rest@[i] == given[given.len() - 1 - i],
        decreases rows@.len(),
    {
        let row = rows.pop().unwrap();
        rest.push(row);
    }
    let mut out: Vec<(String, Option<String>)> = Vec::new();
    while rest.len() > 0
        invariant
            rest@.len() + out@.len() == given.len(),
            forall|i: int|
                0 <= i < rest@.len() ==> #[trigger] rest@[i] == given[given.len() - 1 - i],
            forall|i: int|
                0 <= i < out@.len() ==> (#[trigger] out@[i]).0 == given[i].id && out@[i].1
                    == given[i].updated_at,
        decreases rest@.len(),
    {
        let row = rest.pop().unwrap();
        out.push((row.id, row.updated_at));
    }
    out
}

// ---------------------------------------------------------------------------
// Newest first
// ---------------------------------------------------------------------------
/// No row is followed by a more recently updated one.
pub open spec fn newest_first(rows: Seq<SessionIndexRow>) -> bool {
    forall|i: int, j: int|
        0 <= i < j < rows.len() ==> !key_lt(#[trigger] row_key(rows[i]), #[trigger] row_key(rows[j]))
}

proof fn lemma_key_lt_trans(a: Option<Seq<char>>, b: Option<Seq<char>>, c: Option<Seq<char>>)
    requires
        key_lt(a, b),
        key_lt(b, c),
    ensures
        key_lt(a, c),
{
    if a is Some {
        let (x, y, z) = (a->0, b->0, c->0);
        lemma_lex_transitive(x, y, z);
        if x == z {
            lemma_lex_antisymmetric(x, y);
        }
    }
}

proof fn lemma_key_lt_total(a: Option<Seq<char>>, b: Option<Seq<char>>)
    ensures
        a == b || key_lt(a, b) || key_lt(b, a),
        !(key_lt(a, b) && key_lt(b, a)),
        !key_lt(a, a),
{
    if a is Some && b is Some {
        lemma_lex_total(a->0, b->0);
        if lex_le(a->0, b->0) && lex_le(b->0, a->0) {
            lemma_lex_antisymmetric(a->0, b->0);
        }
    }
}

proof fn lemma_insert_by_recency(sorted: Seq<SessionIndexRow>, x: SessionIndexRow)
    requires
        newest_first(sorted),
    ensures
        newest_first(insert_by_recency(sorted, x)),
        insert_by_recency(sorted, x).len() == sorted.len() + 1,
        forall|i: int|
            0 <= i < insert_by_recency(sorted, x).len() ==> (#[trigger] insert_by_recency(sorted, x)[i]
                == x || sorted.contains(insert_by_recency(sorted, x)[i])),
    decreases sorted.len(),
{
    let r = insert_by_recency(sorted, x);
    if sorted.len() == 0 {
    } else if key_lt(row_key(sorted[0]), row_key(x)) {
        assert forall|i: int, j: int| 0 <= i < j < r.len() implies !key_lt(
            #[trigger] row_key(r[i]),
            #[trigger] row_key(r[j]),
        ) by {
            if i == 0 {
                let y = sorted[j - 1];
                assert(r[j] == y);
                if j - 1 > 0 {
                    assert(!key_lt(row_key(sorted[0]), row_key(sorted[j - 1])));
                }
                lemma_key_lt_total(row_key(sorted[0]), row_key(y));
                lemma_key_lt_total(row_key(x), row_key(y));
                lemma_key_lt_total(row_key(x), row_key(sorted[0]));
                if key_lt(row_key(y), row_key(sorted[0])) {
                    lemma_key_lt_trans(row_key(y), row_key(sorted[0]), row_key(x));
                }
            } else {
                assert(r[i] == sorted[i - 1] && r[j] == sorted[j - 1]);
            }
        }
        assert forall|i: int| 0 <= i < r.len() implies (#[trigger] r[i] == x || sorted.contains(r[i])) by {
            if i > 0 {
                assert(r[i] == sorted[i - 1]);
            }
        }
    } else {
        let rest = sorted.drop_first();
        assert forall|i: int, j: int| 0 <= i < j < rest.len() implies !key_lt(
            #[trigger] row_key(rest[i]),
            #[trigger] row_key(rest[j]),
        ) by {
            assert(rest[i] == sorted[i + 1] && rest[j] == sorted[j + 1]);
        }
        lemma_insert_by_recency(rest, x);
        let t = insert_by_recency(rest, x);
        assert(r == seq![sorted[0]] + t);
        assert forall|i: int, j: int| 0 <= i < j < r.len() implies !key_lt(
            #[trigger] row_key(r[i]),
            #[trigger] row_key(r[j]),
        ) by {
            if i == 0 {
                assert(r[j] == t[j - 1]);
                if t[j - 1] != x {
                    assert(rest.contains(t[j - 1]));
                    let k = choose|k: int| 0 <= k < rest.len() && rest[k] == t[j - 1];
                    assert(rest[k] == sorted[k + 1]);
                    assert(!key_lt(row_key(sorted[0]), row_key(sorted[k + 1])));
                }
            } else {
                assert(r[i] == t[i - 1] && r[j] == t[j - 1]);
            }
        }
        assert forall|i: int| 0 <= i < r.len() implies (#[trigger] r[i] == x || sorted.contains(r[i])) by {
            if i == 0 {
                assert(sorted[0] == r[0]);
            } else {
                assert(r[i] == t[i - 1]);
                if t[i - 1] != x {
                    assert(rest.contains(t[i - 1]));
                    let k = choose|k: int| 0 <= k < rest.len() && rest[k] == t[i - 1];
                    assert(sorted[k + 1] == r[i]);
                }
            }
        }
    }
}

/// The rows that the thread list shows come most recently updated first.
pub proof fn law_rows_newest_first(rows: Seq<SessionIndexRow>)
    ensures
        newest_first(by_recency(rows)),
        by_recency(rows).len() == rows.len(),
    decreases rows.len(),
{
    if rows.len() > 0 {
        law_rows_newest_first(rows.drop_last());
        lemma_insert_by_recency(by_recency(rows.drop_last()), rows.last());
    }
}

// ---------------------------------------------------------------------------
// Thread summaries from the store
// ---------------------------------------------------------------------------
/// The rollout file of thread `id`: the first entry for it, when there is one.
pub open spec fn rollout_path_of(paths: Seq<(String, String)>, id: Seq<char>) -> Option<Seq<char>>
    decreases paths.len(),
{
    if paths.len() == 0 {
        None
    } else if paths[0].0@ == id {
        Some(paths[0].1@)
    } else {
        rollout_path_of(paths.drop_first(), id)
    }
}

fn rollout_path_exec(paths: &Vec<(String, String)>, id: &str) -> (r: Option<String>)
    ensures
        opt_view(r) == rollout_path_of(paths@, id@),
{
    let n = paths.len();
    let mut i: usize = 0;
    assert(paths@.subrange(0, n as int) =~= paths@);
    while i < n
        invariant
            n == paths@.len(),
            i <= n,
            rollout_path_of(paths@, id@) == rollout_path_of(paths@.subrange(i as int, n as int), id@),
        decreases n - i,
    {
        assert(paths@.subrange(i as int, n as int).drop_first() =~= paths@.subrange(i + 1, n as int));
        if crate::text::str_eq(paths[i].0.as_str(), id) {
            return Some(paths[i].1.clone());
        }
        i += 1;
    }
    None
}

/// The thread list made from rows of the session index: each row's id and
/// name, status `stored`, its rollout file where one is known, its update
/// time as the creation time, and no model.
pub fn thread_summaries(rows: Vec<SessionIndexRow>, rollout_paths: &Vec<(String, String)>) -> (r: Vec<
    CodexThreadSummary,
>)
    ensures
        r@.len() == rows@.len(),
        forall|i: int|
            0 <= i < rows@.len() ==> {
                &&& (#[trigger] r@[i]).id == rows@[i].id
                &&& r@[i].name == rows@[i].thread_name
                &&& opt_view(r@[i].status) == Some("stored"@)
                &&& opt_view(r@[i].path) == rollout_path_of(rollout_paths@, rows@[i].id@)
                &&& r@[i].created_at == rows@[i].updated_at
                &&& r@[i].model is None
            },
{
    let ghost given = rows@;
    let total = rows.len();
    assert(given.len() == total);
    let mut rows = rows;
    let mut rest: Vec<SessionIndexRow> = Vec::new();
    while rows.len() > 0
        invariant
            rows@ == given.subrange(0, rows@.len() as int),
            rest@.len() + rows@.len() == given.len(),
            forall|i: int|
                0 <= i < rest@.len() ==> #[trigger] rest@[i] == given[given.len() - 1 - i],
        decreases rows@.len(),
    {
        let row = rows.pop().unwrap();
        rest.push(row);
    }
    let mut out: Vec<CodexThreadSummary> = Vec::new();
    while rest.len() > 0
        invariant
            rest@.len() + out@.len() == given.len(),
            forall|i: int|
                0 <= i < rest@.len() ==> #[trigger] rest@[i] == given[given.len() - 1 - i],
            forall|i: int|
                0 <= i < out@.len() ==> {
                    &&& (#[trigger] out@[i]).id == given[i].id
                    &&& out@[i].name == given[i].thread_name
                    &&& opt_view(out@[i].status) == Some("stored"@)
                    &&& opt_view(out@[i].path) == rollout_path_of(rollout_paths@, given[i].id@)
                    &&& out@[i].created_at == given[i].updated_at
                    &&& out@[i].model is None
                },
        decreases rest@.len(),
    {
        let row = rest.pop().unwrap();
        let path = rollout_path_exec(rollout_paths, row.id.as_str());
        out.push(
            CodexThreadSummary {
                id: row.id,
                name: row.thread_name,
                status: Some(crate::text::str_to_string("stored")),
                path,
                created_at: row.updated_at,
                model: None,
            },
        );
    }
    out
}

} // verus!
