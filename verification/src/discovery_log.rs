//! The log view over the discovery logs: which events it leaves out, in
//! which order it shows the entries, and how many.
use vstd::prelude::*;

use crate::config::opt_view;
use crate::lpad_thread_store::first_n;
use crate::text::{str_eq, str_to_string};

verus! {

broadcast use vstd::seq_lib::group_to_multiset_ensures, vstd::multiset::group_multiset_axioms;

/// How many entries the log view shows when nobody asks for another number.
pub const DEFAULT_LIMIT: usize = 50;

/// The periodic events that say nothing new.
pub open spec fn noise_events() -> Seq<Seq<char>> {
    seq!["watch_heartbeat"@, "endpoint_heartbeat"@, "app_server_rate_limits_poll"@]
}

/// Whether `event` is one of the periodic events that the log view skips.
pub fn is_noise_event(event: &str) -> (r: bool)
    ensures
        r == noise_events().contains(event@),
{
    let r = str_eq(event, "watch_heartbeat") || str_eq(event, "endpoint_heartbeat") || str_eq(
        event,
        "app_server_rate_limits_poll",
    );
    proof {
        let n = noise_events();
        if n.contains(event@) {
            let i = choose|i: int| 0 <= i < n.len() && n[i] == event@;
            assert(i == 0 || i == 1 || i == 2);
        }
        if r {
            if event@ == "watch_heartbeat"@ {
                assert(n[0] == event@);
            } else if event@ == "endpoint_heartbeat"@ {
                assert(n[1] == event@);
            } else {
                assert(n[2] == event@);
            }
        }
    }
    r
}

/// The number of entries to show for a requested `limit`: at least one, at
/// most two hundred.
pub fn effective_limit(limit: usize) -> (r: usize)
    ensures
        r == (if limit < 1 {
            1
        } else if limit > 200 {
            200
        } else {
            limit
        }),
{
    if limit < 1 {
        1
    } else if limit > 200 {
        200
    } else {
        limit
    }
}

// ---------------------------------------------------------------------------
// Entries
// ---------------------------------------------------------------------------
/// One entry of a discovery log.
#[derive(Debug)]
pub struct DiscoveryLogEntry {
    /// `rateLimit` or `connection`.
    pub stream: String,
    /// The file the entry was read from.
    pub source: String,
    pub at: String,
    pub event: String,
    /// The line's other fields, as JSON text.
    pub details: String,
}

/// What a line's `event` field gives: the text, or `unknown`.
pub open spec fn event_or_unknown(event: Option<Seq<char>>) -> Seq<char> {
    match event {
        Some(e) => e,
        None => "unknown"@,
    }
}

/// The entry for one line of the log of `stream` read from `source`, given
/// the line's `event` and `at` fields (where they are strings) and its other
/// fields as JSON text: none for a periodic noise event; else `event`
/// defaults to `unknown` and `at` to the empty text.
pub fn discovery_entry(
    stream: &str,
    source: &str,
    event: Option<String>,
    at: Option<String>,
    details: String,
) -> (r: Option<DiscoveryLogEntry>)
    ensures
        r is None <==> noise_events().contains(event_or_unknown(opt_view(event))),
        r matches Some(e) ==> {
            &&& e.stream@ == stream@
            &&& e.source@ == source@
            &&& e.event@ == event_or_unknown(opt_view(event))
            &&& e.at@ == (match opt_view(at) {
                Some(a) => a,
                None => Seq::empty(),
            })
            &&& e.details == details
        },
{
    let event = match event {
        Some(e) => e,
        None => str_to_string("unknown"),
    };
    if is_noise_event(event.as_str()) {
        return None;
    }
    let at = match at {
        Some(a) => a,
        None => str_to_string(""),
    };
    proof {
        reveal_strlit("");
    }
    Some(
        DiscoveryLogEntry {
            stream: str_to_string(stream),
            source: str_to_string(source),
            at,
            event,
            details,
        },
    )
}

// ---------------------------------------------------------------------------
// Newest first
// ---------------------------------------------------------------------------
/// The instant that `chrono::DateTime::parse_from_rfc3339` reads from `at`:
/// seconds since the epoch and the nanoseconds after them; `None` where it
/// refuses the text.
pub uninterp spec fn rfc3339_instant_of(at: Seq<char>) -> Option<(i64, u32)>;

/// Calls `chrono::DateTime::parse_from_rfc3339` on `at` and takes the
/// instant's `timestamp` and `timestamp_subsec_nanos`.  Claimed: the result
/// depends on `at` alone (it is named, not stated).
#[verifier::external_body]
fn rfc3339_instant(at: &str) -> (r: Option<(i64, u32)>)
    ensures
        r == rfc3339_instant_of(at@),
{
    match chrono::DateTime::parse_from_rfc3339(at) {
        Ok(dt) => Some((dt.timestamp(), dt.timestamp_subsec_nanos())),
        Err(_) => None,
    }
}

/// `a` is earlier than `b`: an unreadable time before every readable one,
/// readable ones by seconds, then nanoseconds.
pub open spec fn instant_lt(a: Option<(i64, u32)>, b: Option<(i64, u32)>) -> bool {
    match (a, b) {
        (None, Some(_)) => true,
        (Some(x), Some(y)) => x.0 < y.0 || (x.0 == y.0 && x.1 < y.1),
        _ => false,
    }
}

fn instant_lt_exec(a: &Option<(i64, u32)>, b: &Option<(i64, u32)>) -> (r: bool)
    ensures
        r == instant_lt(*a, *b),
{
    match (a, b) {
        (None, Some(_)) => true,
        (Some(x), Some(y)) => x.0 < y.0 || (x.0 == y.0 && x.1 < y.1),
        _ => false,
    }
}

/// `sorted` with `x` put after every entry that is at least as new.
pub open spec fn insert_by_instant(
    sorted: Seq<(Option<(i64, u32)>, DiscoveryLogEntry)>,
    x: (Option<(i64, u32)>, DiscoveryLogEntry),
) -> Seq<(Option<(i64, u32)>, DiscoveryLogEntry)>
    decreases sorted.len(),
{
    if sorted.len() == 0 {
        seq![x]
    } else if instant_lt(sorted[0].0, x.0) {
        seq![x] + sorted
    } else {
        seq![sorted[0]] + insert_by_instant(sorted.drop_first(), x)
    }
}

/// The entries, newest first by their instants; entries with the same
/// instant keep their order (a stable sort).
pub open spec fn by_instant(keyed: Seq<(Option<(i64, u32)>, DiscoveryLogEntry)>) -> Seq<
    (Option<(i64, u32)>, DiscoveryLogEntry),
>
    decreases keyed.len(),
{
    if keyed.len() == 0 {
        Seq::empty()
    } else {
        insert_by_instant(by_instant(keyed.drop_last()), keyed.last())
    }
}

pub open spec fn entries_of(keyed: Seq<(Option<(i64, u32)>, DiscoveryLogEntry)>) -> Seq<DiscoveryLogEntry> {
    keyed.map_values(|p: (Option<(i64, u32)>, DiscoveryLogEntry)| p.1)
}

pub open spec fn limit_spec(limit: usize) -> int {
    if limit < 1 {
        1
    } else if limit > 200 {
        200
    } else {
        limit as int
    }
}

/// The position at which `insert_by_instant` puts `x`.
fn instant_insertion_point(
    sorted: &Vec<(Option<(i64, u32)>, DiscoveryLogEntry)>,
    x: &(Option<(i64, u32)>, DiscoveryLogEntry),
) -> (j: usize)
    ensures
        j <= sorted@.len(),
        insert_by_instant(sorted@, *x) == sorted@.subrange(0, j as int) + seq![*x]
            + sorted@.subrange(j as int, sorted@.len() as int),
{
    let n = sorted.len();
    let mut j: usize = 0;
    assert(sorted@.subrange(0, n as int) =~= sorted@);
    while j < n && !instant_lt_exec(&sorted[j].0, &x.0)
        invariant
            n == sorted@.len(),
            j <= n,
            insert_by_instant(sorted@, *x) == sorted@.subrange(0, j as int) + insert_by_instant(
                sorted@.subrange(j as int, n as int),
                *x,
            ),
        decreases n - j,
    {
        let ghost t = sorted@.subrange(j as int, n as int);
        assert(t.drop_first() =~= sorted@.subrange(j + 1, n as int));
        assert(sorted@.subrange(0, j + 1) =~= sorted@.subrange(0, j as int) + seq![t[0]]);
        assert(sorted@.subrange(0, j as int) + (seq![t[0]] + insert_by_instant(t.drop_first(), *x))
            =~= sorted@.subrange(0, j + 1) + insert_by_instant(t.drop_first(), *x));
        j += 1;
    }
    proof {
        let t = sorted@.subrange(j as int, n as int);
        if j == n {
            assert(t =~= Seq::<(Option<(i64, u32)>, DiscoveryLogEntry)>::empty());
        }
        assert(sorted@.subrange(0, j as int) + (seq![*x] + t) =~= sorted@.subrange(0, j as int)
            + seq![*x] + t);
    }
    j
}

/// The entries that the log view shows, each with its instant: newest first
/// (a stable sort), at most `limit` of them, `limit` taken between 1 and
/// 200.
pub fn newest_entries(keyed: Vec<(Option<(i64, u32)>, DiscoveryLogEntry)>, limit: usize) -> (r: Vec<
    DiscoveryLogEntry,
>)
    ensures
        r@ == entries_of(first_n(by_instant(keyed@), limit_spec(limit))),
{
    let ghost given = keyed@;
    let total = keyed.len();
    assert(given.len() == total);
    let mut keyed = keyed;
    let mut rest: Vec<(Option<(i64, u32)>, DiscoveryLogEntry)> = Vec::new();
    while keyed.len() > 0
        invariant
            keyed@ == given.subrange(0, keyed@.len() as int),
            rest@.len() + keyed@.len() == given.len(),
            given.len() <= usize::MAX,
            forall|i: int| 0 <= i < rest@.len() ==> #[trigger] rest@[i] == given[given.len() - 1 - i],
        decreases keyed@.len(),
    {
        let e = keyed.pop().unwrap();
        rest.push(e);
    }
    let mut sorted: Vec<(Option<(i64, u32)>, DiscoveryLogEntry)> = Vec::new();
    let mut k: usize = 0;
    assert(given.subrange(0, 0) =~= Seq::<(Option<(i64, u32)>, DiscoveryLogEntry)>::empty());
    while rest.len() > 0
        invariant
            rest@.len() + k == given.len(),
            given.len() <= usize::MAX,
            forall|i: int| 0 <= i < rest@.len() ==> #[trigger] rest@[i] == given[given.len() - 1 - i],
            sorted@ == by_instant(given.subrange(0, k as int)),
        decreases rest@.len(),
    {
        let e = rest.pop().unwrap();
        assert(e == given[k as int]);
        assert(given.subrange(0, k + 1).drop_last() =~= given.subrange(0, k as int));
        let j = instant_insertion_point(&sorted, &e);
        let ghost before = sorted@;
        sorted.insert(j, e);
        assert(sorted@ =~= before.subrange(0, j as int) + seq![e] + before.subrange(
            j as int,
            before.len() as int,
        ));
        k += 1;
    }
    assert(given.subrange(0, k as int) =~= given);
    let cap = effective_limit(limit);
    let ghost all = sorted@;
    sorted.truncate(cap);
    assert(sorted@ =~= first_n(all, cap as int));
    let ghost kept = sorted@;
    let mut out: Vec<DiscoveryLogEntry> = Vec::new();
    let mut rev: Vec<(Option<(i64, u32)>, DiscoveryLogEntry)> = Vec::new();
    while sorted.len() > 0
        invariant
            sorted@ == kept.subrange(0, sorted@.len() as int),
            rev@.len() + sorted@.len() == kept.len(),
            forall|i: int| 0 <= i < rev@.len() ==> #[trigger] rev@[i] == kept[kept.len() - 1 - i],
        decreases sorted@.len(),
    {
        let e = sorted.pop().unwrap();
        rev.push(e);
    }
    while rev.len() > 0
        invariant
            rev@.len() + out@.len() == kept.len(),
            forall|i: int| 0 <= i < rev@.len() ==> #[trigger] rev@[i] == kept[kept.len() - 1 - i],
            forall|i: int| 0 <= i < out@.len() ==> #[trigger] out@[i] == kept[i].1,
        decreases rev@.len(),
    {
        let e = rev.pop().unwrap();
        out.push(e.1);
    }
    assert(out@ =~= entries_of(kept));
    out
}

/// Each entry with the instant of its `at` time.
pub open spec fn keyed_entries(entries: Seq<DiscoveryLogEntry>) -> Seq<(Option<(i64, u32)>, DiscoveryLogEntry)> {
    entries.map_values(|e: DiscoveryLogEntry| (rfc3339_instant_of(e.at@), e))
}

/// The entries that the log view shows: newest first by their `at` time
/// (entries whose time cannot be read last; a stable sort), at most `limit`
/// of them, `limit` taken between 1 and 200.
pub fn tail_entries(entries: Vec<DiscoveryLogEntry>, limit: usize) -> (r: Vec<DiscoveryLogEntry>)
    ensures
        r@ == entries_of(first_n(by_instant(keyed_entries(entries@)), limit_spec(limit))),
{
    let ghost given = entries@;
    let mut entries = entries;
    let mut rest: Vec<DiscoveryLogEntry> = Vec::new();
    while entries.len() > 0
        invariant
            entries@ == given.subrange(0, entries@.len() as int),
            rest@.len() + entries@.len() == given.len(),
            forall|i: int| 0 <= i < rest@.len() ==> #[trigger] rest@[i] == given[given.len() - 1 - i],
        decreases entries@.len(),
    {
        let e = entries.pop().unwrap();
        rest.push(e);
    }
    let mut keyed: Vec<(Option<(i64, u32)>, DiscoveryLogEntry)> = Vec::new();
    while rest.len() > 0
        invariant
            rest@.len() + keyed@.len() == given.len(),
            forall|i: int| 0 <= i < rest@.len() ==> #[trigger] rest@[i] == given[given.len() - 1 - i],
            forall|i: int| 0 <= i < keyed@.len() ==> #[trigger] keyed@[i] == (
                rfc3339_instant_of(given[i].at@),
                given[i],
            ),
        decreases rest@.len(),
    {
        let e = rest.pop().unwrap();
        let key = rfc3339_instant(e.at.as_str());
        keyed.push((key, e));
    }
    assert(keyed@ =~= keyed_entries(given));
    newest_entries(keyed, limit)
}

/// No entry is followed by a newer one.
pub open spec fn instants_newest_first(s: Seq<(Option<(i64, u32)>, DiscoveryLogEntry)>) -> bool {
    forall|i: int, j: int| 0 <= i < j < s.len() ==> !instant_lt(#[trigger] s[i].0, #[trigger] s[j].0)
}

proof fn lemma_insert_by_instant(
    sorted: Seq<(Option<(i64, u32)>, DiscoveryLogEntry)>,
    x: (Option<(i64, u32)>, DiscoveryLogEntry),
)
    requires
        instants_newest_first(sorted),
    ensures
        instants_newest_first(insert_by_instant(sorted, x)),
        insert_by_instant(sorted, x).len() == sorted.len() + 1,
        forall|i: int|
            0 <= i < insert_by_instant(sorted, x).len() ==> (#[trigger] insert_by_instant(sorted, x)[i]
                == x || sorted.contains(insert_by_instant(sorted, x)[i])),
    decreases sorted.len(),
{
    let r = insert_by_instant(sorted, x);
    if sorted.len() == 0 {
    } else if instant_lt(sorted[0].0, x.0) {
        assert forall|i: int, j: int| 0 <= i < j < r.len() implies !instant_lt(
            #[trigger] r[i].0,
            #[trigger] r[j].0,
        ) by {
            if i == 0 {
                assert(r[j] == sorted[j - 1]);
                if j - 1 > 0 {
                    assert(!instant_lt(sorted[0].0, sorted[j - 1].0));
                }
            } else {
                assert(r[i] == sorted[i - 1] && r[j] == sorted[j - 1]);
            }
        }
        assert forall|i: int| 0 <= i < r.len() implies (#[trigger] r[i] == x || sorted.contains(r[i])) by {
            if i > 0 {
                assert(r[i] == sorted[i - 1]);
            }
        }
    } else {
        let rest = sorted.drop_first();
        assert forall|i: int, j: int| 0 <= i < j < rest.len() implies !instant_lt(
            #[trigger] rest[i].0,
            #[trigger] rest[j].0,
        ) by {
            assert(rest[i] == sorted[i + 1] && rest[j] == sorted[j + 1]);
        }
        lemma_insert_by_instant(rest, x);
        let t = insert_by_instant(rest, x);
        assert(r == seq![sorted[0]] + t);
        assert forall|i: int, j: int| 0 <= i < j < r.len() implies !instant_lt(
            #[trigger] r[i].0,
            #[trigger] r[j].0,
        ) by {
            if i == 0 {
                assert(r[j] == t[j - 1]);
                if t[j - 1] != x {
                    assert(rest.contains(t[j - 1]));
                    let k = choose|k: int| 0 <= k < rest.len() && rest[k] == t[j - 1];
                    assert(rest[k] == sorted[k + 1]);
                    assert(!instant_lt(sorted[0].0, sorted[k + 1].0));
                }
            } else {
                assert(r[i] == t[i - 1] && r[j] == t[j - 1]);
            }
        }
        assert forall|i: int| 0 <= i < r.len() implies (#[trigger] r[i] == x || sorted.contains(r[i])) by {
            if i == 0 {
                assert(sorted[0] == r[0]);
            } else {
                assert(r[i] == t[i - 1]);
                if t[i - 1] != x {
                    assert(rest.contains(t[i - 1]));
                    let k = choose|k: int| 0 <= k < rest.len() && rest[k] == t[i - 1];
                    assert(sorted[k + 1] == r[i]);
                }
            }
        }
    }
}

proof fn lemma_insert_by_instant_keeps(
    sorted: Seq<(Option<(i64, u32)>, DiscoveryLogEntry)>,
    x: (Option<(i64, u32)>, DiscoveryLogEntry),
)
    ensures
        insert_by_instant(sorted, x).to_multiset() =~= sorted.to_multiset().insert(x),
    decreases sorted.len(),
{
    if sorted.len() == 0 {
        assert(seq![x] =~= sorted.push(x));
    } else if instant_lt(sorted[0].0, x.0) {
        assert(seq![x] + sorted =~= sorted.insert(0, x));
    } else {
        let rest = sorted.drop_first();
        lemma_insert_by_instant_keeps(rest, x);
        let t = insert_by_instant(rest, x);
        assert(seq![sorted[0]] + t =~= t.insert(0, sorted[0]));
        assert(sorted =~= rest.insert(0, sorted[0]));
        assert(rest.to_multiset().insert(x).insert(sorted[0]) =~= rest.to_multiset().insert(
            sorted[0],
        ).insert(x));
    }
}

/// The log view shows the newest entries first: no entry is followed by one
/// with a later time, and the sort keeps every entry, as often as it came.
pub proof fn law_log_view_newest_first(keyed: Seq<(Option<(i64, u32)>, DiscoveryLogEntry)>)
    ensures
        instants_newest_first(by_instant(keyed)),
        by_instant(keyed).len() == keyed.len(),
        by_instant(keyed).to_multiset() =~= keyed.to_multiset(),
    decreases keyed.len(),
{
    if keyed.len() > 0 {
        law_log_view_newest_first(keyed.drop_last());
        lemma_insert_by_instant(by_instant(keyed.drop_last()), keyed.last());
        lemma_insert_by_instant_keeps(by_instant(keyed.drop_last()), keyed.last());
        assert(keyed =~= keyed.drop_last().push(keyed.last()));
    }
}

} // verus!
