//! The decisions of the background watch: which alerts to raise when the
//! connection to the endpoint or to Codex changes, which session replies to
//! look at again, and how the lists of recent alerts are kept.
//!
//! The watch itself (reading the configuration, probing, talking to Codex,
//! logging, sleeping) runs around these functions and hands them what it
//! observed.
use vstd::prelude::*;

use crate::config::{opt_view, strings_view};
use crate::connection_watch::{
    matches_connection_failure, ConnectionAlert, ConnectionAlertKind, EndpointHealth,
};
use crate::failover::{
    matches_rate_limit, rate_limit_reached_from_status, should_failover_for_rate_limits,
    APP_SERVER_RATE_LIMIT_SOURCE,
};
use crate::lpad_app_server::{
    rate_limit_reached_type, rate_limit_status_snippet, reached_type_spec, status_snippet_spec,
    CodexRateLimitsStatus,
};
use crate::rate_limit_watch::{looks_interesting, looks_interesting_spec};
use crate::session_checkpoint::ProviderModeKind;
use crate::text::{
    append_str, chars_eq, chars_of, first_pattern_match, push_char, str_eq, str_to_string, string_of,
    truncate_spec, truncate_with,
};

verus! {

/// The most alerts that the recent lists keep.
pub const MAX_RECENT_ALERTS: usize = 20;

/// `value` shortened to at most `max_len` bytes, with `...` where it was cut.
pub fn truncate(value: &str, max_len: usize) -> (r: String)
    ensures
        r@ == truncate_spec(value@, max_len as int, "..."@),
{
    truncate_with(value, max_len, "...")
}

// ---------------------------------------------------------------------------
// Rate-limit alerts
// ---------------------------------------------------------------------------
#[derive(Debug)]
pub struct RateLimitAlert {
    /// When the alert was raised, in RFC 3339.
    pub detected_at: String,
    pub matched_pattern: String,
    pub source: String,
    pub session_id: Option<String>,
    pub snippet: String,
    pub dismissed: bool,
}

pub struct RateLimitAlertModel {
    pub detected_at: Seq<char>,
    pub matched_pattern: Seq<char>,
    pub source: Seq<char>,
    pub session_id: Option<Seq<char>>,
    pub snippet: Seq<char>,
    pub dismissed: bool,
}

impl View for RateLimitAlert {
    type V = RateLimitAlertModel;

    open spec fn view(&self) -> RateLimitAlertModel {
        RateLimitAlertModel {
            detected_at: self.detected_at@,
            matched_pattern: self.matched_pattern@,
            source: self.source@,
            session_id: opt_view(self.session_id),
            snippet: self.snippet@,
            dismissed: self.dismissed,
        }
    }
}

impl RateLimitAlert {
    pub fn duplicate(&self) -> (r: RateLimitAlert)
        ensures
            r@ == self@,
    {
        RateLimitAlert {
            detected_at: self.detected_at.clone(),
            matched_pattern: self.matched_pattern.clone(),
            source: self.source.clone(),
            session_id: match &self.session_id {
                Some(s) => Some(s.clone()),
                None => None,
            },
            snippet: self.snippet.clone(),
            dismissed: self.dismissed,
        }
    }
}

pub open spec fn alerts_view(v: Seq<RateLimitAlert>) -> Seq<RateLimitAlertModel> {
    v.map_values(|a: RateLimitAlert| a@)
}

/// `recent` with `a` put first, keeping at most `MAX_RECENT_ALERTS`.
pub open spec fn with_newest<T>(recent: Seq<T>, a: T) -> Seq<T> {
    let all = seq![a] + recent;
    if all.len() <= 20 {
        all
    } else {
        all.subrange(0, 20)
    }
}

/// Whether a new rate-limit alert repeats the active one: same source,
/// pattern and snippet.
pub open spec fn same_rate_limit_alert(e: RateLimitAlertModel, a: RateLimitAlertModel) -> bool {
    e.source == a.source && e.matched_pattern == a.matched_pattern && e.snippet == a.snippet
}

/// Whether a new connection alert repeats the active one: same kind and
/// message.
pub open spec fn same_connection_alert(e: ConnectionAlert, a: ConnectionAlert) -> bool {
    e.kind == a.kind && e.message@ == a.message@
}

/// The active alerts and the recent ones, newest first.
pub struct MonitorAlerts {
    pub active_alert: Option<RateLimitAlert>,
    pub recent_alerts: Vec<RateLimitAlert>,
    pub active_connection_alert: Option<ConnectionAlert>,
    pub recent_connection_alerts: Vec<ConnectionAlert>,
}

pub struct MonitorAlertsModel {
    pub active_alert: Option<RateLimitAlertModel>,
    pub recent_alerts: Seq<RateLimitAlertModel>,
    pub active_connection_alert: Option<ConnectionAlert>,
    pub recent_connection_alerts: Seq<ConnectionAlert>,
}

impl View for MonitorAlerts {
    type V = MonitorAlertsModel;

    open spec fn view(&self) -> MonitorAlertsModel {
        MonitorAlertsModel {
            active_alert: match self.active_alert {
                Some(a) => Some(a@),
                None => None,
            },
            recent_alerts: alerts_view(self.recent_alerts@),
            active_connection_alert: self.active_connection_alert,
            recent_connection_alerts: self.recent_connection_alerts@,
        }
    }
}

/// What recording a rate-limit alert does: nothing when it repeats the
/// active one, else it becomes the active one and the newest recent one.
pub open spec fn push_alert_spec(m: MonitorAlertsModel, a: RateLimitAlertModel) -> MonitorAlertsModel {
    if m.active_alert matches Some(e) && same_rate_limit_alert(e, a) {
        m
    } else {
        MonitorAlertsModel {
            active_alert: Some(a),
            recent_alerts: with_newest(m.recent_alerts, a),
            ..m
        }
    }
}

/// What recording a connection alert does: nothing when it repeats the
/// active one, else it becomes the active one and the newest recent one.
pub open spec fn push_connection_alert_spec(m: MonitorAlertsModel, a: ConnectionAlert) -> MonitorAlertsModel {
    if m.active_connection_alert matches Some(e) && same_connection_alert(e, a) {
        m
    } else {
        MonitorAlertsModel {
            active_connection_alert: Some(a),
            recent_connection_alerts: with_newest(m.recent_connection_alerts, a),
            ..m
        }
    }
}

/// The recent lists hold at most `MAX_RECENT_ALERTS` alerts each.
pub open spec fn alerts_bounded(m: MonitorAlertsModel) -> bool {
    m.recent_alerts.len() <= 20 && m.recent_connection_alerts.len() <= 20
}

impl MonitorAlerts {
    pub fn new() -> (r: MonitorAlerts)
        ensures
            r@.active_alert is None,
            r@.recent_alerts.len() == 0,
            r@.active_connection_alert is None,
            r@.recent_connection_alerts.len() == 0,
    {
        MonitorAlerts {
            active_alert: None,
            recent_alerts: Vec::new(),
            active_connection_alert: None,
            recent_connection_alerts: Vec::new(),
        }
    }

    /// Records a rate-limit alert unless it repeats the active one.
    pub fn push_alert(&mut self, alert: RateLimitAlert)
        ensures
            final(self)@ == push_alert_spec(old(self)@, alert@),
    {
        if let Some(existing) = &self.active_alert {
            let same = chars_eq(&chars_of(existing.source.as_str()), &chars_of(alert.source.as_str()))
                && chars_eq(
                &chars_of(existing.matched_pattern.as_str()),
                &chars_of(alert.matched_pattern.as_str()),
            ) && chars_eq(&chars_of(existing.snippet.as_str()), &chars_of(alert.snippet.as_str()));
            if same {
                return;
            }
        }
        let copy = alert.duplicate();
        let ghost before = alerts_view(self.recent_alerts@);
        self.active_alert = Some(alert);
        self.recent_alerts.insert(0, copy);
        self.recent_alerts.truncate(MAX_RECENT_ALERTS);
        assert(alerts_view(self.recent_alerts@) =~= with_newest(before, copy@));
    }

    /// Records a connection alert unless it repeats the active one.
    pub fn push_connection_alert(&mut self, alert: ConnectionAlert)
        ensures
            final(self)@ == push_connection_alert_spec(old(self)@, alert),
    {
        if let Some(existing) = &self.active_connection_alert {
            if existing.kind == alert.kind && chars_eq(
                &chars_of(existing.message.as_str()),
                &chars_of(alert.message.as_str()),
            ) {
                return;
            }
        }
        let ghost before = self.recent_connection_alerts@;
        let copy = alert.duplicate();
        self.active_connection_alert = Some(alert);
        self.recent_connection_alerts.insert(0, copy);
        self.recent_connection_alerts.truncate(MAX_RECENT_ALERTS);
        assert(self.recent_connection_alerts@ =~= with_newest(before, alert));
    }

    /// Clears the active rate-limit alert; the recent list keeps it.
    pub fn dismiss_alert(&mut self)
        ensures
            final(self)@ == (MonitorAlertsModel { active_alert: None, ..old(self)@ }),
    {
        self.active_alert = None;
    }

    /// Clears the active connection alert; the recent list keeps it.
    pub fn dismiss_connection_alert(&mut self)
        ensures
            final(self)@ == (MonitorAlertsModel { active_connection_alert: None, ..old(self)@ }),
    {
        self.active_connection_alert = None;
    }
}

// ---------------------------------------------------------------------------
// Connection transitions
// ---------------------------------------------------------------------------
/// What the watch remembers between polls about the connection.
#[derive(Clone, Copy, Debug, PartialEq, Eq, Structural)]
pub struct ConnectionWatch {
    pub last_codex_running: Option<bool>,
    pub last_codex_api_ready: Option<bool>,
    pub last_endpoint_reachable: Option<bool>,
}

/// What one poll observed.
#[derive(Clone, Copy, Debug, PartialEq, Eq, Structural)]
pub struct ConnectionObservation {
    pub process_running: bool,
    pub codex_api_ready: bool,
    pub provider_mode: ProviderModeKind,
    /// Whether the endpoint answered, when it was probed in this poll.
    pub endpoint_reachable: Option<bool>,
}

#[derive(Clone, Copy, Debug, PartialEq, Eq, Structural)]
pub enum ProcessChange {
    Started,
    Stopped,
}

/// What a poll calls for: a log line about the Codex process, and the
/// alerts to raise.
#[derive(Clone, Copy, Debug, PartialEq, Eq, Structural)]
pub struct ConnectionVerdict {
    pub process_change: Option<ProcessChange>,
    pub api_alert: Option<ConnectionAlertKind>,
    pub endpoint_alert: Option<ConnectionAlertKind>,
}

/// Whether the endpoint is probed in poll number `poll_count`: always in
/// local-API mode, else every other poll.
pub fn should_probe_endpoint(provider_mode: ProviderModeKind, poll_count: u64) -> (r: bool)
    ensures
        r == (provider_mode == ProviderModeKind::LocalApi || poll_count % 2 == 0),
{
    provider_mode == ProviderModeKind::LocalApi || poll_count % 2 == 0
}

/// The change of a remembered flag into a new value: `down` when it went
/// from true to false, `up` when it went from false to true.
pub open spec fn flip<T>(last: Option<bool>, now: bool, down: T, up: T) -> Option<T> {
    match last {
        Some(true) => if !now {
            Some(down)
        } else {
            None
        },
        Some(false) => if now {
            Some(up)
        } else {
            None
        },
        None => None,
    }
}

pub open spec fn observe_spec(w: ConnectionWatch, o: ConnectionObservation) -> (
    ConnectionWatch,
    ConnectionVerdict,
) {
    let process_change = flip(
        w.last_codex_running,
        o.process_running,
        ProcessChange::Stopped,
        ProcessChange::Started,
    );
    let api_alert = if o.process_running {
        flip(
            w.last_codex_api_ready,
            o.codex_api_ready,
            ConnectionAlertKind::CodexApiDown,
            ConnectionAlertKind::CodexApiRestored,
        )
    } else {
        None
    };
    let local = o.provider_mode == ProviderModeKind::LocalApi;
    let endpoint_alert = match o.endpoint_reachable {
        Some(r) => if local {
            flip(
                w.last_endpoint_reachable,
                r,
                ConnectionAlertKind::EndpointDown,
                ConnectionAlertKind::EndpointRestored,
            )
        } else {
            None
        },
        None => None,
    };
    let next = ConnectionWatch {
        last_codex_running: Some(o.process_running),
        last_codex_api_ready: if o.process_running {
            Some(o.codex_api_ready)
        } else {
            None
        },
        last_endpoint_reachable: match o.endpoint_reachable {
            Some(r) => if local {
                Some(r)
            } else {
                w.last_endpoint_reachable
            },
            None => w.last_endpoint_reachable,
        },
    };
    (next, ConnectionVerdict { process_change, api_alert, endpoint_alert })
}

fn flip_exec<T: Copy>(last: Option<bool>, now: bool, down: T, up: T) -> (r: Option<T>)
    ensures
        r == flip(last, now, down, up),
{
    match last {
        Some(true) => if !now {
            Some(down)
        } else {
            None
        },
        Some(false) => if now {
            Some(up)
        } else {
            None
        },
        None => None,
    }
}

impl ConnectionWatch {
    pub fn new() -> (w: ConnectionWatch)
        ensures
            w.last_codex_running is None,
            w.last_codex_api_ready is None,
            w.last_endpoint_reachable is None,
    {
        ConnectionWatch {
            last_codex_running: None,
            last_codex_api_ready: None,
            last_endpoint_reachable: None,
        }
    }

    /// Takes in one poll's observation and says what it calls for: an alert
    /// only where a remembered state flips.
    pub fn observe(&mut self, o: ConnectionObservation) -> (v: ConnectionVerdict)
        ensures
            (*final(self), v) == observe_spec(*old(self), o),
    {
        let process_change = flip_exec(
            self.last_codex_running,
            o.process_running,
            ProcessChange::Stopped,
            ProcessChange::Started,
        );
        self.last_codex_running = Some(o.process_running);
        let api_alert = if o.process_running {
            let a = flip_exec(
                self.last_codex_api_ready,
                o.codex_api_ready,
                ConnectionAlertKind::CodexApiDown,
                ConnectionAlertKind::CodexApiRestored,
            );
            self.last_codex_api_ready = Some(o.codex_api_ready);
            a
        } else {
            self.last_codex_api_ready = None;
            None
        };
        let mut endpoint_alert: Option<ConnectionAlertKind> = None;
        if o.provider_mode == ProviderModeKind::LocalApi {
            if let Some(r) = o.endpoint_reachable {
                endpoint_alert = flip_exec(
                    self.last_endpoint_reachable,
                    r,
                    ConnectionAlertKind::EndpointDown,
                    ConnectionAlertKind::EndpointRestored,
                );
                self.last_endpoint_reachable = Some(r);
            }
        }
        ConnectionVerdict { process_change, api_alert, endpoint_alert }
    }
}

/// A connection state that has not changed raises nothing: observing the
/// same poll twice, the second observation calls for no log line and no
/// alert, and leaves the remembered state as it was.
pub proof fn law_repeated_observation_is_quiet(w: ConnectionWatch, o: ConnectionObservation)
    ensures
        ({
            let (w1, _) = observe_spec(w, o);
            let (w2, v2) = observe_spec(w1, o);
            &&& w2 == w1
            &&& v2.process_change is None
            &&& v2.api_alert is None
            &&& v2.endpoint_alert is None
        }),
{
}

/// An alert is raised only on a change: the API alert says the API went down
/// exactly when it was ready at the last poll and is not now, with Codex
/// running.
pub proof fn law_api_alert_only_on_flip(w: ConnectionWatch, o: ConnectionObservation)
    ensures
        observe_spec(w, o).1.api_alert == Some(ConnectionAlertKind::CodexApiDown) <==> (
        o.process_running && w.last_codex_api_ready == Some(true) && !o.codex_api_ready),
        observe_spec(w, o).1.api_alert == Some(ConnectionAlertKind::CodexApiRestored) <==> (
        o.process_running && w.last_codex_api_ready == Some(false) && o.codex_api_ready),
{
}

/// Recording the same rate-limit alert twice is the same as recording it
/// once.
pub proof fn law_push_alert_idempotent(m: MonitorAlertsModel, a: RateLimitAlertModel)
    ensures
        push_alert_spec(push_alert_spec(m, a), a) == push_alert_spec(m, a),
{
}

/// Recording the same connection alert twice is the same as recording it
/// once.
pub proof fn law_push_connection_alert_idempotent(m: MonitorAlertsModel, a: ConnectionAlert)
    ensures
        push_connection_alert_spec(push_connection_alert_spec(m, a), a)
            == push_connection_alert_spec(m, a),
{
}

/// Recording alerts never lets a recent list grow past `MAX_RECENT_ALERTS`,
/// and an alert that is recorded becomes the active one.
pub proof fn law_alert_lists_stay_bounded(
    m: MonitorAlertsModel,
    a: RateLimitAlertModel,
    c: ConnectionAlert,
)
    requires
        alerts_bounded(m),
    ensures
        alerts_bounded(push_alert_spec(m, a)),
        alerts_bounded(push_connection_alert_spec(m, c)),
        push_alert_spec(m, a).active_alert matches Some(x) && same_rate_limit_alert(x, a),
        push_connection_alert_spec(m, c).active_connection_alert matches Some(x)
            && same_connection_alert(x, c),
{
}

// ---------------------------------------------------------------------------
// Session replies
// ---------------------------------------------------------------------------
/// The last fingerprint seen for each session, at most one per session.
pub struct FingerprintTable {
    entries: Vec<(String, String)>,
}

pub open spec fn entries_view(v: Seq<(String, String)>) -> Seq<(Seq<char>, Seq<char>)> {
    v.map_values(|e: (String, String)| (e.0@, e.1@))
}

/// The map of a list of distinct keys and their values.
pub open spec fn entries_map(v: Seq<(Seq<char>, Seq<char>)>) -> Map<Seq<char>, Seq<char>>
    decreases v.len(),
{
    if v.len() == 0 {
        Map::empty()
    } else {
        entries_map(v.drop_last()).insert(v.last().0, v.last().1)
    }
}

pub open spec fn keys_distinct(v: Seq<(Seq<char>, Seq<char>)>) -> bool {
    forall|i: int, j: int| 0 <= i < j < v.len() ==> #[trigger] v[i].0 != #[trigger] v[j].0
}

proof fn lemma_entries_map_lookup(v: Seq<(Seq<char>, Seq<char>)>, k: Seq<char>)
    requires
        keys_distinct(v),
    ensures
        entries_map(v).dom().contains(k) <==> exists|i: int| 0 <= i < v.len() && #[trigger] v[i].0 == k,
        forall|i: int| 0 <= i < v.len() && #[trigger] v[i].0 == k ==> entries_map(v)[k] == v[i].1,
    decreases v.len(),
{
    if v.len() > 0 {
        let w = v.drop_last();
        assert(keys_distinct(w));
        lemma_entries_map_lookup(w, k);
        if exists|i: int| 0 <= i < v.len() && #[trigger] v[i].0 == k {
            let i = choose|i: int| 0 <= i < v.len() && #[trigger] v[i].0 == k;
            if i < v.len() - 1 {
                assert(w[i].0 == k);
            }
        }
        assert forall|i: int| 0 <= i < v.len() && #[trigger] v[i].0 == k implies entries_map(v)[k]
            == v[i].1 by {
            if i < v.len() - 1 {
                assert(w[i] == v[i]);
                assert(v[i].0 != v[v.len() - 1].0);
            }
        }
    }
}

proof fn lemma_entries_map_update(v: Seq<(Seq<char>, Seq<char>)>, i: int, val: Seq<char>)
    requires
        keys_distinct(v),
        0 <= i < v.len(),
    ensures
        entries_map(v.update(i, (v[i].0, val))) == entries_map(v).insert(v[i].0, val),
        keys_distinct(v.update(i, (v[i].0, val))),
    decreases v.len(),
{
    let u = v.update(i, (v[i].0, val));
    if i == v.len() - 1 {
        assert(u.drop_last() =~= v.drop_last());
        assert(entries_map(u) =~= entries_map(v).insert(v[i].0, val));
    } else {
        let w = v.drop_last();
        assert(keys_distinct(w));
        lemma_entries_map_update(w, i, val);
        assert(u.drop_last() =~= w.update(i, (w[i].0, val)));
        assert(v[i].0 != v.last().0);
        assert(entries_map(u) =~= entries_map(v).insert(v[i].0, val));
    }
}

impl View for FingerprintTable {
    type V = Map<Seq<char>, Seq<char>>;

    closed spec fn view(&self) -> Map<Seq<char>, Seq<char>> {
        entries_map(entries_view(self.entries@))
    }
}

impl FingerprintTable {
    #[verifier::type_invariant]
    spec fn distinct(&self) -> bool {
        keys_distinct(entries_view(self.entries@))
    }

    pub fn new() -> (t: FingerprintTable)
        ensures
            t@ == Map::<Seq<char>, Seq<char>>::empty(),
    {
        let t = FingerprintTable { entries: Vec::new() };
        assert(entries_view(t.entries@) =~= Seq::<(Seq<char>, Seq<char>)>::empty());
        t
    }

    fn position(&self, key: &str) -> (r: Option<usize>)
        ensures
            match r {
                Some(i) => i < self.entries.len() && entries_view(self.entries@)[i as int].0
                    == key@,
                None => forall|i: int|
                    0 <= i < self.entries.len() ==> #[trigger] entries_view(
                        self.entries@,
                    )[i].0 != key@,
            },
    {
        let k = chars_of(key);
        let mut i: usize = 0;
        while i < self.entries.len()
            invariant
                i <= self.entries.len(),
                k@ == key@,
                forall|j: int|
                    0 <= j < i ==> #[trigger] entries_view(self.entries@)[j].0 != key@,
            decreases self.entries.len() - i,
        {
            let e = chars_of(self.entries[i].0.as_str());
            if chars_eq(&e, &k) {
                return Some(i);
            }
            i += 1;
        }
        None
    }

    /// The last fingerprint recorded for `key`.
    pub fn get(&self, key: &str) -> (r: Option<String>)
        ensures
            opt_view(r) == (if self@.dom().contains(key@) {
                Some(self@[key@])
            } else {
                None
            }),
    {
        proof {
            use_type_invariant(self);
            lemma_entries_map_lookup(entries_view(self.entries@), key@);
        }
        match self.position(key) {
            Some(i) => {
                assert(entries_view(self.entries@)[i as int].0 == key@);
                Some(self.entries[i].1.clone())
            },
            None => None,
        }
    }

    /// Records `value` as the fingerprint of `key`.
    pub fn insert(&mut self, key: &str, value: String)
        ensures
            final(self)@ == old(self)@.insert(key@, value@),
    {
        proof {
            use_type_invariant(&*self);
        }
        let ghost before = entries_view(self.entries@);
        match self.position(key) {
            Some(i) => {
                let k = self.entries[i].0.clone();
                let ghost kv = k@;
                let mut entries: Vec<(String, String)> = Vec::new();
                std::mem::swap(&mut entries, &mut self.entries);
                entries.set(i, (k, value));
                proof {
                    lemma_entries_map_update(before, i as int, value@);
                    assert(entries_view(entries@) =~= before.update(i as int, (kv, value@)));
                }
                self.entries = entries;
            },
            None => {
                let mut entries: Vec<(String, String)> = Vec::new();
                std::mem::swap(&mut entries, &mut self.entries);
                let ghost kv = key@;
                entries.push((str_to_string(key), value));
                proof {
                    assert(entries_view(entries@) =~= before.push((kv, value@)));
                    assert(entries_view(entries@).drop_last() =~= before);
                }
                self.entries = entries;
            },
        }
    }
}

/// The fingerprint of a session reply: role, completion and the start of the
/// content.
pub open spec fn fingerprint_spec(role: Seq<char>, done: bool, content: Seq<char>) -> Seq<char> {
    role + seq![':'] + (if done {
        "true"@
    } else {
        "false"@
    }) + seq![':'] + truncate_spec(content, 512, "..."@)
}

pub fn session_fingerprint(role: &str, done: bool, content: &str) -> (r: String)
    ensures
        r@ == fingerprint_spec(role@, done, content@),
{
    let mut out = chars_of(role);
    out.push(':');
    if done {
        append_str(&mut out, "true");
    } else {
        append_str(&mut out, "false");
    }
    out.push(':');
    let t = truncate(content, 512);
    append_str(&mut out, t.as_str());
    string_of(&out)
}

/// What one session reply calls for.
pub struct SessionFindings {
    /// Whether the reply differs from the one seen last for this session.
    pub changed: bool,
    /// The connection-failure pattern found in a changed reply.
    pub connection_match: Option<String>,
    /// Whether a changed reply is worth recording.
    pub interesting: bool,
    /// The rate-limit pattern found in the reply, when rate limits are checked.
    pub rate_limit_match: Option<String>,
}

/// Looks at one session reply: records its fingerprint, and reports the
/// connection failure and the interest of a reply that changed, and the
/// rate-limit pattern it matches when `check_rate_limits` is set.
pub fn observe_session_reply(
    table: &mut FingerprintTable,
    session_id: &str,
    role: &str,
    done: bool,
    content: &str,
    check_rate_limits: bool,
    connection_patterns: &Vec<String>,
    rate_limit_patterns: &Vec<String>,
) -> (f: SessionFindings)
    ensures
        ({
            let fp = fingerprint_spec(role@, done, content@);
            let changed = !(old(table)@.dom().contains(session_id@) && old(table)@[session_id@]
                == fp);
            &&& f.changed == changed
            &&& final(table)@ == if changed {
                old(table)@.insert(session_id@, fp)
            } else {
                old(table)@
            }
            &&& changed ==> first_pattern_match(
                content@,
                strings_view(connection_patterns@),
                opt_view(f.connection_match),
            )
            &&& !changed ==> f.connection_match is None
            &&& f.interesting == (changed && looks_interesting_spec(content@))
            &&& check_rate_limits ==> first_pattern_match(
                content@,
                strings_view(rate_limit_patterns@),
                opt_view(f.rate_limit_match),
            )
            &&& !check_rate_limits ==> f.rate_limit_match is None
        }),
{
    let fingerprint = session_fingerprint(role, done, content);
    let previous = table.get(session_id);
    let changed = match &previous {
        Some(p) => !chars_eq(&chars_of(p.as_str()), &chars_of(fingerprint.as_str())),
        None => true,
    };
    let mut connection_match: Option<String> = None;
    let mut interesting = false;
    if changed {
        table.insert(session_id, fingerprint);
        connection_match = matches_connection_failure(content, connection_patterns);
        interesting = looks_interesting(content);
    }
    let rate_limit_match = if check_rate_limits {
        matches_rate_limit(content, rate_limit_patterns)
    } else {
        None
    };
    SessionFindings { changed, connection_match, interesting, rate_limit_match }
}

// ---------------------------------------------------------------------------
// The app-server's rate-limit reading
// ---------------------------------------------------------------------------
/// Whether this poll also reads the app-server's rate limits: every sixth.
pub fn structured_poll_due(poll_count: u64) -> (r: bool)
    ensures
        r == (poll_count % 6 == 0),
{
    poll_count % 6 == 0
}

/// What tells one reading from the next in the log: whether it succeeded,
/// its error, the reason for a reached limit and the summary, joined by `|`.
pub open spec fn poll_signature_spec(status: CodexRateLimitsStatus) -> Seq<char> {
    (if status.ok {
        "true"@
    } else {
        "false"@
    }) + "|"@ + (match status.error {
        Some(e) => e@,
        None => Seq::<char>::empty(),
    }) + "|"@ + (match reached_type_spec(status) {
        Some(t) => t,
        None => Seq::<char>::empty(),
    }) + "|"@ + status_snippet_spec(status)
}

pub fn rate_limits_poll_signature(status: &CodexRateLimitsStatus) -> (r: String)
    ensures
        r@ == poll_signature_spec(*status),
{
    let mut v: Vec<char> = Vec::new();
    if status.ok {
        append_str(&mut v, "true");
    } else {
        append_str(&mut v, "false");
    }
    append_str(&mut v, "|");
    match &status.error {
        Some(e) => append_str(&mut v, e.as_str()),
        None => {},
    }
    append_str(&mut v, "|");
    match rate_limit_reached_type(status) {
        Some(t) => append_str(&mut v, t.as_str()),
        None => {},
    }
    append_str(&mut v, "|");
    let snippet = rate_limit_status_snippet(status);
    append_str(&mut v, snippet.as_str());
    assert(v@ =~= poll_signature_spec(*status));
    string_of(&v)
}

/// The alert that a reading that reports a reached limit raises at `now`.
pub open spec fn structured_alert(status: CodexRateLimitsStatus, now: Seq<char>) -> RateLimitAlertModel {
    RateLimitAlertModel {
        detected_at: now,
        matched_pattern: match reached_type_spec(status) {
            Some(t) => t,
            None => Seq::empty(),
        },
        source: "app_server_rate_limits"@,
        session_id: None,
        snippet: status_snippet_spec(status),
        dismissed: false,
    }
}

/// What a rate-limit reading did to the alerts.
#[derive(Clone, Copy, Debug, PartialEq, Eq, Structural)]
pub enum StructuredOutcome {
    /// A reached limit raised an alert; the watch saves a checkpoint.
    Raised,
    /// The limit is no longer reached and its alert was cleared.
    Cleared,
    Unchanged,
}

/// Whether the active alert is an undismissed one of the app-server.
pub open spec fn app_server_alert_active(m: MonitorAlertsModel) -> bool {
    m.active_alert matches Some(a) && a.source == "app_server_rate_limits"@ && !a.dismissed
}

impl MonitorAlerts {
    /// Acts on a reading of the app-server's rate limits taken at `now`: a
    /// reached limit raises an alert; else an active alert of the app-server
    /// is cleared.
    pub fn observe_structured_rate_limits(&mut self, status: &CodexRateLimitsStatus, now: String) -> (r:
        StructuredOutcome)
        ensures
            status.ok && reached_type_spec(*status) is Some ==> {
                &&& r == StructuredOutcome::Raised
                &&& final(self)@ == push_alert_spec(old(self)@, structured_alert(*status, now@))
            },
            !(status.ok && reached_type_spec(*status) is Some) && app_server_alert_active(old(self)@)
                ==> {
                &&& r == StructuredOutcome::Cleared
                &&& final(self)@ == (MonitorAlertsModel { active_alert: None, ..old(self)@ })
            },
            !(status.ok && reached_type_spec(*status) is Some) && !app_server_alert_active(old(self)@)
                ==> {
                &&& r == StructuredOutcome::Unchanged
                &&& final(self)@ == old(self)@
            },
    {
        if should_failover_for_rate_limits(status) {
            let reached = match rate_limit_reached_from_status(status) {
                Some(t) => t,
                None => string_of(&Vec::new()),
            };
            let alert = RateLimitAlert {
                detected_at: now,
                matched_pattern: reached,
                source: str_to_string(APP_SERVER_RATE_LIMIT_SOURCE),
                session_id: None,
                snippet: rate_limit_status_snippet(status),
                dismissed: false,
            };
            assert(alert@ == structured_alert(*status, now@));
            self.push_alert(alert);
            return StructuredOutcome::Raised;
        }
        let clear = match &self.active_alert {
            Some(a) => !a.dismissed && str_eq(a.source.as_str(), APP_SERVER_RATE_LIMIT_SOURCE),
            None => false,
        };
        if clear {
            self.dismiss_alert();
            StructuredOutcome::Cleared
        } else {
            StructuredOutcome::Unchanged
        }
    }
}

} // verus!
