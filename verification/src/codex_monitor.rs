//! The state of the rate-limit monitor and the decisions of each poll. The
//! poll itself (reading the configuration, asking Codex for its sessions and
//! their responses, sleeping) is done by the program, which hands each step
//! to these methods.
use vstd::prelude::*;

use crate::config::{opt_view, FailoverSettings};
use crate::failover::matches_rate_limit;
pub use crate::lpad_monitor::RateLimitAlert;
pub use crate::lpad_monitor::truncate;
use crate::lpad_monitor::{alerts_view, with_newest, RateLimitAlertModel, MAX_RECENT_ALERTS};
use crate::session_checkpoint::{ProviderModeKind, SessionCheckpoint};
use crate::text::{
    chars_eq, chars_of, first_pattern_match, lemma_first_pattern_match_unique, str_to_string,
    truncate_spec,
};

verus! {

/// What the monitor shows.
pub struct CodexMonitorStatus {
    pub enabled: bool,
    pub auto_switch: bool,
    pub monitoring: bool,
    /// When the monitor last polled, in RFC 3339.
    pub last_poll_at: Option<String>,
    pub last_error: Option<String>,
    pub active_alert: Option<RateLimitAlert>,
    pub recent_alerts: Vec<RateLimitAlert>,
    pub last_checkpoint: Option<SessionCheckpoint>,
}

pub struct CodexMonitorStatusModel {
    pub enabled: bool,
    pub auto_switch: bool,
    pub monitoring: bool,
    pub last_poll_at: Option<Seq<char>>,
    pub last_error: Option<Seq<char>>,
    pub active_alert: Option<RateLimitAlertModel>,
    pub recent_alerts: Seq<RateLimitAlertModel>,
    pub last_checkpoint: Option<SessionCheckpoint>,
}

impl View for CodexMonitorStatus {
    type V = CodexMonitorStatusModel;

    open spec fn view(&self) -> CodexMonitorStatusModel {
        CodexMonitorStatusModel {
            enabled: self.enabled,
            auto_switch: self.auto_switch,
            monitoring: self.monitoring,
            last_poll_at: opt_view(self.last_poll_at),
            last_error: opt_view(self.last_error),
            active_alert: match self.active_alert {
                Some(a) => Some(a@),
                None => None,
            },
            recent_alerts: alerts_view(self.recent_alerts@),
            last_checkpoint: self.last_checkpoint,
        }
    }
}

/// The monitor: where its configuration is, the launcher's root, and what
/// it shows.
pub struct CodexMonitor {
    pub config_path: String,
    pub root: String,
    pub status: CodexMonitorStatus,
}

/// What recording an alert does: nothing when the active alert has the same
/// snippet; else the alert becomes the active one and the newest recent one.
pub open spec fn push_alert_spec(m: CodexMonitorStatusModel, a: RateLimitAlertModel) -> CodexMonitorStatusModel {
    if m.active_alert matches Some(e) && e.snippet == a.snippet {
        m
    } else {
        CodexMonitorStatusModel {
            active_alert: Some(a),
            recent_alerts: with_newest(m.recent_alerts, a),
            ..m
        }
    }
}

/// The alert raised for a session response that matched `pattern`.
pub open spec fn response_alert(
    pattern: Seq<char>,
    session_id: Seq<char>,
    content: Seq<char>,
    now: Seq<char>,
) -> RateLimitAlertModel {
    RateLimitAlertModel {
        detected_at: now,
        matched_pattern: pattern,
        source: "session_response"@,
        session_id: Some(session_id),
        snippet: truncate_spec(content, 240, "..."@),
        dismissed: false,
    }
}

impl CodexMonitor {
    /// A monitor that has not polled yet, enabled as `settings` say.
    pub fn new(config_path: String, root: String, settings: &FailoverSettings) -> (r: CodexMonitor)
        ensures
            r.config_path@ == config_path@,
            r.root@ == root@,
            r.status@ == (CodexMonitorStatusModel {
                enabled: settings.enabled,
                auto_switch: settings.auto_switch,
                monitoring: settings.enabled,
                last_poll_at: None,
                last_error: None,
                active_alert: None,
                recent_alerts: Seq::empty(),
                last_checkpoint: None,
            }),
    {
        let r = CodexMonitor {
            config_path,
            root,
            status: CodexMonitorStatus {
                enabled: settings.enabled,
                auto_switch: settings.auto_switch,
                monitoring: settings.enabled,
                last_poll_at: None,
                last_error: None,
                active_alert: None,
                recent_alerts: Vec::new(),
                last_checkpoint: None,
            },
        };
        assert(alerts_view(r.status.recent_alerts@) =~= Seq::<RateLimitAlertModel>::empty());
        r
    }

    /// What the monitor shows.
    pub fn status(&self) -> (r: &CodexMonitorStatus)
        ensures
            r@ == self.status@,
    {
        &self.status
    }

    /// Clears the active alert; the recent list keeps it.
    pub fn dismiss_alert(&mut self)
        ensures
            final(self).status@ == (CodexMonitorStatusModel { active_alert: None, ..old(self).status@ }),
            final(self).config_path == old(self).config_path,
            final(self).root == old(self).root,
    {
        self.status.active_alert = None;
    }

    pub fn set_last_checkpoint(&mut self, checkpoint: SessionCheckpoint)
        ensures
            final(self).status@ == (CodexMonitorStatusModel {
                last_checkpoint: Some(checkpoint),
                ..old(self).status@
            }),
            final(self).config_path == old(self).config_path,
            final(self).root == old(self).root,
    {
        self.status.last_checkpoint = Some(checkpoint);
    }

    /// Records why a poll failed.
    pub fn record_error(&mut self, error: String)
        ensures
            final(self).status@ == (CodexMonitorStatusModel {
                last_error: Some(error@),
                ..old(self).status@
            }),
            final(self).config_path == old(self).config_path,
            final(self).root == old(self).root,
    {
        self.status.last_error = Some(error);
    }

    /// Records that Codex answered the poll.
    pub fn clear_error(&mut self)
        ensures
            final(self).status@ == (CodexMonitorStatusModel { last_error: None, ..old(self).status@ }),
            final(self).config_path == old(self).config_path,
            final(self).root == old(self).root,
    {
        self.status.last_error = None;
    }

    /// Starts a poll at `now` with the settings just read, and says whether
    /// to go on and look at Codex's sessions: only when monitoring is on and
    /// Codex is not on the launcher's local API.
    pub fn begin_poll(
        &mut self,
        settings: &FailoverSettings,
        provider_mode: ProviderModeKind,
        now: String,
    ) -> (go_on: bool)
        ensures
            final(self).status@ == (CodexMonitorStatusModel {
                enabled: settings.enabled,
                auto_switch: settings.auto_switch,
                monitoring: settings.enabled,
                last_poll_at: Some(now@),
                ..old(self).status@
            }),
            final(self).config_path == old(self).config_path,
            final(self).root == old(self).root,
            go_on == (settings.enabled && provider_mode != ProviderModeKind::LocalApi),
    {
        self.status.enabled = settings.enabled;
        self.status.auto_switch = settings.auto_switch;
        self.status.monitoring = settings.enabled;
        self.status.last_poll_at = Some(now);
        settings.enabled && provider_mode != ProviderModeKind::LocalApi
    }

    /// Records an alert unless the active one has the same snippet.
    pub fn push_alert(&mut self, alert: RateLimitAlert)
        ensures
            final(self).status@ == push_alert_spec(old(self).status@, alert@),
            final(self).config_path == old(self).config_path,
            final(self).root == old(self).root,
    {
        if let Some(existing) = &self.status.active_alert {
            if chars_eq(&chars_of(existing.snippet.as_str()), &chars_of(alert.snippet.as_str())) {
                return;
            }
        }
        let copy = alert.duplicate();
        let ghost before = alerts_view(self.status.recent_alerts@);
        self.status.active_alert = Some(alert);
        self.status.recent_alerts.insert(0, copy);
        self.status.recent_alerts.truncate(MAX_RECENT_ALERTS);
        assert(alerts_view(self.status.recent_alerts@) =~= with_newest(before, copy@));
    }

    /// Looks at the latest response of a session at `now`: when it matches a
    /// rate-limit pattern of `settings`, raises the alert and says so; the
    /// poll then stops.
    pub fn observe_response(
        &mut self,
        settings: &FailoverSettings,
        session_id: &str,
        content: &str,
        now: String,
    ) -> (raised: bool)
        ensures
            final(self).config_path == old(self).config_path,
            final(self).root == old(self).root,
            first_pattern_match(content@, settings@.rate_limit_patterns, None) ==> {
                &&& !raised
                &&& final(self).status@ == old(self).status@
            },
            forall|p: Seq<char>|
                first_pattern_match(content@, settings@.rate_limit_patterns, Some(p)) ==> {
                    &&& raised
                    &&& final(self).status@ == push_alert_spec(
                        old(self).status@,
                        response_alert(p, session_id@, content@, now@),
                    )
                },
    {
        let matched = matches_rate_limit(content, &settings.rate_limit_patterns);
        proof {
            assert forall|p: Seq<char>|
                first_pattern_match(
                    content@,
                    settings@.rate_limit_patterns,
                    Some(p),
                ) implies opt_view(matched) == Some(p) by {
                lemma_first_pattern_match_unique(
                    content@,
                    settings@.rate_limit_patterns,
                    opt_view(matched),
                    Some(p),
                );
            }
            if first_pattern_match(content@, settings@.rate_limit_patterns, None) {
                lemma_first_pattern_match_unique(
                    content@,
                    settings@.rate_limit_patterns,
                    opt_view(matched),
                    None,
                );
            }
        }
        match matched {
            Some(pattern) => {
                let alert = RateLimitAlert {
                    detected_at: now,
                    matched_pattern: pattern,
                    source: str_to_string("session_response"),
                    session_id: Some(str_to_string(session_id)),
                    snippet: truncate(content, 240),
                    dismissed: false,
                };
                self.push_alert(alert);
                true
            },
            None => false,
        }
    }
}

} // verus!
