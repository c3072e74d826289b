//! What a session checkpoint records, the prompt that resumes from it, and
//! the recognition of an active goal in a conversation.
use vstd::prelude::*;

use crate::config::opt_view;
use crate::text::{
    append_chars, append_str, chars_of, contains, contains_str, lowercase, starts_with,
    starts_with_str, string_of, to_lowercase, trim, trim_chars,
};

verus! {

/// Whether Codex talks to its own account or to the configured local API.
#[derive(Clone, Copy, Debug, PartialEq, Eq, Structural)]
pub enum ProviderModeKind {
    CodexAccount,
    LocalApi,
}

/// The provider mode that follows from the Codex configuration: the local
/// API when the active provider is one that the launcher manages.
pub fn provider_mode_from_managed(managed_by_launcher: Option<bool>) -> (m: ProviderModeKind)
    ensures
        m == (if managed_by_launcher == Some(true) {
            ProviderModeKind::LocalApi
        } else {
            ProviderModeKind::CodexAccount
        }),
{
    match managed_by_launcher {
        Some(true) => ProviderModeKind::LocalApi,
        _ => ProviderModeKind::CodexAccount,
    }
}

/// A snapshot of where a Codex session stood, kept so that work can resume
/// after a provider switch.
#[derive(Clone, Debug)]
pub struct SessionCheckpoint {
    pub id: String,
    /// When the checkpoint was taken, in RFC 3339.
    pub captured_at: String,
    pub thread_id: Option<String>,
    pub session_id: Option<String>,
    pub working_directory: Option<String>,
    pub provider_mode: ProviderModeKind,
    pub model: Option<String>,
    pub active_goal: Option<String>,
    pub last_user_message: Option<String>,
    pub last_assistant_summary: Option<String>,
    pub git_branch: Option<String>,
    pub trigger: String,
    pub resume_prompt: String,
}

pub open spec fn labelled(label: Seq<char>, value: Option<Seq<char>>) -> Seq<char> {
    match value {
        Some(v) => "\n\n"@ + label + v,
        None => Seq::empty(),
    }
}

/// The resume prompt: a fixed opening, then one paragraph for each piece of
/// context that the checkpoint holds, separated by blank lines.
pub open spec fn resume_prompt_spec(c: SessionCheckpoint) -> Seq<char> {
    "Continue the work from before the provider switch. Preserve context and pick up where we left off."@
        + labelled("Active goal: "@, opt_view(c.active_goal)) + labelled(
        "Last user message: "@,
        opt_view(c.last_user_message),
    ) + labelled("Last assistant state: "@, opt_view(c.last_assistant_summary)) + labelled(
        "Working directory: "@,
        opt_view(c.working_directory),
    ) + labelled("Git branch: "@, opt_view(c.git_branch)) + labelled(
        "Previous model: "@,
        opt_view(c.model),
    )
}

fn push_labelled(out: &mut Vec<char>, label: &str, value: &Option<String>)
    ensures
        final(out)@ == old(out)@ + labelled(label@, opt_view(*value)),
{
    match value {
        Some(v) => {
            append_str(out, "\n\n");
            append_str(out, label);
            append_str(out, v.as_str());
        },
        None => {
            assert(old(out)@ + Seq::<char>::empty() =~= old(out)@);
        },
    }
}

impl SessionCheckpoint {
    /// Fills in the resume prompt of a checkpoint that was stored without one.
    pub fn ensure_resume_prompt(&mut self)
        ensures
            final(self).resume_prompt@ == (if old(self).resume_prompt@.len() == 0 {
                resume_prompt_spec(*old(self))
            } else {
                old(self).resume_prompt@
            }),
            *final(self) == (SessionCheckpoint { resume_prompt: final(self).resume_prompt, ..*old(self) }),
    {
        if self.resume_prompt.as_str().unicode_len() == 0 {
            self.resume_prompt = self.build_resume_prompt();
        }
    }

    /// The prompt that asks Codex to continue from this checkpoint.
    pub fn build_resume_prompt(&self) -> (r: String)
        ensures
            r@ == resume_prompt_spec(*self),
    {
        let mut out = chars_of(
            "Continue the work from before the provider switch. Preserve context and pick up where we left off.",
        );
        push_labelled(&mut out, "Active goal: ", &self.active_goal);
        push_labelled(&mut out, "Last user message: ", &self.last_user_message);
        push_labelled(&mut out, "Last assistant state: ", &self.last_assistant_summary);
        push_labelled(&mut out, "Working directory: ", &self.working_directory);
        push_labelled(&mut out, "Git branch: ", &self.git_branch);
        push_labelled(&mut out, "Previous model: ", &self.model);
        string_of(&out)
    }
}

/// The current branch from the output of `git branch --show-current`: none
/// when git failed or printed only white space.
pub fn branch_from_git_output(success: bool, stdout: &str) -> (r: Option<String>)
    ensures
        opt_view(r) == (if success && trim(stdout@).len() > 0 {
            Some(trim(stdout@))
        } else {
            None::<Seq<char>>
        }),
{
    if !success {
        return None;
    }
    let v = chars_of(stdout);
    let t = trim_chars(&v);
    if t.len() == 0 {
        None
    } else {
        Some(string_of(&t))
    }
}

/// The lines of `s` from index `i` on, where the line that is open at `i`
/// already holds `cur`: the pieces between `\n` characters.
pub open spec fn lines_from(s: Seq<char>, i: int, cur: Seq<char>) -> Seq<Seq<char>>
    decreases s.len() - i,
{
    if i >= s.len() {
        seq![cur]
    } else if s[i] == '\n' {
        seq![cur] + lines_from(s, i + 1, Seq::empty())
    } else {
        lines_from(s, i + 1, cur.push(s[i]))
    }
}

/// The lines of `s`: the pieces between `\n` characters.
pub open spec fn split_lines(s: Seq<char>) -> Seq<Seq<char>> {
    lines_from(s, 0, Seq::empty())
}

/// Whether a trimmed line announces a goal.
pub open spec fn is_goal_line(t: Seq<char>) -> bool {
    starts_with(t, "/goal"@) || contains(lowercase(t), "goal mode"@) || contains(
        lowercase(t),
        "running goal"@,
    )
}

/// The first line, trimmed, that announces a goal.
pub open spec fn first_goal(lines: Seq<Seq<char>>) -> Option<Seq<char>>
    decreases lines.len(),
{
    if lines.len() == 0 {
        None
    } else if is_goal_line(trim(lines[0])) {
        Some(trim(lines[0]))
    } else {
        first_goal(lines.drop_first())
    }
}

fn goal_line_exec(line: &Vec<char>) -> (r: Option<Vec<char>>)
    ensures
        match r {
            Some(t) => is_goal_line(trim(line@)) && t@ == trim(line@),
            None => !is_goal_line(trim(line@)),
        },
{
    let t = trim_chars(line);
    if starts_with_str(&t, "/goal") {
        return Some(t);
    }
    let ts = string_of(&t);
    let lower_s = to_lowercase(ts.as_str());
    let lower = chars_of(lower_s.as_str());
    if contains_str(&lower, "goal mode") || contains_str(&lower, "running goal") {
        return Some(t);
    }
    None
}

/// The first line of `text` that announces a goal (`/goal …`, or one that
/// mentions goal mode or a running goal), trimmed.
pub fn detect_goal_from_text(text: &str) -> (r: Option<String>)
    ensures
        opt_view(r) == first_goal(split_lines(text@)),
{
    let v = chars_of(text);
    let mut cur: Vec<char> = Vec::new();
    let mut i: usize = 0;
    while i < v.len()
        invariant
            i <= v.len(),
            v@ == text@,
            first_goal(split_lines(text@)) == first_goal(lines_from(v@, i as int, cur@)),
        decreases v.len() - i,
    {
        if v[i] == '\n' {
            let ghost rest = lines_from(v@, i + 1, Seq::empty());
            assert((seq![cur@] + rest).drop_first() =~= rest);
            match goal_line_exec(&cur) {
                Some(t) => {
                    return Some(string_of(&t));
                },
                None => {
                    cur = Vec::new();
                },
            }
        } else {
            cur.push(v[i]);
        }
        i += 1;
    }
    assert(lines_from(v@, i as int, cur@) == seq![cur@]);
    assert(seq![cur@].drop_first() =~= Seq::<Seq<char>>::empty());
    assert(first_goal(Seq::<Seq<char>>::empty()) is None);
    match goal_line_exec(&cur) {
        Some(t) => Some(string_of(&t)),
        None => None,
    }
}

} // verus!
