//! The command line of the launcher.
use vstd::prelude::*;

use crate::config::opt_view;
use crate::text::{
    all_digits, chars_of, digit_value, digit_value_exec, digits_value, is_digit, parse_u16_spec,
    str_eq, strip_plus,
};
use crate::text::lemma_digits_value_grows;

verus! {

/// The parsed command line.
#[derive(Debug)]
pub struct Args {
    pub config_path: Option<String>,
    pub gui: bool,
    pub serve_only: bool,
    pub port: Option<u16>,
    pub write_config_only: bool,
    pub restore: bool,
    pub refresh_models: bool,
    pub list_models: bool,
    pub launch: bool,
    pub launch_wait: bool,
    pub kill: bool,
    pub health: bool,
    pub diagnose: bool,
    pub build_check: bool,
    pub session_create: Option<String>,
    pub session_send: Option<(String, String)>,
    pub session_response: Option<String>,
    pub session_close: Option<String>,
    pub session_list: bool,
    pub unknown_args: Vec<String>,
}

pub struct ArgsModel {
    pub config_path: Option<Seq<char>>,
    pub gui: bool,
    pub serve_only: bool,
    pub port: Option<u16>,
    pub write_config_only: bool,
    pub restore: bool,
    pub refresh_models: bool,
    pub list_models: bool,
    pub launch: bool,
    pub launch_wait: bool,
    pub kill: bool,
    pub health: bool,
    pub diagnose: bool,
    pub build_check: bool,
    pub session_create: Option<Seq<char>>,
    pub session_send: Option<(Seq<char>, Seq<char>)>,
    pub session_response: Option<Seq<char>>,
    pub session_close: Option<Seq<char>>,
    pub session_list: bool,
    pub unknown_args: Seq<Seq<char>>,
}

impl View for Args {
    type V = ArgsModel;

    open spec fn view(&self) -> ArgsModel {
        ArgsModel {
            config_path: opt_view(self.config_path),
            gui: self.gui,
            serve_only: self.serve_only,
            port: self.port,
            write_config_only: self.write_config_only,
            restore: self.restore,
            refresh_models: self.refresh_models,
            list_models: self.list_models,
            launch: self.launch,
            launch_wait: self.launch_wait,
            kill: self.kill,
            health: self.health,
            diagnose: self.diagnose,
            build_check: self.build_check,
            session_create: opt_view(self.session_create),
            session_send: match self.session_send {
                Some((a, b)) => Some((a@, b@)),
                None => None,
            },
            session_response: opt_view(self.session_response),
            session_close: opt_view(self.session_close),
            session_list: self.session_list,
            unknown_args: args_view(self.unknown_args@),
        }
    }
}

/// The command line with nothing on it.
pub open spec fn empty_args() -> ArgsModel {
    ArgsModel {
        config_path: None,
        gui: false,
        serve_only: false,
        port: None,
        write_config_only: false,
        restore: false,
        refresh_models: false,
        list_models: false,
        launch: false,
        launch_wait: false,
        kill: false,
        health: false,
        diagnose: false,
        build_check: false,
        session_create: None,
        session_send: None,
        session_response: None,
        session_close: None,
        session_list: false,
        unknown_args: Seq::empty(),
    }
}

impl Default for Args {
    fn default() -> (a: Args)
        ensures
            a@ == empty_args(),
    {
        let a = Args {
            config_path: None,
            gui: false,
            serve_only: false,
            port: None,
            write_config_only: false,
            restore: false,
            refresh_models: false,
            list_models: false,
            launch: false,
            launch_wait: false,
            kill: false,
            health: false,
            diagnose: false,
            build_check: false,
            session_create: None,
            session_send: None,
            session_response: None,
            session_close: None,
            session_list: false,
            unknown_args: Vec::new(),
        };
        assert(a@.unknown_args =~= Seq::<Seq<char>>::empty());
        a
    }
}

pub fn parse_u16(s: &str) -> (r: Option<u16>)
    ensures
        r == parse_u16_spec(s@),
{
    let v = chars_of(s);
    let start: usize = if v.len() > 0 && v[0] == '+' {
        1
    } else {
        0
    };
    let ghost d = strip_plus(s@);
    assert(d =~= v@.subrange(start as int, v.len() as int));
    if start == v.len() {
        return None;
    }
    let mut value: u32 = 0;
    let mut i: usize = start;
    while i < v.len()
        invariant
            start <= i <= v.len(),
            d == v@.subrange(start as int, v.len() as int),
            d == strip_plus(s@),
            forall|k: int| start <= k < i ==> is_digit(#[trigger] v@[k]),
            value == digits_value(v@.subrange(start as int, i as int)),
            value <= 65535,
        decreases v.len() - i,
    {
        let c = v[i];
        if !('0' <= c && c <= '9') {
            assert(!is_digit(d[i - start]));
            assert(!all_digits(d));
            assert(d == strip_plus(s@));
            assert(!all_digits(strip_plus(s@)));
            assert(parse_u16_spec(s@) is None);
            return None;
        }
        let digit = digit_value_exec(c);
        assert(v@.subrange(start as int, i + 1).drop_last() =~= v@.subrange(start as int, i as int));
        if value > 6553 || (value == 6553 && digit > 5) {
            proof {
                assert(digits_value(v@.subrange(start as int, i + 1)) > 65535);
                if all_digits(d) {
                    assert(d.subrange(0, i + 1 - start) =~= v@.subrange(start as int, i + 1));
                    lemma_digits_value_grows(d, i + 1 - start);
                }
                assert(parse_u16_spec(s@) is None);
            }
            return None;
        }
        value = value * 10 + digit;
        i += 1;
    }
    assert(all_digits(d)) by {
        assert forall|k: int| 0 <= k < d.len() implies is_digit(#[trigger] d[k]) by {
            assert(d[k] == v@[k + start]);
        }
    }
    assert(v@.subrange(start as int, i as int) =~= d);
    Some(value as u16)
}

// ---------------------------------------------------------------------------
// Parsing
// ---------------------------------------------------------------------------
/// What an argument is.
#[derive(Clone, Copy, Debug, PartialEq, Eq, Structural)]
pub enum ArgKind {
    Config,
    Gui,
    ServeOnly,
    Port,
    WriteConfigOnly,
    Restore,
    RefreshModels,
    ListModels,
    Launch,
    LaunchWait,
    Kill,
    Health,
    Diagnose,
    BuildCheck,
    SessionCreate,
    SessionSend,
    SessionResponse,
    SessionClose,
    SessionList,
    Help,
    Unknown,
}

/// The option that `arg` names.
#[verifier::opaque]
pub open spec fn classify(arg: Seq<char>) -> ArgKind {
    if arg == "--config"@ {
        ArgKind::Config
    } else if arg == "--gui"@ {
        ArgKind::Gui
    } else if arg == "--serve-only"@ {
        ArgKind::ServeOnly
    } else if arg == "--port"@ {
        ArgKind::Port
    } else if arg == "--write-config-only"@ {
        ArgKind::WriteConfigOnly
    } else if arg == "--restore"@ {
        ArgKind::Restore
    } else if arg == "--refresh-models"@ {
        ArgKind::RefreshModels
    } else if arg == "--list-models"@ {
        ArgKind::ListModels
    } else if arg == "--launch"@ {
        ArgKind::Launch
    } else if arg == "--launch-wait"@ {
        ArgKind::LaunchWait
    } else if arg == "--kill"@ {
        ArgKind::Kill
    } else if arg == "--health"@ {
        ArgKind::Health
    } else if arg == "--diagnose"@ {
        ArgKind::Diagnose
    } else if arg == "--build-check"@ {
        ArgKind::BuildCheck
    } else if arg == "--session-create"@ {
        ArgKind::SessionCreate
    } else if arg == "--session-send"@ {
        ArgKind::SessionSend
    } else if arg == "--session-response"@ {
        ArgKind::SessionResponse
    } else if arg == "--session-close"@ {
        ArgKind::SessionClose
    } else if arg == "--session-list"@ {
        ArgKind::SessionList
    } else if arg == "-h"@ || arg == "--help"@ {
        ArgKind::Help
    } else {
        ArgKind::Unknown
    }
}

pub fn classify_arg(arg: &str) -> (k: ArgKind)
    ensures
        k == classify(arg@),
{
    proof {
        reveal(classify);
    }
    if str_eq(arg, "--config") {
        ArgKind::Config
    } else if str_eq(arg, "--gui") {
        ArgKind::Gui
    } else if str_eq(arg, "--serve-only") {
        ArgKind::ServeOnly
    } else if str_eq(arg, "--port") {
        ArgKind::Port
    } else if str_eq(arg, "--write-config-only") {
        ArgKind::WriteConfigOnly
    } else if str_eq(arg, "--restore") {
        ArgKind::Restore
    } else if str_eq(arg, "--refresh-models") {
        ArgKind::RefreshModels
    } else if str_eq(arg, "--list-models") {
        ArgKind::ListModels
    } else if str_eq(arg, "--launch") {
        ArgKind::Launch
    } else if str_eq(arg, "--launch-wait") {
        ArgKind::LaunchWait
    } else if str_eq(arg, "--kill") {
        ArgKind::Kill
    } else if str_eq(arg, "--health") {
        ArgKind::Health
    } else if str_eq(arg, "--diagnose") {
        ArgKind::Diagnose
    } else if str_eq(arg, "--build-check") {
        ArgKind::BuildCheck
    } else if str_eq(arg, "--session-create") {
        ArgKind::SessionCreate
    } else if str_eq(arg, "--session-send") {
        ArgKind::SessionSend
    } else if str_eq(arg, "--session-response") {
        ArgKind::SessionResponse
    } else if str_eq(arg, "--session-close") {
        ArgKind::SessionClose
    } else if str_eq(arg, "--session-list") {
        ArgKind::SessionList
    } else if str_eq(arg, "-h") || str_eq(arg, "--help") {
        ArgKind::Help
    } else {
        ArgKind::Unknown
    }
}

pub open spec fn arg_at(args: Seq<Seq<char>>, i: int) -> Option<Seq<char>> {
    if 0 <= i < args.len() {
        Some(args[i])
    } else {
        None
    }
}

pub open spec fn or_empty(o: Option<Seq<char>>) -> Seq<char> {
    match o {
        Some(s) => s,
        None => Seq::empty(),
    }
}

/// How many arguments the option at `i` takes up, itself included.
pub open spec fn step_len(args: Seq<Seq<char>>, i: int) -> int {
    match classify(args[i]) {
        ArgKind::Config | ArgKind::Port | ArgKind::SessionCreate | ArgKind::SessionResponse
        | ArgKind::SessionClose => 2,
        ArgKind::SessionSend => 3,
        _ => 1,
    }
}

/// What a flag sets.
pub open spec fn set_flag(kind: ArgKind, a: ArgsModel) -> ArgsModel {
    set_flag_late(kind, set_flag_early(kind, a))
}

pub open spec fn set_flag_early(kind: ArgKind, a: ArgsModel) -> ArgsModel {
    match kind {
        ArgKind::Gui => ArgsModel { gui: true, ..a },
        ArgKind::ServeOnly => ArgsModel { serve_only: true, ..a },
        ArgKind::WriteConfigOnly => ArgsModel { write_config_only: true, ..a },
        ArgKind::Restore => ArgsModel { restore: true, ..a },
        ArgKind::RefreshModels => ArgsModel { refresh_models: true, ..a },
        ArgKind::ListModels => ArgsModel { list_models: true, ..a },
        ArgKind::Launch => ArgsModel { launch: true, ..a },
        _ => a,
    }
}

pub open spec fn set_flag_late(kind: ArgKind, a: ArgsModel) -> ArgsModel {
    match kind {
        ArgKind::LaunchWait => ArgsModel { launch_wait: true, ..a },
        ArgKind::Kill => ArgsModel { kill: true, ..a },
        ArgKind::Health => ArgsModel { health: true, ..a },
        ArgKind::Diagnose => ArgsModel { diagnose: true, ..a },
        ArgKind::BuildCheck => ArgsModel { build_check: true, ..a },
        ArgKind::SessionList => ArgsModel { session_list: true, ..a },
        _ => a,
    }
}

/// What an option that carries a value sets: it takes the next argument
/// (`--session-send` the next two).
pub open spec fn set_value(args: Seq<Seq<char>>, i: int, kind: ArgKind, a: ArgsModel) -> ArgsModel {
    match kind {
        ArgKind::Config => ArgsModel { config_path: arg_at(args, i + 1), ..a },
        ArgKind::Port => ArgsModel {
            port: match arg_at(args, i + 1) {
                Some(p) => parse_u16_spec(p),
                None => None,
            },
            ..a
        },
        ArgKind::SessionCreate => ArgsModel { session_create: Some(or_empty(arg_at(args, i + 1))), ..a },
        ArgKind::SessionSend => if i + 2 < args.len() {
            ArgsModel { session_send: Some((args[i + 1], args[i + 2])), ..a }
        } else {
            a
        },
        ArgKind::SessionResponse => ArgsModel { session_response: Some(or_empty(arg_at(args, i + 1))), ..a },
        ArgKind::SessionClose => ArgsModel { session_close: Some(or_empty(arg_at(args, i + 1))), ..a },
        _ => a,
    }
}

/// What the option at `i` sets; a later occurrence of an option replaces an
/// earlier one, and what is not an option is kept as unknown.
pub open spec fn step_args(args: Seq<Seq<char>>, i: int, kind: ArgKind, a: ArgsModel) -> ArgsModel {
    if is_flag(kind) {
        set_flag(kind, a)
    } else if is_value_option(kind) {
        set_value(args, i, kind, a)
    } else if kind == ArgKind::Unknown {
        ArgsModel { unknown_args: a.unknown_args.push(args[i]), ..a }
    } else {
        a
    }
}

/// The command line from argument `i` on, on top of what was parsed before.
pub open spec fn parse_from(args: Seq<Seq<char>>, i: int, a: ArgsModel) -> ArgsModel
    decreases args.len() - i,
{
    if i < 0 || i >= args.len() {
        a
    } else if i + step_len(args, i) >= args.len() {
        step_args(args, i, classify(args[i]), a)
    } else {
        parse_from(args, i + step_len(args, i), step_args(args, i, classify(args[i]), a))
    }
}

pub open spec fn args_view(v: Seq<String>) -> Seq<Seq<char>> {
    v.map_values(|s: String| s@)
}

fn copy_string(s: &String) -> (r: String)
    ensures
        r@ == s@,
{
    s.clone()
}

fn value_at(args: &Vec<String>, i: usize) -> (r: Option<String>)
    ensures
        opt_view(r) == arg_at(args_view(args@), i as int),
{
    if i < args.len() {
        Some(copy_string(&args[i]))
    } else {
        None
    }
}

fn value_or_empty(args: &Vec<String>, i: usize) -> (r: String)
    ensures
        r@ == or_empty(arg_at(args_view(args@), i as int)),
{
    if i < args.len() {
        copy_string(&args[i])
    } else {
        String::new()
    }
}

pub open spec fn is_flag(k: ArgKind) -> bool {
    k == ArgKind::Gui || k == ArgKind::ServeOnly || k == ArgKind::WriteConfigOnly || k == ArgKind::Restore || k == ArgKind::RefreshModels || k == ArgKind::ListModels || k == ArgKind::Launch || k == ArgKind::LaunchWait || k == ArgKind::Kill || k == ArgKind::Health || k == ArgKind::Diagnose || k == ArgKind::BuildCheck || k == ArgKind::SessionList
}

pub open spec fn is_value_option(k: ArgKind) -> bool {
    k == ArgKind::Config || k == ArgKind::Port || k == ArgKind::SessionCreate || k == ArgKind::SessionSend
        || k == ArgKind::SessionResponse || k == ArgKind::SessionClose
}

/// Takes in a flag: it is set.
#[verifier::rlimit(100)]
fn parse_flag_early(kind: ArgKind, parsed: Args) -> (r: Args)
    ensures
        r@ == set_flag_early(kind, parsed@),
{
    let mut parsed = parsed;
    if kind == ArgKind::Gui {
        parsed.gui = true;
        return parsed;
    }
    if kind == ArgKind::ServeOnly {
        parsed.serve_only = true;
        return parsed;
    }
    if kind == ArgKind::WriteConfigOnly {
        parsed.write_config_only = true;
        return parsed;
    }
    if kind == ArgKind::Restore {
        parsed.restore = true;
        return parsed;
    }
    if kind == ArgKind::RefreshModels {
        parsed.refresh_models = true;
        return parsed;
    }
    if kind == ArgKind::ListModels {
        parsed.list_models = true;
        return parsed;
    }
    if kind == ArgKind::Launch {
        parsed.launch = true;
        return parsed;
    }
    parsed
}

#[verifier::rlimit(100)]
fn parse_flag_late(kind: ArgKind, parsed: Args) -> (r: Args)
    ensures
        r@ == set_flag_late(kind, parsed@),
{
    let mut parsed = parsed;
    if kind == ArgKind::LaunchWait {
        parsed.launch_wait = true;
        return parsed;
    }
    if kind == ArgKind::Kill {
        parsed.kill = true;
        return parsed;
    }
    if kind == ArgKind::Health {
        parsed.health = true;
        return parsed;
    }
    if kind == ArgKind::Diagnose {
        parsed.diagnose = true;
        return parsed;
    }
    if kind == ArgKind::BuildCheck {
        parsed.build_check = true;
        return parsed;
    }
    if kind == ArgKind::SessionList {
        parsed.session_list = true;
        return parsed;
    }
    parsed
}

/// Takes in a flag: it is set.
fn parse_flag(kind: ArgKind, parsed: Args) -> (r: Args)
    ensures
        r@ == set_flag(kind, parsed@),
{
    let p = parse_flag_early(kind, parsed);
    parse_flag_late(kind, p)
}

/// Takes in an option that carries a value.
#[verifier::spinoff_prover]
#[verifier::rlimit(100)]
fn parse_value_option(raw_args: &Vec<String>, i: usize, kind: ArgKind, parsed: Args) -> (r: Args)
    requires
        i < raw_args.len(),
        is_value_option(kind),
    ensures
        r@ == set_value(args_view(raw_args@), i as int, kind, parsed@),
{
    let mut parsed = parsed;
    let ghost av = args_view(raw_args@);
    let rest = raw_args.len() - i;
    match kind {
        ArgKind::Config => {
            parsed.config_path = value_at(raw_args, i + 1);
        },
        ArgKind::Port => {
            parsed.port = match value_at(raw_args, i + 1) {
                Some(p) => parse_u16(p.as_str()),
                None => None,
            };
        },
        ArgKind::SessionCreate => {
            parsed.session_create = Some(value_or_empty(raw_args, i + 1));
        },
        ArgKind::SessionSend => {
            if rest > 2 {
                let first = copy_string(&raw_args[i + 1]);
                let second = copy_string(&raw_args[i + 2]);
                parsed.session_send = Some((first, second));
            }
        },
        ArgKind::SessionResponse => {
            parsed.session_response = Some(value_or_empty(raw_args, i + 1));
        },
        ArgKind::SessionClose => {
            parsed.session_close = Some(value_or_empty(raw_args, i + 1));
        },
        _ => {},
    }
    parsed
}

/// Takes in the option at `i`; returns where the next one starts.
#[verifier::spinoff_prover]
#[verifier::rlimit(100)]
fn parse_step(raw_args: &Vec<String>, i: usize, parsed: Args) -> (r: (usize, Args))
    requires
        i < raw_args.len(),
    ensures
        r.0 == (if i + step_len(args_view(raw_args@), i as int) >= raw_args.len() {
            raw_args.len() as int
        } else {
            i + step_len(args_view(raw_args@), i as int)
        }),
        r.1@ == step_args(args_view(raw_args@), i as int, classify(args_view(raw_args@)[i as int]), parsed@),
{
    let mut parsed = parsed;
    let ghost av = args_view(raw_args@);
    let arg = raw_args[i].as_str();
    assert(arg@ == av[i as int]);
    let kind = classify_arg(arg);
    let len: usize = match kind {
        ArgKind::Config | ArgKind::Port | ArgKind::SessionCreate | ArgKind::SessionResponse
        | ArgKind::SessionClose => 2,
        ArgKind::SessionSend => 3,
        _ => 1,
    };
    if kind == ArgKind::Unknown {
        let ghost before = parsed@;
        parsed.unknown_args.push(copy_string(&raw_args[i]));
        assert(parsed@.unknown_args =~= before.unknown_args.push(av[i as int]));
    } else if kind == ArgKind::Help {
    } else if kind == ArgKind::Config || kind == ArgKind::Port || kind == ArgKind::SessionCreate
        || kind == ArgKind::SessionSend || kind == ArgKind::SessionResponse || kind == ArgKind::SessionClose {
        parsed = parse_value_option(raw_args, i, kind, parsed);
    } else {
        parsed = parse_flag(kind, parsed);
    }
    let n = if raw_args.len() - i > len {
        i + len
    } else {
        raw_args.len()
    };
    (n, parsed)
}

impl Args {
    /// Parses the command-line arguments (the program name left out).
    pub fn parse(raw_args: &Vec<String>) -> (r: Args)
        ensures
            r@ == parse_from(args_view(raw_args@), 0, empty_args()),
    {
        let ghost av = args_view(raw_args@);
        let mut parsed = Args::default();
        let mut i: usize = 0;
        while i < raw_args.len()
            invariant
                i <= raw_args.len(),
                av == args_view(raw_args@),
                parse_from(av, 0, empty_args()) == if i < raw_args.len() {
                    parse_from(av, i as int, parsed@)
                } else {
                    parsed@
                },
            decreases raw_args.len() - i,
        {
            let (n, p) = parse_step(raw_args, i, parsed);
            i = n;
            parsed = p;
        }
        if raw_args.len() == 0 {
            assert(parse_from(av, 0, empty_args()) == empty_args());
        }
        parsed
    }

    /// Whether the chosen action talks to Codex asynchronously.
    pub fn needs_async(&self) -> (r: bool)
        ensures
            r == (self.launch_wait || self.health || self.session_create is Some
                || self.session_send is Some || self.session_response is Some
                || self.session_close is Some || self.session_list),
    {
        self.launch_wait || self.health || self.session_create.is_some()
            || self.session_send.is_some() || self.session_response.is_some()
            || self.session_close.is_some() || self.session_list
    }

    /// Whether the command line asks for anything (an unknown argument
    /// counts, so that it can be reported).
    pub fn has_explicit_action(&self) -> (r: bool)
        ensures
            r == (self.unknown_args.len() > 0 || self.config_path is Some
                || self.write_config_only || self.restore || self.refresh_models
                || self.list_models || self.launch || self.launch_wait || self.kill
                || self.health || self.diagnose || self.build_check
                || self.session_create is Some || self.session_send is Some
                || self.session_response is Some || self.session_close is Some
                || self.session_list),
    {
        self.unknown_args.len() > 0 || self.config_path.is_some() || self.write_config_only
            || self.restore || self.refresh_models || self.list_models || self.launch
            || self.launch_wait || self.kill || self.health || self.diagnose || self.build_check
            || self.session_create.is_some() || self.session_send.is_some()
            || self.session_response.is_some() || self.session_close.is_some()
            || self.session_list
    }
}

/// An empty command line asks for nothing.
pub proof fn law_empty_command_line_is_default()
    ensures
        parse_from(Seq::empty(), 0, empty_args()) == empty_args(),
{
}


/// Only `--restore` asks for a restore, and only `--write-config-only` for
/// writing the config alone.
proof fn lemma_classify_restore_write(x: Seq<char>)
    ensures
        (classify(x) == ArgKind::Restore) == (x == "--restore"@),
        (classify(x) == ArgKind::WriteConfigOnly) == (x == "--write-config-only"@),
{
    reveal(classify);
    reveal_strlit("--config");
    reveal_strlit("--gui");
    reveal_strlit("--serve-only");
    reveal_strlit("--port");
    reveal_strlit("--write-config-only");
    reveal_strlit("--restore");
    assert("--config"@.len() == 8);
    assert("--gui"@.len() == 5);
    assert("--serve-only"@.len() == 12);
    assert("--port"@.len() == 6);
    assert("--write-config-only"@.len() == 19);
    assert("--restore"@.len() == 9);
}

/// Parsing from `i` on sets `restore` (`write_config_only`) only where a
/// `--restore` (`--write-config-only`) lies ahead, never clears it, and on a
/// command line without options that take values sets it exactly then.
proof fn lemma_parse_restore_write(args: Seq<Seq<char>>, i: int, a: ArgsModel)
    requires
        0 <= i,
    ensures
        parse_from(args, i, a).restore ==> a.restore || exists|j: int|
            i <= j < args.len() && #[trigger] args[j] == "--restore"@,
        parse_from(args, i, a).write_config_only ==> a.write_config_only || exists|j: int|
            i <= j < args.len() && #[trigger] args[j] == "--write-config-only"@,
        a.restore ==> parse_from(args, i, a).restore,
        a.write_config_only ==> parse_from(args, i, a).write_config_only,
        (forall|j: int| i <= j < args.len() ==> !is_value_option(#[trigger] classify(args[j]))) ==> {
            &&& parse_from(args, i, a).restore == (a.restore || exists|j: int|
                i <= j < args.len() && #[trigger] args[j] == "--restore"@)
            &&& parse_from(args, i, a).write_config_only == (a.write_config_only || exists|j: int|
                i <= j < args.len() && #[trigger] args[j] == "--write-config-only"@)
        },
    decreases args.len() - i,
{
    if i < args.len() {
        let k = classify(args[i]);
        lemma_classify_restore_write(args[i]);
        let b = step_args(args, i, k, a);
        assert(b.restore == (a.restore || k == ArgKind::Restore));
        assert(b.write_config_only == (a.write_config_only || k == ArgKind::WriteConfigOnly));
        let n = i + step_len(args, i);
        if n < args.len() {
            lemma_parse_restore_write(args, n, b);
            if parse_from(args, i, a).restore && !a.restore && k != ArgKind::Restore {
                let j = choose|j: int| n <= j < args.len() && #[trigger] args[j] == "--restore"@;
                assert(i <= j < args.len() && args[j] == "--restore"@);
            }
            if parse_from(args, i, a).write_config_only && !a.write_config_only && k != ArgKind::WriteConfigOnly {
                let j = choose|j: int| n <= j < args.len() && #[trigger] args[j] == "--write-config-only"@;
                assert(i <= j < args.len() && args[j] == "--write-config-only"@);
            }
            if forall|j: int| i <= j < args.len() ==> !is_value_option(#[trigger] classify(args[j])) {
                assert(!is_value_option(classify(args[i])));
                assert(n == i + 1);
                assert forall|j: int| n <= j < args.len() implies !is_value_option(#[trigger] classify(args[j])) by {
                    assert(i <= j < args.len());
                }
                if exists|j: int| i <= j < args.len() && #[trigger] args[j] == "--restore"@ {
                    let j = choose|j: int| i <= j < args.len() && #[trigger] args[j] == "--restore"@;
                    if j != i {
                        assert(n <= j < args.len() && args[j] == "--restore"@);
                    }
                }
                if exists|j: int| i <= j < args.len() && #[trigger] args[j] == "--write-config-only"@ {
                    let j = choose|j: int| i <= j < args.len() && #[trigger] args[j] == "--write-config-only"@;
                    if j != i {
                        assert(n <= j < args.len() && args[j] == "--write-config-only"@);
                    }
                }
            }
        } else {
            if forall|j: int| i <= j < args.len() ==> !is_value_option(#[trigger] classify(args[j])) {
                assert(!is_value_option(classify(args[i])));
                assert(n == i + 1);
                if exists|j: int| i <= j < args.len() && #[trigger] args[j] == "--restore"@ {
                    let j = choose|j: int| i <= j < args.len() && #[trigger] args[j] == "--restore"@;
                    assert(j == i);
                }
                if exists|j: int| i <= j < args.len() && #[trigger] args[j] == "--write-config-only"@ {
                    let j = choose|j: int| i <= j < args.len() && #[trigger] args[j] == "--write-config-only"@;
                    assert(j == i);
                }
            }
        }
    }
}

/// `--restore` asks for a restore and `--write-config-only` for writing the
/// config alone: neither is set unless its own option is on the command
/// line, and on a command line whose options take no values each is set
/// exactly when its option is there.
pub proof fn law_restore_and_write_only_flags(args: Seq<Seq<char>>)
    ensures
        parse_from(args, 0, empty_args()).restore ==> args.contains("--restore"@),
        parse_from(args, 0, empty_args()).write_config_only ==> args.contains("--write-config-only"@),
        (forall|j: int| 0 <= j < args.len() ==> !is_value_option(#[trigger] classify(args[j]))) ==> {
            &&& parse_from(args, 0, empty_args()).restore == args.contains("--restore"@)
            &&& parse_from(args, 0, empty_args()).write_config_only == args.contains(
                "--write-config-only"@,
            )
        },
{
    lemma_parse_restore_write(args, 0, empty_args());
    if parse_from(args, 0, empty_args()).restore {
        let j = choose|j: int| 0 <= j < args.len() && #[trigger] args[j] == "--restore"@;
        assert(args.contains("--restore"@));
    }
    if parse_from(args, 0, empty_args()).write_config_only {
        let j = choose|j: int| 0 <= j < args.len() && #[trigger] args[j] == "--write-config-only"@;
        assert(args.contains("--write-config-only"@));
    }
    if args.contains("--restore"@) {
        let j = choose|j: int| 0 <= j < args.len() && args[j] == "--restore"@;
        assert(args[j] == "--restore"@);
    }
    if args.contains("--write-config-only"@) {
        let j = choose|j: int| 0 <= j < args.len() && args[j] == "--write-config-only"@;
        assert(args[j] == "--write-config-only"@);
    }
}

} // verus!
