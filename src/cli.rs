//! Run-time options and the command-line surface: filter values, usage and
//! version text.

use vstd::prelude::*;

use crate::command::{decimal_u64, parse_u64};
use crate::systemd::views;
use crate::text::{starts_with_chars, str_eq};
use crate::types::Scope;

verus! {

/// Options that every query is run with.
#[derive(Debug, Clone)]
pub struct Config {
    /// Load-state filter, `all` for any.
    pub load_filter: String,
    /// Active-state filter, `all` for any.
    pub active_filter: String,
    /// Sub-state filter, `all` for any.
    pub sub_filter: String,
    /// Auto-refresh interval in seconds, 0 for none.
    pub refresh_secs: u64,
    /// Print usage and exit.
    pub show_help: bool,
    /// Print the version and exit.
    pub show_version: bool,
    /// Serve synthetic units instead of querying the host.
    pub debug_tui: bool,
    /// Manager instance to query.
    pub scope: Scope,
}

/// Load-state filter value.
#[derive(Debug, Clone, Copy, PartialEq, Eq, Structural)]
pub enum LoadFilter {
    All,
    Loaded,
    Stub,
    NotFound,
    BadSetting,
    Error,
    Merged,
    Masked,
}

/// The command-line spelling of a load-state filter value.
pub open spec fn load_filter_name(f: LoadFilter) -> Seq<char> {
    match f {
        LoadFilter::All => "all"@,
        LoadFilter::Loaded => "loaded"@,
        LoadFilter::Stub => "stub"@,
        LoadFilter::NotFound => "not-found"@,
        LoadFilter::BadSetting => "bad-setting"@,
        LoadFilter::Error => "error"@,
        LoadFilter::Merged => "merged"@,
        LoadFilter::Masked => "masked"@,
    }
}

impl LoadFilter {
    /// The command-line spelling.
    pub fn as_str(self) -> (r: &'static str)
        ensures
            r@ == load_filter_name(self),
    {
        match self {
            LoadFilter::All => "all",
            LoadFilter::Loaded => "loaded",
            LoadFilter::Stub => "stub",
            LoadFilter::NotFound => "not-found",
            LoadFilter::BadSetting => "bad-setting",
            LoadFilter::Error => "error",
            LoadFilter::Merged => "merged",
            LoadFilter::Masked => "masked",
        }
    }

    /// Every accepted spelling, comma separated.
    pub fn allowed_values() -> (r: &'static str)
        ensures
            r@ == "all, loaded, stub, not-found, bad-setting, error, merged, masked"@,
    {
        "all, loaded, stub, not-found, bad-setting, error, merged, masked"
    }

    /// The value spelled `s`; an error naming `s` and the accepted values
    /// otherwise.
    pub fn from_str(s: &str) -> (r: Result<Self, String>)
        ensures
            r matches Ok(f) ==> load_filter_name(f) == s@,
            r is Err ==> forall|f: LoadFilter| #[trigger] load_filter_name(f) != s@,
            r matches Err(m) ==> m@ == "invalid --load value: "@ + s@ + "; allowed: "@
                + "all, loaded, stub, not-found, bad-setting, error, merged, masked"@,
    {
        if str_eq(s, "all") {
            Ok(LoadFilter::All)
        } else if str_eq(s, "loaded") {
            Ok(LoadFilter::Loaded)
        } else if str_eq(s, "stub") {
            Ok(LoadFilter::Stub)
        } else if str_eq(s, "not-found") {
            Ok(LoadFilter::NotFound)
        } else if str_eq(s, "bad-setting") {
            Ok(LoadFilter::BadSetting)
        } else if str_eq(s, "error") {
            Ok(LoadFilter::Error)
        } else if str_eq(s, "merged") {
            Ok(LoadFilter::Merged)
        } else if str_eq(s, "masked") {
            Ok(LoadFilter::Masked)
        } else {
            assert forall|f: LoadFilter| #[trigger] load_filter_name(f) != s@ by {
                match f {
                    _ => {},
                }
            }
            let mut m = String::from_str("invalid --load value: ");
            m.append(s);
            m.append("; allowed: ");
            m.append(Self::allowed_values());
            Err(m)
        }
    }
}

/// Active-state filter value.
#[derive(Debug, Clone, Copy, PartialEq, Eq, Structural)]
pub enum ActiveFilter {
    All,
    Active,
    Reloading,
    Inactive,
    Failed,
    Activating,
    Deactivating,
    Maintenance,
    Refreshing,
}

/// The command-line spelling of a active-state filter value.
pub open spec fn active_filter_name(f: ActiveFilter) -> Seq<char> {
    match f {
        ActiveFilter::All => "all"@,
        ActiveFilter::Active => "active"@,
        ActiveFilter::Reloading => "reloading"@,
        ActiveFilter::Inactive => "inactive"@,
        ActiveFilter::Failed => "failed"@,
        ActiveFilter::Activating => "activating"@,
        ActiveFilter::Deactivating => "deactivating"@,
        ActiveFilter::Maintenance => "maintenance"@,
        ActiveFilter::Refreshing => "refreshing"@,
    }
}

impl ActiveFilter {
    /// The command-line spelling.
    pub fn as_str(self) -> (r: &'static str)
        ensures
            r@ == active_filter_name(self),
    {
        match self {
            ActiveFilter::All => "all",
            ActiveFilter::Active => "active",
            ActiveFilter::Reloading => "reloading",
            ActiveFilter::Inactive => "inactive",
            ActiveFilter::Failed => "failed",
            ActiveFilter::Activating => "activating",
            ActiveFilter::Deactivating => "deactivating",
            ActiveFilter::Maintenance => "maintenance",
            ActiveFilter::Refreshing => "refreshing",
        }
    }

    /// Every accepted spelling, comma separated.
    pub fn allowed_values() -> (r: &'static str)
        ensures
            r@ == "all, active, reloading, inactive, failed, activating, deactivating, maintenance, refreshing"@,
    {
        "all, active, reloading, inactive, failed, activating, deactivating, maintenance, refreshing"
    }

    /// The value spelled `s`; an error naming `s` and the accepted values
    /// otherwise.
    pub fn from_str(s: &str) -> (r: Result<Self, String>)
        ensures
            r matches Ok(f) ==> active_filter_name(f) == s@,
            r is Err ==> forall|f: ActiveFilter| #[trigger] active_filter_name(f) != s@,
            r matches Err(m) ==> m@ == "invalid --active value: "@ + s@ + "; allowed: "@
                + "all, active, reloading, inactive, failed, activating, deactivating, maintenance, refreshing"@,
    {
        if str_eq(s, "all") {
            Ok(ActiveFilter::All)
        } else if str_eq(s, "active") {
            Ok(ActiveFilter::Active)
        } else if str_eq(s, "reloading") {
            Ok(ActiveFilter::Reloading)
        } else if str_eq(s, "inactive") {
            Ok(ActiveFilter::Inactive)
        } else if str_eq(s, "failed") {
            Ok(ActiveFilter::Failed)
        } else if str_eq(s, "activating") {
            Ok(ActiveFilter::Activating)
        } else if str_eq(s, "deactivating") {
            Ok(ActiveFilter::Deactivating)
        } else if str_eq(s, "maintenance") {
            Ok(ActiveFilter::Maintenance)
        } else if str_eq(s, "refreshing") {
            Ok(ActiveFilter::Refreshing)
        } else {
            assert forall|f: ActiveFilter| #[trigger] active_filter_name(f) != s@ by {
                match f {
                    _ => {},
                }
            }
            let mut m = String::from_str("invalid --active value: ");
            m.append(s);
            m.append("; allowed: ");
            m.append(Self::allowed_values());
            Err(m)
        }
    }
}

/// Sub-state filter value.
#[derive(Debug, Clone, Copy, PartialEq, Eq, Structural)]
pub enum SubFilter {
    All,
    Running,
    Exited,
    Dead,
    Failed,
    StartPre,
    Start,
    StartPost,
    AutoRestart,
    AutoRestartQueued,
    DeadBeforeAutoRestart,
    Condition,
    Reload,
    ReloadPost,
    ReloadSignal,
    ReloadNotify,
    Stop,
    StopWatchdog,
    StopSigterm,
    StopSigkill,
    StopPost,
    FinalSigterm,
    FinalSigkill,
    FinalWatchdog,
    Cleaning,
}

/// The command-line spelling of a sub-state filter value.
pub open spec fn sub_filter_name(f: SubFilter) -> Seq<char> {
    match f {
        SubFilter::All => "all"@,
        SubFilter::Running => "running"@,
        SubFilter::Exited => "exited"@,
        SubFilter::Dead => "dead"@,
        SubFilter::Failed => "failed"@,
        SubFilter::StartPre => "start-pre"@,
        SubFilter::Start => "start"@,
        SubFilter::StartPost => "start-post"@,
        SubFilter::AutoRestart => "auto-restart"@,
        SubFilter::AutoRestartQueued => "auto-restart-queued"@,
        SubFilter::DeadBeforeAutoRestart => "dead-before-auto-restart"@,
        SubFilter::Condition => "condition"@,
        SubFilter::Reload => "reload"@,
        SubFilter::ReloadPost => "reload-post"@,
        SubFilter::ReloadSignal => "reload-signal"@,
        SubFilter::ReloadNotify => "reload-notify"@,
        SubFilter::Stop => "stop"@,
        SubFilter::StopWatchdog => "stop-watchdog"@,
        SubFilter::StopSigterm => "stop-sigterm"@,
        SubFilter::StopSigkill => "stop-sigkill"@,
        SubFilter::StopPost => "stop-post"@,
        SubFilter::FinalSigterm => "final-sigterm"@,
        SubFilter::FinalSigkill => "final-sigkill"@,
        SubFilter::FinalWatchdog => "final-watchdog"@,
        SubFilter::Cleaning => "cleaning"@,
    }
}

impl SubFilter {
    /// The command-line spelling.
    pub fn as_str(self) -> (r: &'static str)
        ensures
            r@ == sub_filter_name(self),
    {
        match self {
            SubFilter::All => "all",
            SubFilter::Running => "running",
            SubFilter::Exited => "exited",
            SubFilter::Dead => "dead",
            SubFilter::Failed => "failed",
            SubFilter::StartPre => "start-pre",
            SubFilter::Start => "start",
            SubFilter::StartPost => "start-post",
            SubFilter::AutoRestart => "auto-restart",
            SubFilter::AutoRestartQueued => "auto-restart-queued",
            SubFilter::DeadBeforeAutoRestart => "dead-before-auto-restart",
            SubFilter::Condition => "condition",
            SubFilter::Reload => "reload",
            SubFilter::ReloadPost => "reload-post",
            SubFilter::ReloadSignal => "reload-signal",
            SubFilter::ReloadNotify => "reload-notify",
            SubFilter::Stop => "stop",
            SubFilter::StopWatchdog => "stop-watchdog",
            SubFilter::StopSigterm => "stop-sigterm",
            SubFilter::StopSigkill => "stop-sigkill",
            SubFilter::StopPost => "stop-post",
            SubFilter::FinalSigterm => "final-sigterm",
            SubFilter::FinalSigkill => "final-sigkill",
            SubFilter::FinalWatchdog => "final-watchdog",
            SubFilter::Cleaning => "cleaning",
        }
    }

    /// Every accepted spelling, comma separated.
    pub fn allowed_values() -> (r: &'static str)
        ensures
            r@ == "all, running, exited, dead, failed, start-pre, start, start-post, auto-restart, auto-restart-queued, dead-before-auto-restart, condition, reload, reload-post, reload-signal, reload-notify, stop, stop-watchdog, stop-sigterm, stop-sigkill, stop-post, final-sigterm, final-sigkill, final-watchdog, cleaning"@,
    {
        "all, running, exited, dead, failed, start-pre, start, start-post, auto-restart, auto-restart-queued, dead-before-auto-restart, condition, reload, reload-post, reload-signal, reload-notify, stop, stop-watchdog, stop-sigterm, stop-sigkill, stop-post, final-sigterm, final-sigkill, final-watchdog, cleaning"
    }

    /// The value spelled `s`; an error naming `s` and the accepted values
    /// otherwise.
    pub fn from_str(s: &str) -> (r: Result<Self, String>)
        ensures
            r matches Ok(f) ==> sub_filter_name(f) == s@,
            r is Err ==> forall|f: SubFilter| #[trigger] sub_filter_name(f) != s@,
            r matches Err(m) ==> m@ == "invalid --sub value: "@ + s@ + "; allowed: "@
                + "all, running, exited, dead, failed, start-pre, start, start-post, auto-restart, auto-restart-queued, dead-before-auto-restart, condition, reload, reload-post, reload-signal, reload-notify, stop, stop-watchdog, stop-sigterm, stop-sigkill, stop-post, final-sigterm, final-sigkill, final-watchdog, cleaning"@,
    {
        if str_eq(s, "all") {
            Ok(SubFilter::All)
        } else if str_eq(s, "running") {
            Ok(SubFilter::Running)
        } else if str_eq(s, "exited") {
            Ok(SubFilter::Exited)
        } else if str_eq(s, "dead") {
            Ok(SubFilter::Dead)
        } else if str_eq(s, "failed") {
            Ok(SubFilter::Failed)
        } else if str_eq(s, "start-pre") {
            Ok(SubFilter::StartPre)
        } else if str_eq(s, "start") {
            Ok(SubFilter::Start)
        } else if str_eq(s, "start-post") {
            Ok(SubFilter::StartPost)
        } else if str_eq(s, "auto-restart") {
            Ok(SubFilter::AutoRestart)
        } else if str_eq(s, "auto-restart-queued") {
            Ok(SubFilter::AutoRestartQueued)
        } else if str_eq(s, "dead-before-auto-restart") {
            Ok(SubFilter::DeadBeforeAutoRestart)
        } else if str_eq(s, "condition") {
            Ok(SubFilter::Condition)
        } else if str_eq(s, "reload") {
            Ok(SubFilter::Reload)
        } else if str_eq(s, "reload-post") {
            Ok(SubFilter::ReloadPost)
        } else if str_eq(s, "reload-signal") {
            Ok(SubFilter::ReloadSignal)
        } else if str_eq(s, "reload-notify") {
            Ok(SubFilter::ReloadNotify)
        } else if str_eq(s, "stop") {
            Ok(SubFilter::Stop)
        } else if str_eq(s, "stop-watchdog") {
            Ok(SubFilter::StopWatchdog)
        } else if str_eq(s, "stop-sigterm") {
            Ok(SubFilter::StopSigterm)
        } else if str_eq(s, "stop-sigkill") {
            Ok(SubFilter::StopSigkill)
        } else if str_eq(s, "stop-post") {
            Ok(SubFilter::StopPost)
        } else if str_eq(s, "final-sigterm") {
            Ok(SubFilter::FinalSigterm)
        } else if str_eq(s, "final-sigkill") {
            Ok(SubFilter::FinalSigkill)
        } else if str_eq(s, "final-watchdog") {
            Ok(SubFilter::FinalWatchdog)
        } else if str_eq(s, "cleaning") {
            Ok(SubFilter::Cleaning)
        } else {
            assert forall|f: SubFilter| #[trigger] sub_filter_name(f) != s@ by {
                match f {
                    _ => {},
                }
            }
            let mut m = String::from_str("invalid --sub value: ");
            m.append(s);
            m.append("; allowed: ");
            m.append(Self::allowed_values());
            Err(m)
        }
    }
}

/// Usage text.
pub open spec fn usage_chars() -> Seq<char> {
    "lsu v0.1.0\napache v2 (c) 2026 l5yth\n\nUsage: lsu [OPTIONS]

Show systemd services in a terminal UI: list systemd units, their state and latest log line.
By default only loaded and active units are shown.

Options:
  -a, --all            Shorthand for --load all --active all --sub all
      --load <value>   Filter by load state (all, loaded, stub, not-found, bad-setting, error, merged, masked)
      --active <value> Filter by active state (all, active, reloading, inactive, failed, activating, deactivating, maintenance, refreshing)
      --sub <value>    Filter by sub state (all, running, exited, dead, failed, start-pre, start, start-post, auto-restart, auto-restart-queued, dead-before-auto-restart, condition, reload, reload-post, reload-signal, reload-notify, stop, stop-watchdog, stop-sigterm, stop-sigkill, stop-post, final-sigterm, final-sigkill, final-watchdog, cleaning)
      --user           Show the units of the calling user's service manager
  -r, --refresh <num>  Auto-refresh interval in seconds (0 disables, default: 0)
  -h, --help           Show this help text
  -v, --version        Show version and copyright"@
}

/// Usage text.
pub fn usage() -> (r: &'static str)
    ensures
        r@ == usage_chars(),
{
    "lsu v0.1.0\napache v2 (c) 2026 l5yth\n\nUsage: lsu [OPTIONS]

Show systemd services in a terminal UI: list systemd units, their state and latest log line.
By default only loaded and active units are shown.

Options:
  -a, --all            Shorthand for --load all --active all --sub all
      --load <value>   Filter by load state (all, loaded, stub, not-found, bad-setting, error, merged, masked)
      --active <value> Filter by active state (all, active, reloading, inactive, failed, activating, deactivating, maintenance, refreshing)
      --sub <value>    Filter by sub state (all, running, exited, dead, failed, start-pre, start, start-post, auto-restart, auto-restart-queued, dead-before-auto-restart, condition, reload, reload-post, reload-signal, reload-notify, stop, stop-watchdog, stop-sigterm, stop-sigkill, stop-post, final-sigterm, final-sigkill, final-watchdog, cleaning)
      --user           Show the units of the calling user's service manager
  -r, --refresh <num>  Auto-refresh interval in seconds (0 disables, default: 0)
  -h, --help           Show this help text
  -v, --version        Show version and copyright"
}

/// Version text.
pub fn version_text() -> (r: &'static str)
    ensures
        r@ == "lsu v0.1.0\nlist systemd units\napache v2 (c) 2026 l5yth"@,
{
    "lsu v0.1.0\nlist systemd units\napache v2 (c) 2026 l5yth"
}

/// What the command line has said so far.
pub struct ArgState {
    pub load: Option<Seq<char>>,
    pub active: Option<Seq<char>>,
    pub sub: Option<Seq<char>>,
    pub refresh_secs: u64,
    pub show_help: bool,
    pub show_version: bool,
    pub saw_all: bool,
    pub saw_specific: bool,
    pub user: bool,
}

/// Nothing said yet.
pub open spec fn initial_args() -> ArgState {
    ArgState {
        load: None,
        active: None,
        sub: None,
        refresh_secs: 0,
        show_help: false,
        show_version: false,
        saw_all: false,
        saw_specific: false,
        user: false,
    }
}

/// Some load filter is spelled `s`.
pub open spec fn valid_load(s: Seq<char>) -> bool {
    exists|f: LoadFilter| #[trigger] load_filter_name(f) == s
}

/// Some active filter is spelled `s`.
pub open spec fn valid_active(s: Seq<char>) -> bool {
    exists|f: ActiveFilter| #[trigger] active_filter_name(f) == s
}

/// Some sub filter is spelled `s`.
pub open spec fn valid_sub(s: Seq<char>) -> bool {
    exists|f: SubFilter| #[trigger] sub_filter_name(f) == s
}

/// The error for a flag given without its value.
pub open spec fn missing_value(flag: Seq<char>) -> Seq<char> {
    "missing value for "@ + flag + "\n\n"@ + usage_chars()
}

/// `st` after `flag` (one of `--load`, `--active`, `--sub`, `-r`,
/// `--refresh`) with value `v`.
pub open spec fn with_value(flag: Seq<char>, v: Seq<char>, st: ArgState) -> Result<ArgState, Seq<char>> {
    if flag == "--load"@ {
        if valid_load(v) {
            Ok(ArgState { load: Some(v), saw_specific: true, ..st })
        } else {
            Err("invalid --load value: "@ + v + "; allowed: "@ + load_allowed())
        }
    } else if flag == "--active"@ {
        if valid_active(v) {
            Ok(ArgState { active: Some(v), saw_specific: true, ..st })
        } else {
            Err("invalid --active value: "@ + v + "; allowed: "@ + active_allowed())
        }
    } else if flag == "--sub"@ {
        if valid_sub(v) {
            Ok(ArgState { sub: Some(v), saw_specific: true, ..st })
        } else {
            Err("invalid --sub value: "@ + v + "; allowed: "@ + sub_allowed())
        }
    } else {
        match decimal_u64(v) {
            Some(n) => Ok(ArgState { refresh_secs: n, ..st }),
            None => Err("invalid refresh value: "@ + v),
        }
    }
}

/// `a` starts with `p`.
pub open spec fn has_prefix(a: Seq<char>, p: Seq<char>) -> bool {
    p.len() <= a.len() && a.take(p.len() as int) == p
}

/// `flag=value` forms: the flag they stand for, if `a` is one.
pub open spec fn equals_form(a: Seq<char>) -> Option<Seq<char>> {
    if has_prefix(a, "--load="@) {
        Some("--load"@)
    } else if has_prefix(a, "--active="@) {
        Some("--active"@)
    } else if has_prefix(a, "--sub="@) {
        Some("--sub"@)
    } else if has_prefix(a, "--refresh="@) {
        Some("--refresh"@)
    } else {
        None
    }
}

/// Flags that take the next argument as their value.
pub open spec fn takes_value(a: Seq<char>) -> bool {
    a == "--load"@ || a == "--active"@ || a == "--sub"@ || a == "-r"@ || a == "--refresh"@
}

/// Read the arguments from index `i` on.
pub open spec fn scan_args(args: Seq<Seq<char>>, i: int, st: ArgState) -> Result<ArgState, Seq<char>>
    decreases args.len() - i,
{
    if i < 0 || i >= args.len() {
        Ok(st)
    } else {
        let a = args[i];
        if a == "-a"@ || a == "--all"@ {
            scan_args(args, i + 1, ArgState { saw_all: true, ..st })
        } else if a == "-h"@ || a == "--help"@ {
            scan_args(args, i + 1, ArgState { show_help: true, ..st })
        } else if a == "-v"@ || a == "--version"@ {
            scan_args(args, i + 1, ArgState { show_version: true, ..st })
        } else if a == "--user"@ {
            scan_args(args, i + 1, ArgState { user: true, ..st })
        } else if takes_value(a) {
            if i + 1 >= args.len() {
                Err(missing_value(a))
            } else {
                match with_value(a, args[i + 1], st) {
                    Ok(st2) => scan_args(args, i + 2, st2),
                    Err(e) => Err(e),
                }
            }
        } else {
            match equals_form(a) {
                Some(flag) => match with_value(flag, a.skip(flag.len() as int + 1), st) {
                    Ok(st2) => scan_args(args, i + 1, st2),
                    Err(e) => Err(e),
                },
                None => Err("unknown argument: "@ + a + "\n\n"@ + usage_chars()),
            }
        }
    }
}

/// The error for `--all` together with a specific filter.
pub open spec fn all_conflict() -> Seq<char> {
    "--all cannot be combined with --load, --active, or --sub\n\n"@ + usage_chars()
}

/// A filter value as chosen: all `all` with `--all`, `all` for filters left
/// out when some are given, else the running-units default.
pub open spec fn chosen(st: ArgState, given: Option<Seq<char>>, default: Seq<char>) -> Seq<char> {
    if st.saw_all {
        "all"@
    } else if st.saw_specific {
        match given {
            Some(v) => v,
            None => "all"@,
        }
    } else {
        default
    }
}

/// Accepted load filter spellings.
pub open spec fn load_allowed() -> Seq<char> {
    "all, loaded, stub, not-found, bad-setting, error, merged, masked"@
}

/// Accepted active filter spellings.
pub open spec fn active_allowed() -> Seq<char> {
    "all, active, reloading, inactive, failed, activating, deactivating, maintenance, refreshing"@
}

/// Accepted sub filter spellings.
pub open spec fn sub_allowed() -> Seq<char> {
    "all, running, exited, dead, failed, start-pre, start, start-post, auto-restart, auto-restart-queued, dead-before-auto-restart, condition, reload, reload-post, reload-signal, reload-notify, stop, stop-watchdog, stop-sigterm, stop-sigkill, stop-post, final-sigterm, final-sigkill, final-watchdog, cleaning"@
}

/// Flags read so far.
struct ArgFlags {
    load: Option<LoadFilter>,
    active: Option<ActiveFilter>,
    sub: Option<SubFilter>,
    refresh_secs: u64,
    show_help: bool,
    show_version: bool,
    saw_all: bool,
    saw_specific: bool,
    user: bool,
}

impl ArgFlags {
    spec fn view(&self) -> ArgState {
        ArgState {
            load: match self.load {
                Some(f) => Some(load_filter_name(f)),
                None => None,
            },
            active: match self.active {
                Some(f) => Some(active_filter_name(f)),
                None => None,
            },
            sub: match self.sub {
                Some(f) => Some(sub_filter_name(f)),
                None => None,
            },
            refresh_secs: self.refresh_secs,
            show_help: self.show_help,
            show_version: self.show_version,
            saw_all: self.saw_all,
            saw_specific: self.saw_specific,
            user: self.user,
        }
    }
}

fn take_value(flag: &str, v: &str, st: &mut ArgFlags) -> (r: Result<(), String>)
    ensures
        match with_value(flag@, v@, old(st).view()) {
            Ok(s2) => r is Ok && final(st).view() == s2,
            Err(e) => (r matches Err(m) && m@ == e),
        },
{
    if str_eq(flag, "--load") {
        match LoadFilter::from_str(v) {
            Ok(f) => {
                st.load = Some(f);
                st.saw_specific = true;
                Ok(())
            },
            Err(m) => Err(m),
        }
    } else if str_eq(flag, "--active") {
        match ActiveFilter::from_str(v) {
            Ok(f) => {
                st.active = Some(f);
                st.saw_specific = true;
                Ok(())
            },
            Err(m) => Err(m),
        }
    } else if str_eq(flag, "--sub") {
        match SubFilter::from_str(v) {
            Ok(f) => {
                st.sub = Some(f);
                st.saw_specific = true;
                Ok(())
            },
            Err(m) => Err(m),
        }
    } else {
        match parse_refresh_secs(v) {
            Ok(n) => {
                st.refresh_secs = n;
                Ok(())
            },
            Err(m) => Err(m),
        }
    }
}

/// The refresh interval a value spells, in seconds.
pub fn parse_refresh_secs(value: &str) -> (r: Result<u64, String>)
    ensures
        decimal_u64(value@) matches Some(n) ==> r == Ok::<u64, String>(n),
        decimal_u64(value@) is None ==> (r matches Err(m) && m@ == "invalid refresh value: "@
            + value@),
{
    match parse_u64(value) {
        Some(n) => Ok(n),
        None => {
            let mut m = String::from_str("invalid refresh value: ");
            m.append(value);
            Err(m)
        },
    }
}

fn take_equals_value(a: &str, prefix: &str, flag: &str, st: &mut ArgFlags) -> (r: Result<(), String>)
    requires
        has_prefix(a@, prefix@),
        prefix@.len() == flag@.len() + 1,
    ensures
        match with_value(flag@, a@.skip(flag@.len() as int + 1), old(st).view()) {
            Ok(s2) => r is Ok && final(st).view() == s2,
            Err(e) => (r matches Err(m) && m@ == e),
        },
{
    let value = a.substring_char(prefix.unicode_len(), a.unicode_len());
    assert(value@ =~= a@.skip(flag@.len() as int + 1));
    take_value(flag, value, st)
}

fn with_usage(head: &str, arg: &str) -> (r: String)
    ensures
        r@ == head@ + arg@ + "\n\n"@ + usage_chars(),
{
    let mut m = String::from_str(head);
    m.append(arg);
    m.append("\n\n");
    m.append(usage());
    m
}

/// Parse the command line (program name first) into a [`Config`]: filters
/// given as `--flag value` or `--flag=value`, `--all` for no filter at all,
/// `--user` for the personal manager, `-r` for the refresh interval.
/// Without filters, only loaded, active, running units are listed.
pub fn parse_args(args: &Vec<String>) -> (r: Result<Config, String>)
    ensures
        match scan_args(views(args@), 1, initial_args()) {
            Err(e) => (r matches Err(m) && m@ == e),
            Ok(st) => if st.saw_all && st.saw_specific {
                (r matches Err(m) && m@ == all_conflict())
            } else {
                (r matches Ok(c) && c.load_filter@ == chosen(st, st.load, "loaded"@)
                    && c.active_filter@ == chosen(st, st.active, "active"@) && c.sub_filter@
                    == chosen(st, st.sub, "running"@) && c.refresh_secs == st.refresh_secs
                    && c.show_help == st.show_help && c.show_version == st.show_version
                    && !c.debug_tui && c.scope == if st.user {
                    Scope::User
                } else {
                    Scope::System
                })
            },
        },
{
    let ghost av = views(args@);
    let mut st = ArgFlags {
        load: None,
        active: None,
        sub: None,
        refresh_secs: 0,
        show_help: false,
        show_version: false,
        saw_all: false,
        saw_specific: false,
        user: false,
    };
    assert(st.view() == initial_args());
    let n = args.len();
    let mut i: usize = 1;
    while i < n
        invariant
            n == args@.len(),
            av == views(args@),
            1 <= i,
            scan_args(av, 1, initial_args()) == scan_args(av, i as int, st.view()),
        decreases n - i,
    {
        let a = args[i].as_str();
        assert(av[i as int] == a@);
        if str_eq(a, "-a") || str_eq(a, "--all") {
            st.saw_all = true;
            i += 1;
        } else if str_eq(a, "-h") || str_eq(a, "--help") {
            st.show_help = true;
            i += 1;
        } else if str_eq(a, "-v") || str_eq(a, "--version") {
            st.show_version = true;
            i += 1;
        } else if str_eq(a, "--user") {
            st.user = true;
            i += 1;
        } else if str_eq(a, "--load") || str_eq(a, "--active") || str_eq(a, "--sub") || str_eq(
            a,
            "-r",
        ) || str_eq(a, "--refresh") {
            if i + 1 >= n {
                return Err(with_usage("missing value for ", a));
            }
            assert(av[i + 1] == args@[i + 1]@);
            match take_value(a, args[i + 1].as_str(), &mut st) {
                Ok(()) => {},
                Err(m) => {
                    return Err(m);
                },
            }
            i += 2;
        } else {
            proof {
                reveal_strlit("--load=");
                reveal_strlit("--active=");
                reveal_strlit("--sub=");
                reveal_strlit("--refresh=");
                reveal_strlit("--load");
                reveal_strlit("--active");
                reveal_strlit("--sub");
                reveal_strlit("--refresh");
            }
            let r = if starts_with_chars(a, "--load=") {
                take_equals_value(a, "--load=", "--load", &mut st)
            } else if starts_with_chars(a, "--active=") {
                take_equals_value(a, "--active=", "--active", &mut st)
            } else if starts_with_chars(a, "--sub=") {
                take_equals_value(a, "--sub=", "--sub", &mut st)
            } else if starts_with_chars(a, "--refresh=") {
                take_equals_value(a, "--refresh=", "--refresh", &mut st)
            } else {
                return Err(with_usage("unknown argument: ", a));
            };
            match r {
                Ok(()) => {},
                Err(m) => {
                    return Err(m);
                },
            }
            i += 1;
        }
    }
    if st.saw_all && st.saw_specific {
        let mut m = String::from_str("--all cannot be combined with --load, --active, or --sub\n\n");
        m.append(usage());
        return Err(m);
    }
    let (load, active, sub): (&str, &str, &str) = if st.saw_all {
        ("all", "all", "all")
    } else if st.saw_specific {
        (
            match st.load {
                Some(f) => f.as_str(),
                None => "all",
            },
            match st.active {
                Some(f) => f.as_str(),
                None => "all",
            },
            match st.sub {
                Some(f) => f.as_str(),
                None => "all",
            },
        )
    } else {
        ("loaded", "active", "running")
    };
    Ok(
        Config {
            load_filter: String::from_str(load),
            active_filter: String::from_str(active),
            sub_filter: String::from_str(sub),
            refresh_secs: st.refresh_secs,
            show_help: st.show_help,
            show_version: st.show_version,
            debug_tui: false,
            scope: if st.user {
                Scope::User
            } else {
                Scope::System
            },
        },
    )
}
} // verus!
