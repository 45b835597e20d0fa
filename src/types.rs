//! Shared domain types: scopes, unit actions, confirmation prompts, list
//! rows, detail-view state and the messages that workers report.

use vstd::prelude::*;

use crate::text::str_eq;

verus! {

/// Which service-manager instance a query or action targets.
#[derive(Debug, Clone, Copy, PartialEq, Eq, Structural)]
pub enum Scope {
    /// The caller's personal manager instance.
    User,
    /// The system-wide manager instance.
    System,
}

/// The scope flag that both external programs take.
pub open spec fn scope_flag(scope: Scope) -> Seq<char> {
    match scope {
        Scope::System => "--system"@,
        Scope::User => "--user"@,
    }
}

impl Scope {
    /// The matching scope flag, `--system` or `--user`.
    pub fn as_systemd_arg(&self) -> (r: &'static str)
        ensures
            r@ == scope_flag(*self),
    {
        match self {
            Scope::System => "--system",
            Scope::User => "--user",
        }
    }
}

/// One queried unit, as the service manager lists it.
#[derive(Debug, Clone)]
pub struct SystemctlUnit {
    /// Unit name, e.g. `sshd.service`.
    pub unit: String,
    /// Load state.
    pub load: String,
    /// Active state.
    pub active: String,
    /// Sub-state.
    pub sub: String,
    /// Human-readable description.
    pub description: String,
}

/// The five indicator classes that a unit's active and sub state map to.
#[derive(Debug, Clone, Copy, PartialEq, Eq, Structural)]
pub enum StatusClass {
    /// Active and running.
    Healthy,
    /// Active in some other sub-state.
    Caution,
    /// Inactive.
    Dimmed,
    /// Failed.
    Alert,
    /// Any other, usually transitional, state.
    Info,
}

/// A list-table row: a unit with its indicator and its latest log line.
#[derive(Debug, Clone)]
pub struct UnitRow {
    /// Glyph shown in the indicator column.
    pub dot: char,
    /// Indicator class, which the renderer turns into a colour.
    pub status: StatusClass,
    /// Unit name.
    pub unit: String,
    /// Load state.
    pub load: String,
    /// Active state.
    pub active: String,
    /// Sub-state.
    pub sub: String,
    /// Description text.
    pub description: String,
    /// Last known log line.
    pub last_log: String,
}

/// One timestamped line of the detail view.
#[derive(Debug, Clone)]
pub struct DetailLogEntry {
    /// Timestamp token, empty when the line had none.
    pub time: String,
    /// Message text.
    pub log: String,
}

/// Phase of the list view's refresh cycle.
#[derive(Debug, Clone, Copy, PartialEq, Eq, Structural)]
pub enum LoadPhase {
    /// No refresh running.
    Idle,
    /// The unit list is being fetched.
    FetchingUnits,
    /// Log lines for the listed units are being fetched.
    FetchingLogs,
}

/// Which screen is shown.
#[derive(Debug, Clone, Copy, PartialEq, Eq, Structural)]
pub enum ViewMode {
    /// The service list.
    List,
    /// One unit's log lines.
    Detail,
}

/// An action on a unit that the operator can confirm and run.
#[derive(Debug, Clone, Copy, PartialEq, Eq, Structural)]
pub enum UnitAction {
    Start,
    Restart,
    Stop,
    Enable,
    Disable,
}

/// Command-line verb of an action.
pub open spec fn action_verb(a: UnitAction) -> Seq<char> {
    match a {
        UnitAction::Start => "start"@,
        UnitAction::Restart => "restart"@,
        UnitAction::Stop => "stop"@,
        UnitAction::Enable => "enable"@,
        UnitAction::Disable => "disable"@,
    }
}

/// Present participle of an action, for prompts.
pub open spec fn action_participle(a: UnitAction) -> Seq<char> {
    match a {
        UnitAction::Start => "starting"@,
        UnitAction::Restart => "restarting"@,
        UnitAction::Stop => "stopping"@,
        UnitAction::Enable => "enabling"@,
        UnitAction::Disable => "disabling"@,
    }
}

/// Past tense of an action, for completion messages.
pub open spec fn action_past(a: UnitAction) -> Seq<char> {
    match a {
        UnitAction::Start => "started"@,
        UnitAction::Restart => "restarted"@,
        UnitAction::Stop => "stopped"@,
        UnitAction::Enable => "enabled"@,
        UnitAction::Disable => "disabled"@,
    }
}

impl UnitAction {
    /// The service manager's verb for this action.
    pub fn as_systemctl_arg(self) -> (r: &'static str)
        ensures
            r@ == action_verb(self),
    {
        match self {
            UnitAction::Start => "start",
            UnitAction::Restart => "restart",
            UnitAction::Stop => "stop",
            UnitAction::Enable => "enable",
            UnitAction::Disable => "disable",
        }
    }

    /// The present participle used in confirmation prompts.
    pub fn prompt_verb(self) -> (r: &'static str)
        ensures
            r@ == action_participle(self),
    {
        match self {
            UnitAction::Start => "starting",
            UnitAction::Restart => "restarting",
            UnitAction::Stop => "stopping",
            UnitAction::Enable => "enabling",
            UnitAction::Disable => "disabling",
        }
    }

    /// The past tense used in completion messages.
    pub fn past_tense(self) -> (r: &'static str)
        ensures
            r@ == action_past(self),
    {
        match self {
            UnitAction::Start => "started",
            UnitAction::Restart => "restarted",
            UnitAction::Stop => "stopped",
            UnitAction::Enable => "enabled",
            UnitAction::Disable => "disabled",
        }
    }
}

/// The kind of a pending confirmation prompt.
#[derive(Debug, Clone, Copy, PartialEq, Eq, Structural)]
pub enum ConfirmationKind {
    /// A yes/no prompt for one action.
    ConfirmAction(UnitAction),
    /// A running unit: restart or stop.
    RestartOrStop,
}

/// A pending confirmation for an action on a unit.
#[derive(Debug, Clone, PartialEq, Eq)]
pub struct ConfirmationState {
    /// What the prompt offers.
    pub kind: ConfirmationKind,
    /// Target unit name.
    pub unit: String,
}

impl ConfirmationState {
    /// A yes/no prompt for `action` on `unit`.
    pub fn confirm_action(action: UnitAction, unit: String) -> (r: Self)
        ensures
            r.kind == ConfirmationKind::ConfirmAction(action),
            r.unit == unit,
    {
        ConfirmationState { kind: ConfirmationKind::ConfirmAction(action), unit }
    }

    /// A restart-or-stop prompt for a running unit.
    pub fn restart_or_stop(unit: String) -> (r: Self)
        ensures
            r.kind == ConfirmationKind::RestartOrStop,
            r.unit == unit,
    {
        ConfirmationState { kind: ConfirmationKind::RestartOrStop, unit }
    }

    /// A copy of this prompt.
    pub fn clone_state(&self) -> (r: Self)
        ensures
            r == *self,
    {
        ConfirmationState { kind: self.kind, unit: self.unit.clone() }
    }

    /// The action a yes/no prompt confirms; none for restart-or-stop.
    pub fn confirmed_action(&self) -> (r: Option<UnitAction>)
        ensures
            r == (match self.kind {
                ConfirmationKind::ConfirmAction(a) => Some(a),
                ConfirmationKind::RestartOrStop => None::<UnitAction>,
            }),
    {
        match self.kind {
            ConfirmationKind::ConfirmAction(action) => Some(action),
            ConfirmationKind::RestartOrStop => None,
        }
    }
}

/// A request to work out which prompt to show for a unit.
#[derive(Debug, Clone, PartialEq, Eq)]
pub enum ActionResolutionRequest {
    /// Start, restart or stop, from the unit's active state.
    StartStop {
        /// Target unit name.
        unit: String,
    },
    /// Enable or disable, from the unit's file state.
    EnableDisable {
        /// Target unit name.
        unit: String,
    },
}

impl ActionResolutionRequest {
    /// The target unit.
    pub fn unit(&self) -> (r: &str)
        ensures
            r@ == (match self {
                ActionResolutionRequest::StartStop { unit } => unit@,
                ActionResolutionRequest::EnableDisable { unit } => unit@,
            }),
    {
        match self {
            ActionResolutionRequest::StartStop { unit } => unit.as_str(),
            ActionResolutionRequest::EnableDisable { unit } => unit.as_str(),
        }
    }
}

/// Detail-view state. Results of asynchronous fetches carry the request id
/// they were issued under and are applied only while that id is current.
#[derive(Debug, Clone)]
pub struct DetailState {
    /// Unit shown.
    pub unit: String,
    /// Loaded entries, newest first.
    pub logs: Vec<DetailLogEntry>,
    /// Scroll offset into `logs`.
    pub scroll: usize,
    /// Whether a fetch is in flight.
    pub loading: bool,
    /// Error of the last fetch, if any.
    pub error: Option<String>,
    /// The last request id handed out.
    pub next_request_id: u64,
    /// The id whose result would be applied now, if any.
    pub active_request_id: Option<u64>,
}

/// `n + 1`, held at the largest `u64`.
pub open spec fn bump(n: u64) -> u64 {
    if n < u64::MAX {
        (n + 1) as u64
    } else {
        n
    }
}

impl DetailState {
    /// An empty state with no request issued.
    pub fn new() -> (r: Self)
        ensures
            r.unit@.len() == 0,
            r.logs@.len() == 0,
            r.scroll == 0,
            !r.loading,
            r.error is None,
            r.next_request_id == 0,
            r.active_request_id is None,
    {
        DetailState {
            unit: String::new(),
            logs: Vec::new(),
            scroll: 0,
            loading: false,
            error: None,
            next_request_id: 0,
            active_request_id: None,
        }
    }

    /// Show `unit` and issue a fetch for it: drops the old lines, resets the
    /// scroll offset and returns the new request id.
    pub fn begin_for_unit(&mut self, unit: String) -> (r: u64)
        ensures
            final(self).unit == unit,
            final(self).logs@.len() == 0,
            final(self).scroll == 0,
            final(self).loading,
            final(self).error is None,
            final(self).next_request_id == bump(old(self).next_request_id),
            final(self).active_request_id == Some(final(self).next_request_id),
            r == final(self).next_request_id,
    {
        self.unit = unit;
        self.logs = Vec::new();
        self.scroll = 0;
        self.loading = true;
        self.error = None;
        self.next_request_id = self.next_request_id.saturating_add(1);
        self.active_request_id = Some(self.next_request_id);
        self.next_request_id
    }

    /// Issue a new fetch for the current unit, keeping its lines on screen;
    /// nothing happens when no unit is shown.
    pub fn refresh(&mut self) -> (r: Option<u64>)
        ensures
            old(self).unit@.len() == 0 ==> r is None && *final(self) == *old(self),
            old(self).unit@.len() != 0 ==> {
                &&& final(self).unit == old(self).unit
                &&& final(self).logs == old(self).logs
                &&& final(self).scroll == old(self).scroll
                &&& final(self).loading
                &&& final(self).error is None
                &&& final(self).next_request_id == bump(old(self).next_request_id)
                &&& final(self).active_request_id == Some(final(self).next_request_id)
                &&& r == Some(final(self).next_request_id)
            },
    {
        if self.unit.as_str().is_empty() {
            return None;
        }
        self.loading = true;
        self.error = None;
        self.next_request_id = self.next_request_id.saturating_add(1);
        self.active_request_id = Some(self.next_request_id);
        Some(self.next_request_id)
    }

    /// Whether a result for `request_id` and `unit` is current.
    pub open spec fn is_current(&self, request_id: u64, unit: Seq<char>) -> bool {
        self.active_request_id == Some(request_id) && self.unit@ == unit
    }

    fn matches_request(&self, request_id: u64, unit: &str) -> (r: bool)
        ensures
            r == self.is_current(request_id, unit@),
    {
        match self.active_request_id {
            Some(id) => id == request_id && str_eq(self.unit.as_str(), unit),
            None => false,
        }
    }

    /// Apply loaded lines if they answer the current request; otherwise drop
    /// them and leave the state as it was. Returns whether they were applied.
    pub fn apply_loaded(&mut self, request_id: u64, unit: &str, logs: Vec<DetailLogEntry>) -> (r:
        bool)
        ensures
            r == old(self).is_current(request_id, unit@),
            !r ==> *final(self) == *old(self),
            r ==> {
                &&& final(self).logs == logs
                &&& final(self).scroll == (if logs@.len() == 0 {
                    0
                } else if old(self).scroll < logs@.len() {
                    old(self).scroll
                } else {
                    (logs@.len() - 1) as usize
                })
                &&& !final(self).loading
                &&& final(self).error is None
                &&& final(self).unit == old(self).unit
                &&& final(self).next_request_id == old(self).next_request_id
                &&& final(self).active_request_id == old(self).active_request_id
            },
    {
        if !self.matches_request(request_id, unit) {
            return false;
        }
        let n = logs.len();
        self.logs = logs;
        if n == 0 {
            self.scroll = 0;
        } else if self.scroll >= n {
            self.scroll = n - 1;
        }
        self.loading = false;
        self.error = None;
        true
    }

    /// Apply a fetch error if it answers the current request; otherwise drop
    /// it and leave the state as it was. Returns whether it was applied.
    pub fn apply_error(&mut self, request_id: u64, unit: &str, error: String) -> (r: bool)
        ensures
            r == old(self).is_current(request_id, unit@),
            !r ==> *final(self) == *old(self),
            r ==> {
                &&& final(self).error == Some(error)
                &&& !final(self).loading
                &&& final(self).logs == old(self).logs
                &&& final(self).scroll == old(self).scroll
                &&& final(self).unit == old(self).unit
                &&& final(self).next_request_id == old(self).next_request_id
                &&& final(self).active_request_id == old(self).active_request_id
            },
    {
        if !self.matches_request(request_id, unit) {
            return false;
        }
        self.loading = false;
        self.error = Some(error);
        true
    }
}

impl Default for DetailState {
    fn default() -> (r: Self)
        ensures
            r.unit@.len() == 0,
            r.logs@.len() == 0,
            r.scroll == 0,
            !r.loading,
            r.error is None,
            r.next_request_id == 0,
            r.active_request_id is None,
    {
        DetailState::new()
    }
}

/// What a background task reports back to the controller.
#[derive(Debug)]
pub enum WorkerMsg {
    /// The refreshed rows, before any log line is known.
    UnitsLoaded(Vec<UnitRow>),
    /// Log lines for one group of rows.
    LogsProgress {
        /// Rows covered so far.
        done: usize,
        /// Rows in this refresh.
        total: usize,
        /// `(unit, last log line)` pairs of this group.
        logs: Vec<(String, String)>,
    },
    /// Detail lines for a request id and unit.
    DetailLogsLoaded {
        /// Unit the lines belong to.
        unit: String,
        /// Request id the fetch was issued under.
        request_id: u64,
        /// Loaded entries.
        logs: Vec<DetailLogEntry>,
    },
    /// A detail fetch failed.
    DetailLogsError {
        /// Unit the fetch was for.
        unit: String,
        /// Request id the fetch was issued under.
        request_id: u64,
        /// Error text.
        error: String,
    },
    /// A confirmation prompt is ready.
    ActionConfirmationReady {
        /// Target unit.
        unit: String,
        /// The prompt.
        confirmation: ConfirmationState,
    },
    /// Working out the prompt failed.
    ActionResolutionError {
        /// Target unit.
        unit: String,
        /// Error text.
        error: String,
    },
    /// An action completed.
    UnitActionComplete {
        /// Target unit.
        unit: String,
        /// The action run.
        action: UnitAction,
    },
    /// An action failed.
    UnitActionError {
        /// Target unit.
        unit: String,
        /// The action attempted.
        action: UnitAction,
        /// Error text.
        error: String,
    },
    /// The refresh finished.
    Finished,
    /// The refresh failed.
    Error(String),
}

} // verus!
