//! How the controller applies what workers report: the list view's refresh
//! messages, action-prompt resolutions and action outcomes.

use vstd::prelude::*;

use crate::input::UiCommand;
use crate::rows::preserve_selection;
use crate::status::{
    action_complete_status_text, action_error_status, action_error_status_text,
    action_resolution_error_status_text, complete_status, list_status, list_status_text,
    resolution_error_status, running_status, stale_status, stale_status_text,
};
use crate::text::str_eq;
use crate::status::{action_resolution_status_text, action_status_text};
use crate::types::{
    ActionResolutionRequest, ConfirmationKind, ConfirmationState, DetailState, LoadPhase,
    UnitAction, UnitRow, ViewMode, WorkerMsg,
};

verus! {

/// Replace the footer text, noting whether it stays over the stale-data
/// notice.
pub fn set_status_line(
    status_line: &mut String,
    status_line_overrides_stale: &mut bool,
    text: String,
    overrides_stale: bool,
)
    ensures
        *final(status_line) == text,
        *final(status_line_overrides_stale) == overrides_stale,
{
    *status_line = text;
    *status_line_overrides_stale = overrides_stale;
}

/// Apply a message of the prompt-resolution worker: a ready prompt becomes
/// the pending confirmation and the footer returns to the list text; an
/// error is shown in the footer. Returns whether the message was one of
/// these two; any other leaves everything unchanged.
pub fn apply_action_resolution_msg(
    confirmation: &mut Option<ConfirmationState>,
    status_line: &mut String,
    status_line_overrides_stale: &mut bool,
    rows_len: usize,
    msg: WorkerMsg,
) -> (r: bool)
    ensures
        r == (msg is ActionConfirmationReady || msg is ActionResolutionError),
        msg matches WorkerMsg::ActionConfirmationReady { confirmation: c, .. } ==> {
            &&& *final(confirmation) == Some(c)
            &&& final(status_line)@ == list_status(rows_len, None)
            &&& !*final(status_line_overrides_stale)
        },
        msg matches WorkerMsg::ActionResolutionError { unit, error } ==> {
            &&& *final(confirmation) == *old(confirmation)
            &&& final(status_line)@ == resolution_error_status(rows_len, unit@, error@)
            &&& *final(status_line_overrides_stale)
        },
        !r ==> {
            &&& *final(confirmation) == *old(confirmation)
            &&& *final(status_line) == *old(status_line)
            &&& *final(status_line_overrides_stale) == *old(status_line_overrides_stale)
        },
{
    match msg {
        WorkerMsg::ActionConfirmationReady { unit: _, confirmation: resolved } => {
            *confirmation = Some(resolved);
            set_status_line(
                status_line,
                status_line_overrides_stale,
                list_status_text(rows_len, None),
                false,
            );
            true
        },
        WorkerMsg::ActionResolutionError { unit, error } => {
            set_status_line(
                status_line,
                status_line_overrides_stale,
                action_resolution_error_status_text(rows_len, unit.as_str(), error.as_str()),
                true,
            );
            true
        },
        _ => false,
    }
}

/// Apply a message of the action worker: completion asks for a refresh and
/// reports the action in the footer; an error is shown in the footer.
/// Returns whether the message was one of these two; any other leaves
/// everything unchanged.
pub fn apply_action_worker_msg(
    refresh_requested: &mut bool,
    status_line: &mut String,
    status_line_overrides_stale: &mut bool,
    rows_len: usize,
    msg: WorkerMsg,
) -> (r: bool)
    ensures
        r == (msg is UnitActionComplete || msg is UnitActionError),
        msg matches WorkerMsg::UnitActionComplete { unit, action } ==> {
            &&& *final(refresh_requested)
            &&& final(status_line)@ == complete_status(rows_len, action, unit@)
            &&& *final(status_line_overrides_stale)
        },
        msg matches WorkerMsg::UnitActionError { unit, action, error } ==> {
            &&& *final(refresh_requested) == *old(refresh_requested)
            &&& final(status_line)@ == action_error_status(rows_len, action, unit@, error@)
            &&& *final(status_line_overrides_stale)
        },
        !r ==> {
            &&& *final(refresh_requested) == *old(refresh_requested)
            &&& *final(status_line) == *old(status_line)
            &&& *final(status_line_overrides_stale) == *old(status_line_overrides_stale)
        },
{
    match msg {
        WorkerMsg::UnitActionComplete { unit, action } => {
            *refresh_requested = true;
            set_status_line(
                status_line,
                status_line_overrides_stale,
                action_complete_status_text(rows_len, action, unit.as_str()),
                true,
            );
            true
        },
        WorkerMsg::UnitActionError { unit, action, error } => {
            set_status_line(
                status_line,
                status_line_overrides_stale,
                action_error_status_text(rows_len, action, unit.as_str(), error.as_str()),
                true,
            );
            true
        },
        _ => false,
    }
}

/// One step down a list of `len` entries, held at the last one.
pub fn step_down(idx: usize, len: usize) -> (r: usize)
    ensures
        r == if len == 0 {
            idx
        } else if idx < len - 1 {
            (idx + 1) as usize
        } else {
            (len - 1) as usize
        },
{
    if len == 0 {
        idx
    } else if idx < len - 1 {
        idx + 1
    } else {
        len - 1
    }
}

/// One step up, held at the first entry.
pub fn step_up(idx: usize) -> (r: usize)
    ensures
        r == if idx > 0 {
            (idx - 1) as usize
        } else {
            0
        },
{
    if idx > 0 {
        idx - 1
    } else {
        0
    }
}

/// Index of the last row named `name`, or -1.
pub open spec fn last_row_named(rows: Seq<UnitRow>, name: Seq<char>) -> int
    decreases rows.len(),
{
    if rows.len() == 0 {
        -1
    } else if rows.last().unit@ == name {
        rows.len() - 1
    } else {
        last_row_named(rows.drop_last(), name)
    }
}

/// `r` with its log cell replaced.
pub open spec fn with_log(r: UnitRow, log: String) -> UnitRow {
    UnitRow { last_log: log, ..r }
}

/// `rows` after taking in `(unit, line)` pairs in order: each line goes to
/// the last row of its unit; lines of unlisted units are dropped.
pub open spec fn apply_logs(rows: Seq<UnitRow>, logs: Seq<(String, String)>) -> Seq<UnitRow>
    decreases logs.len(),
{
    if logs.len() == 0 {
        rows
    } else {
        let prev = apply_logs(rows, logs.drop_last());
        let i = last_row_named(prev, logs.last().0@);
        if i >= 0 {
            prev.update(i, with_log(prev[i], logs.last().1))
        } else {
            prev
        }
    }
}

proof fn lemma_last_row_named_range(rows: Seq<UnitRow>, name: Seq<char>)
    ensures
        -1 <= last_row_named(rows, name) < rows.len(),
        last_row_named(rows, name) >= 0 ==> rows[last_row_named(rows, name)].unit@ == name,
    decreases rows.len(),
{
    if rows.len() > 0 && rows.last().unit@ != name {
        lemma_last_row_named_range(rows.drop_last(), name);
    }
}

proof fn lemma_apply_logs_len(rows: Seq<UnitRow>, logs: Seq<(String, String)>)
    ensures
        apply_logs(rows, logs).len() == rows.len(),
    decreases logs.len(),
{
    if logs.len() > 0 {
        lemma_apply_logs_len(rows, logs.drop_last());
        lemma_last_row_named_range(apply_logs(rows, logs.drop_last()), logs.last().0@);
    }
}

fn find_last_row(rows: &Vec<UnitRow>, name: &str) -> (r: Option<usize>)
    ensures
        match r {
            Some(i) => i as int == last_row_named(rows@, name@),
            None => last_row_named(rows@, name@) == -1,
        },
{
    let mut j: usize = rows.len();
    assert(rows@.take(j as int) =~= rows@);
    while j > 0
        invariant
            j <= rows@.len(),
            last_row_named(rows@, name@) == last_row_named(rows@.take(j as int), name@),
        decreases j,
    {
        assert(rows@.take(j as int).drop_last() =~= rows@.take(j - 1));
        if str_eq(rows[j - 1].unit.as_str(), name) {
            return Some(j - 1);
        }
        j -= 1;
    }
    None
}

/// The list view's state, as refresh messages change it.
#[derive(Debug)]
pub struct ListView {
    /// Rows shown.
    pub rows: Vec<UnitRow>,
    /// Index of the selected row.
    pub selected_idx: usize,
    /// Whether any unit list has arrived yet.
    pub loaded_once: bool,
    /// Phase of the refresh cycle.
    pub phase: LoadPhase,
    /// Footer text.
    pub status_line: String,
    /// Whether the footer text stays over the stale-data notice.
    pub status_line_overrides_stale: bool,
    /// Whether the last refresh failed.
    pub last_load_error: bool,
    /// Error of the last failed refresh.
    pub last_load_error_message: Option<String>,
}

impl ListView {
    /// An empty list view, idle.
    pub fn new() -> (r: Self)
        ensures
            r.rows@.len() == 0,
            r.selected_idx == 0,
            !r.loaded_once,
            r.phase == LoadPhase::Idle,
            r.status_line@ == list_status(0, None),
            !r.status_line_overrides_stale,
            !r.last_load_error,
            r.last_load_error_message is None,
    {
        ListView {
            rows: Vec::new(),
            selected_idx: 0,
            loaded_once: false,
            phase: LoadPhase::Idle,
            status_line: list_status_text(0, None),
            status_line_overrides_stale: false,
            last_load_error: false,
            last_load_error_message: None,
        }
    }

    /// Apply a message of the refresh worker. New rows replace the old ones,
    /// keeping the selection on the same unit; log lines fill the cells of
    /// their units; the end of the refresh, or its failure, returns to idle,
    /// a failure keeping the old rows with a stale-data footer. Returns
    /// whether the refresh is over.
    pub fn apply_list_worker_msg(&mut self, msg: WorkerMsg) -> (r: bool)
        ensures
            r == (msg is Finished || msg is Error),
            msg matches WorkerMsg::UnitsLoaded(new_rows) ==> {
                &&& final(self).rows == new_rows
                &&& final(self).loaded_once
                &&& !final(self).last_load_error
                &&& final(self).last_load_error_message is None
                &&& !final(self).status_line_overrides_stale
                &&& new_rows@.len() == 0 ==> final(self).phase == LoadPhase::Idle
                    && final(self).status_line@ == list_status(0, None) && final(self).selected_idx
                    == 0
                &&& new_rows@.len() > 0 ==> final(self).phase == LoadPhase::FetchingLogs
                    && final(self).status_line@ == list_status(
                    new_rows@.len() as usize,
                    Some((0, new_rows@.len() as usize)),
                ) && final(self).selected_idx < new_rows@.len()
            },
            msg matches WorkerMsg::LogsProgress { done, total, logs } ==> {
                &&& final(self).rows@ == apply_logs(old(self).rows@, logs@)
                &&& final(self).phase == LoadPhase::FetchingLogs
                &&& final(self).status_line@ == list_status(
                    old(self).rows@.len() as usize,
                    Some((done, total)),
                )
                &&& !final(self).status_line_overrides_stale
                &&& final(self).selected_idx == old(self).selected_idx
            },
            msg is Finished ==> {
                &&& final(self).rows == old(self).rows
                &&& final(self).phase == LoadPhase::Idle
                &&& final(self).status_line@ == list_status(old(self).rows@.len() as usize, None)
            },
            msg matches WorkerMsg::Error(e) ==> {
                &&& final(self).rows == old(self).rows
                &&& final(self).phase == LoadPhase::Idle
                &&& final(self).last_load_error
                &&& final(self).last_load_error_message == Some(e)
                &&& final(self).status_line@ == stale_status(old(self).rows@.len() as usize)
            },
            !(msg is UnitsLoaded || msg is LogsProgress || msg is Finished || msg is Error)
                ==> *final(self) == *old(self),
    {
        match msg {
            WorkerMsg::UnitsLoaded(new_rows) => {
                self.loaded_once = true;
                self.last_load_error = false;
                self.last_load_error_message = None;
                let previous_selected = if self.selected_idx < self.rows.len() {
                    Some(self.rows[self.selected_idx].unit.clone())
                } else {
                    None
                };
                self.rows = new_rows;
                let mut idx = self.selected_idx;
                preserve_selection(previous_selected, self.rows.as_slice(), &mut idx);
                self.selected_idx = idx;
                let n = self.rows.len();
                if n == 0 {
                    set_status_line(
                        &mut self.status_line,
                        &mut self.status_line_overrides_stale,
                        list_status_text(0, None),
                        false,
                    );
                    self.phase = LoadPhase::Idle;
                } else {
                    set_status_line(
                        &mut self.status_line,
                        &mut self.status_line_overrides_stale,
                        list_status_text(n, Some((0, n))),
                        false,
                    );
                    self.phase = LoadPhase::FetchingLogs;
                }
                false
            },
            WorkerMsg::LogsProgress { done, total, logs } => {
                let ghost r0 = self.rows@;
                let mut i: usize = 0;
                assert(logs@.take(0) =~= Seq::<(String, String)>::empty());
                while i < logs.len()
                    invariant
                        i <= logs@.len(),
                        r0 == old(self).rows@,
                        self.rows@ == apply_logs(r0, logs@.take(i as int)),
                        self.selected_idx == old(self).selected_idx,
                    decreases logs@.len() - i,
                {
                    assert(logs@.take(i + 1).drop_last() =~= logs@.take(i as int));
                    proof {
                        lemma_apply_logs_len(r0, logs@.take(i as int));
                        lemma_last_row_named_range(self.rows@, logs@[i as int].0@);
                    }
                    match find_last_row(&self.rows, logs[i].0.as_str()) {
                        Some(idx) => {
                            self.rows[idx].last_log = logs[i].1.clone();
                            assert(self.rows@ =~= apply_logs(r0, logs@.take(i + 1)));
                        },
                        None => {},
                    }
                    i += 1;
                }
                assert(logs@.take(logs@.len() as int) =~= logs@);
                proof {
                    lemma_apply_logs_len(r0, logs@);
                }
                set_status_line(
                    &mut self.status_line,
                    &mut self.status_line_overrides_stale,
                    list_status_text(self.rows.len(), Some((done, total))),
                    false,
                );
                self.phase = LoadPhase::FetchingLogs;
                false
            },
            WorkerMsg::Finished => {
                self.phase = LoadPhase::Idle;
                set_status_line(
                    &mut self.status_line,
                    &mut self.status_line_overrides_stale,
                    list_status_text(self.rows.len(), None),
                    false,
                );
                true
            },
            WorkerMsg::Error(e) => {
                self.last_load_error = true;
                self.last_load_error_message = Some(e);
                set_status_line(
                    &mut self.status_line,
                    &mut self.status_line_overrides_stale,
                    stale_status_text(self.rows.len()),
                    false,
                );
                self.phase = LoadPhase::Idle;
                true
            },
            _ => false,
        }
    }
}

/// What the interactive loop must start after a command.
#[derive(Debug)]
pub enum Effect {
    /// Nothing to start.
    Nothing,
    /// Leave the interface.
    Quit,
    /// Fetch the detail lines of `unit` under `request_id`.
    FetchDetail { unit: String, request_id: u64 },
    /// Work out the prompt for a request.
    Resolve(ActionResolutionRequest),
    /// Run `action` on `unit`.
    RunAction { unit: String, action: UnitAction },
}

/// Everything the controller owns, and which background tasks are out.
#[derive(Debug)]
pub struct Session {
    /// The list view.
    pub list: ListView,
    /// Which screen is shown.
    pub view_mode: ViewMode,
    /// The detail view.
    pub detail: DetailState,
    /// A prompt waiting for an answer.
    pub confirmation: Option<ConfirmationState>,
    /// A refresh is wanted once the current one is over.
    pub refresh_requested: bool,
    /// A detail fetch is out.
    pub detail_busy: bool,
    /// A prompt resolution is out.
    pub resolution_busy: bool,
    /// An action is out.
    pub action_busy: bool,
}

/// The unit of the selected row, if the selection is on a row.
pub open spec fn selected_unit(list: ListView) -> Option<String> {
    if list.selected_idx < list.rows@.len() {
        Some(list.rows@[list.selected_idx as int].unit)
    } else {
        None
    }
}

impl Session {
    /// A session on an empty list that wants its first refresh.
    pub fn new() -> (r: Self)
        ensures
            r.refresh_requested,
            r.view_mode == ViewMode::List,
            r.confirmation is None,
            !r.detail_busy && !r.resolution_busy && !r.action_busy,
    {
        Session {
            list: ListView::new(),
            view_mode: ViewMode::List,
            detail: DetailState::new(),
            confirmation: None,
            refresh_requested: true,
            detail_busy: false,
            resolution_busy: false,
            action_busy: false,
        }
    }

    /// Apply a command given while a prompt is pending. Confirming, or
    /// choosing restart or stop, runs the action unless another action is
    /// still out, and consumes the prompt; cancelling drops the prompt.
    pub fn apply_prompt_command(&mut self, cmd: UiCommand) -> (r: Effect)
        requires
            old(self).confirmation is Some,
        ensures
            prompt_choice(old(self).confirmation->0, cmd) is Some && !old(self).action_busy
                ==> (r matches Effect::RunAction { unit, action } && unit
                == old(self).confirmation->0.unit && action == prompt_choice(
                old(self).confirmation->0,
                cmd,
            )->0 && final(self).action_busy && final(self).confirmation is None
                && final(self).list.status_line@ == running_status(
                old(self).list.rows@.len() as usize,
                action,
                unit@,
            ) && final(self).list.status_line_overrides_stale),
            !(prompt_choice(old(self).confirmation->0, cmd) is Some && !old(self).action_busy)
                ==> r is Nothing && final(self).action_busy == old(self).action_busy,
            cmd == UiCommand::Cancel ==> final(self).confirmation is None
                && final(self).list.status_line@ == list_status(
                old(self).list.rows@.len() as usize,
                None,
            ),
            cmd != UiCommand::Cancel && !(prompt_choice(old(self).confirmation->0, cmd) is Some
                && !old(self).action_busy) ==> final(self).confirmation == old(self).confirmation,
            final(self).list.rows == old(self).list.rows,
            final(self).resolution_busy == old(self).resolution_busy,
            final(self).detail_busy == old(self).detail_busy,
            final(self).view_mode == old(self).view_mode,
    {
        let pending = match &self.confirmation {
            Some(c) => c.clone_state(),
            None => {
                return Effect::Nothing;
            },
        };
        let chosen = match cmd {
            UiCommand::Confirm => pending.confirmed_action(),
            UiCommand::ChooseRestart => Some(UnitAction::Restart),
            UiCommand::ChooseStop => Some(UnitAction::Stop),
            UiCommand::Cancel => {
                self.confirmation = None;
                let n = self.list.rows.len();
                set_status_line(
                    &mut self.list.status_line,
                    &mut self.list.status_line_overrides_stale,
                    list_status_text(n, None),
                    false,
                );
                return Effect::Nothing;
            },
            _ => None,
        };
        match chosen {
            Some(action) => {
                if self.action_busy {
                    return Effect::Nothing;
                }
                self.confirmation = None;
                let running = ConfirmationState::confirm_action(action, pending.unit.clone());
                let n = self.list.rows.len();
                set_status_line(
                    &mut self.list.status_line,
                    &mut self.list.status_line_overrides_stale,
                    action_status_text(n, &running),
                    true,
                );
                self.action_busy = true;
                Effect::RunAction { unit: pending.unit, action }
            },
            None => Effect::Nothing,
        }
    }

    /// Apply a command given with no prompt pending. Detail fetches start
    /// only when none is out and none is loading, except that opening a
    /// unit always starts one under a new request id; a prompt is worked
    /// out only when no action and no other resolution is out.
    pub fn apply_view_command(&mut self, cmd: UiCommand) -> (r: Effect)
        ensures
            (r is Quit) == (cmd == UiCommand::Quit),
            r is Resolve ==> !old(self).action_busy && !old(self).resolution_busy
                && final(self).resolution_busy && old(self).view_mode == ViewMode::List
                && selected_unit(old(self).list) is Some && r->Resolve_0 == if cmd
                == UiCommand::RequestStartStop {
                ActionResolutionRequest::StartStop { unit: selected_unit(old(self).list)->0 }
            } else {
                ActionResolutionRequest::EnableDisable {
                    unit: selected_unit(old(self).list)->0,
                }
            },
            (cmd == UiCommand::RequestStartStop || cmd == UiCommand::RequestEnableDisable)
                && old(self).view_mode == ViewMode::List && !old(self).action_busy
                && !old(self).resolution_busy && selected_unit(old(self).list) is Some
                ==> r is Resolve,
            r matches Effect::FetchDetail { unit, request_id } ==> final(self).detail_busy
                && final(self).detail.active_request_id == Some(request_id)
                && final(self).detail.unit == unit && final(self).detail.loading,
            r matches Effect::FetchDetail { .. } && cmd != UiCommand::OpenDetail
                ==> !old(self).detail_busy && !old(self).detail.loading,
            r is RunAction ==> false,
            cmd == UiCommand::Refresh ==> final(self).refresh_requested,
            cmd != UiCommand::Refresh ==> final(self).refresh_requested == old(
                self,
            ).refresh_requested,
            cmd == UiCommand::MoveDown && old(self).view_mode == ViewMode::List
                ==> final(self).list.selected_idx == if old(self).list.rows@.len() == 0 {
                old(self).list.selected_idx
            } else if old(self).list.selected_idx < old(self).list.rows@.len() - 1 {
                (old(self).list.selected_idx + 1) as usize
            } else {
                (old(self).list.rows@.len() - 1) as usize
            },
            cmd == UiCommand::MoveUp && old(self).view_mode == ViewMode::List
                ==> final(self).list.selected_idx == if old(self).list.selected_idx > 0 {
                (old(self).list.selected_idx - 1) as usize
            } else {
                0
            },
            cmd == UiCommand::BackToList ==> final(self).view_mode == ViewMode::List,
            cmd == UiCommand::OpenDetail && old(self).view_mode == ViewMode::List && selected_unit(
                old(self).list,
            ) is Some ==> final(self).view_mode == ViewMode::Detail && final(self).detail.unit
                == selected_unit(old(self).list)->0 && r is FetchDetail,
            final(self).list.rows == old(self).list.rows,
            final(self).action_busy == old(self).action_busy,
            final(self).confirmation == old(self).confirmation,
    {
        match cmd {
            UiCommand::Quit => Effect::Quit,
            UiCommand::Refresh => {
                self.refresh_requested = true;
                if self.view_mode == ViewMode::Detail {
                    self.refresh_detail()
                } else {
                    Effect::Nothing
                }
            },
            UiCommand::MoveDown => {
                match self.view_mode {
                    ViewMode::List => {
                        self.list.selected_idx = step_down(
                            self.list.selected_idx,
                            self.list.rows.len(),
                        );
                    },
                    ViewMode::Detail => {
                        self.detail.scroll = step_down(self.detail.scroll, self.detail.logs.len());
                    },
                }
                Effect::Nothing
            },
            UiCommand::MoveUp => {
                match self.view_mode {
                    ViewMode::List => {
                        self.list.selected_idx = step_up(self.list.selected_idx);
                    },
                    ViewMode::Detail => {
                        self.detail.scroll = step_up(self.detail.scroll);
                    },
                }
                Effect::Nothing
            },
            UiCommand::OpenDetail => {
                if self.view_mode != ViewMode::List || self.list.selected_idx
                    >= self.list.rows.len() {
                    return Effect::Nothing;
                }
                let unit = self.list.rows[self.list.selected_idx].unit.clone();
                let request_id = self.detail.begin_for_unit(unit.clone());
                self.detail_busy = true;
                self.view_mode = ViewMode::Detail;
                Effect::FetchDetail { unit, request_id }
            },
            UiCommand::BackToList => {
                self.view_mode = ViewMode::List;
                Effect::Nothing
            },
            UiCommand::RefreshDetail => {
                if self.view_mode == ViewMode::Detail {
                    self.refresh_detail()
                } else {
                    Effect::Nothing
                }
            },
            UiCommand::RequestStartStop | UiCommand::RequestEnableDisable => {
                if self.view_mode != ViewMode::List || self.action_busy || self.resolution_busy
                    || self.list.selected_idx >= self.list.rows.len() {
                    return Effect::Nothing;
                }
                let unit = self.list.rows[self.list.selected_idx].unit.clone();
                let n = self.list.rows.len();
                set_status_line(
                    &mut self.list.status_line,
                    &mut self.list.status_line_overrides_stale,
                    action_resolution_status_text(n, unit.as_str()),
                    true,
                );
                self.resolution_busy = true;
                let request = match cmd {
                    UiCommand::RequestStartStop => ActionResolutionRequest::StartStop { unit },
                    _ => ActionResolutionRequest::EnableDisable { unit },
                };
                Effect::Resolve(request)
            },
            _ => Effect::Nothing,
        }
    }

    fn refresh_detail(&mut self) -> (r: Effect)
        ensures
            r is Nothing || r is FetchDetail,
            r matches Effect::FetchDetail { unit, request_id } ==> final(self).detail_busy
                && final(self).detail.active_request_id == Some(request_id)
                && final(self).detail.unit == unit && final(self).detail.loading
                && !old(self).detail_busy && !old(self).detail.loading,
            r is Nothing ==> final(self).detail_busy == old(self).detail_busy,
            final(self).list == old(self).list,
            final(self).action_busy == old(self).action_busy,
            final(self).resolution_busy == old(self).resolution_busy,
            final(self).confirmation == old(self).confirmation,
            final(self).view_mode == old(self).view_mode,
            final(self).refresh_requested == old(self).refresh_requested,
    {
        if self.detail_busy || self.detail.loading {
            return Effect::Nothing;
        }
        match self.detail.refresh() {
            Some(request_id) => {
                self.detail_busy = true;
                Effect::FetchDetail { unit: self.detail.unit.clone(), request_id }
            },
            None => Effect::Nothing,
        }
    }
}

/// The action a prompt answer runs, if any.
pub open spec fn prompt_choice(c: ConfirmationState, cmd: UiCommand) -> Option<UnitAction> {
    if cmd == UiCommand::Confirm {
        match c.kind {
            ConfirmationKind::ConfirmAction(a) => Some(a),
            ConfirmationKind::RestartOrStop => None,
        }
    } else if cmd == UiCommand::ChooseRestart {
        Some(UnitAction::Restart)
    } else if cmd == UiCommand::ChooseStop {
        Some(UnitAction::Stop)
    } else {
        None
    }
}

} // verus!
