//! Footer and prompt texts of the list view.

use vstd::prelude::*;

use crate::text::{decimal, decimal_chars};
use crate::types::{
    action_participle, action_past, action_verb, ConfirmationKind, ConfirmationState, UnitAction,
};

verus! {

/// Label of the list view.
pub const MODE_LABEL: &'static str = "services";

/// The key help shown in the footer.
pub open spec fn controls() -> Seq<char> {
    "\u{2191}/\u{2193}: select | l/enter: inspect logs | s: start/restart/stop | e: enable/disable | r: refresh | q: quit"@
}

/// The key help shown in the footer.
pub fn list_controls_text() -> (r: &'static str)
    ensures
        r@ == controls(),
{
    "\u{2191}/\u{2193}: select | l/enter: inspect logs | s: start/restart/stop | e: enable/disable | r: refresh | q: quit"
}

/// `label: n | ` — how every list footer starts.
pub open spec fn footer_head(rows: usize) -> Seq<char> {
    MODE_LABEL@ + ": "@ + decimal_chars(rows as nat) + " | "@
}

fn head(rows: usize) -> (r: String)
    ensures
        r@ == footer_head(rows),
{
    let mut s = String::from_str(MODE_LABEL);
    s.append(": ");
    let n = decimal(rows);
    s.append(n.as_str());
    s.append(" | ");
    s
}

/// Footer of the list view.
pub open spec fn list_status(rows: usize, logs_progress: Option<(usize, usize)>) -> Seq<char> {
    match logs_progress {
        Some((done, total)) if done < total => footer_head(rows) + "logs: "@ + decimal_chars(
            done as nat,
        ) + "/"@ + decimal_chars(total as nat) + " | "@ + controls(),
        _ => footer_head(rows) + controls(),
    }
}

/// Footer while `action` runs on `unit`.
pub open spec fn running_status(rows: usize, action: UnitAction, unit: Seq<char>) -> Seq<char> {
    footer_head(rows) + action_participle(action) + " "@ + unit + "..."@
}

/// Footer after a failed refresh.
pub open spec fn stale_status(rows: usize) -> Seq<char> {
    footer_head(rows) + "refresh failed (stale data) | "@ + controls()
}

/// Footer after an action completed.
pub open spec fn complete_status(rows: usize, action: UnitAction, unit: Seq<char>) -> Seq<char> {
    footer_head(rows) + action_past(action) + " "@ + unit + " | "@ + controls()
}

/// Footer after an action failed.
pub open spec fn action_error_status(
    rows: usize,
    action: UnitAction,
    unit: Seq<char>,
    error: Seq<char>,
) -> Seq<char> {
    footer_head(rows) + "failed to "@ + action_verb(action) + " "@ + unit + ": "@ + error + " | "@
        + controls()
}

/// Footer after working out a prompt failed.
pub open spec fn resolution_error_status(rows: usize, unit: Seq<char>, error: Seq<char>) -> Seq<
    char,
> {
    footer_head(rows) + "failed to inspect "@ + unit + ": "@ + error + " | "@ + controls()
}

/// Footer of the list view: the row count, the log progress while some
/// rows still wait for their log line, and the key help.
pub fn list_status_text(rows: usize, logs_progress: Option<(usize, usize)>) -> (r: String)
    ensures
        r@ == list_status(rows, logs_progress),
{
    let mut s = head(rows);
    match logs_progress {
        Some((done, total)) => {
            if done < total {
                s.append("logs: ");
                let d = decimal(done);
                s.append(d.as_str());
                s.append("/");
                let t = decimal(total);
                s.append(t.as_str());
                s.append(" | ");
            }
        },
        None => {},
    }
    s.append(list_controls_text());
    s
}

/// Footer after a failed refresh: the rows shown are stale.
pub fn stale_status_text(rows: usize) -> (r: String)
    ensures
        r@ == stale_status(rows),
{
    let mut s = head(rows);
    s.append("refresh failed (stale data) | ");
    s.append(list_controls_text());
    s
}

/// Footer while the unit list is loading.
pub fn loading_units_status_text() -> (r: String)
    ensures
        r@ == MODE_LABEL@ + ": loading units... | "@ + controls(),
{
    let mut s = String::from_str(MODE_LABEL);
    s.append(": loading units... | ");
    s.append(list_controls_text());
    s
}

/// The participle a running action is described by.
pub open spec fn running_verb(c: ConfirmationState) -> Seq<char> {
    match c.kind {
        ConfirmationKind::ConfirmAction(a) => action_participle(a),
        ConfirmationKind::RestartOrStop => "running action for"@,
    }
}

/// Footer while an action runs.
pub fn action_status_text(rows: usize, confirmation: &ConfirmationState) -> (r: String)
    ensures
        r@ == footer_head(rows) + running_verb(*confirmation) + " "@ + confirmation.unit@ + "..."@,
{
    let verb = match confirmation.confirmed_action() {
        Some(action) => action.prompt_verb(),
        None => "running action for",
    };
    let mut s = head(rows);
    s.append(verb);
    s.append(" ");
    s.append(confirmation.unit.as_str());
    s.append("...");
    s
}

/// Footer while the prompt for a unit is being worked out.
pub fn action_resolution_status_text(rows: usize, unit: &str) -> (r: String)
    ensures
        r@ == footer_head(rows) + "resolving action for "@ + unit@ + "..."@,
{
    let mut s = head(rows);
    s.append("resolving action for ");
    s.append(unit);
    s.append("...");
    s
}

/// Footer after an action completed.
pub fn action_complete_status_text(rows: usize, action: UnitAction, unit: &str) -> (r: String)
    ensures
        r@ == complete_status(rows, action, unit@),
{
    let mut s = head(rows);
    s.append(action.past_tense());
    s.append(" ");
    s.append(unit);
    s.append(" | ");
    s.append(list_controls_text());
    s
}

/// Footer after an action failed.
pub fn action_error_status_text(rows: usize, action: UnitAction, unit: &str, error: &str) -> (r:
    String)
    ensures
        r@ == action_error_status(rows, action, unit@, error@),
{
    let mut s = head(rows);
    s.append("failed to ");
    s.append(action.as_systemctl_arg());
    s.append(" ");
    s.append(unit);
    s.append(": ");
    s.append(error);
    s.append(" | ");
    s.append(list_controls_text());
    s
}

/// Footer after working out the prompt for a unit failed.
pub fn action_resolution_error_status_text(rows: usize, unit: &str, error: &str) -> (r: String)
    ensures
        r@ == resolution_error_status(rows, unit@, error@),
{
    let mut s = head(rows);
    s.append("failed to inspect ");
    s.append(unit);
    s.append(": ");
    s.append(error);
    s.append(" | ");
    s.append(list_controls_text());
    s
}

/// The prompt shown before an action runs.
pub fn confirmation_prompt_text(confirmation: &ConfirmationState) -> (r: String)
    ensures
        r@ == match confirmation.kind {
            ConfirmationKind::ConfirmAction(a) => "confirm "@ + action_participle(a) + " of unit "@
                + confirmation.unit@ + " (y/n)"@,
            ConfirmationKind::RestartOrStop => "unit "@ + confirmation.unit@
                + " is running: (r) restart or (s) stop or (esc) cancel"@,
        },
{
    match confirmation.kind {
        ConfirmationKind::ConfirmAction(action) => {
            let mut s = String::from_str("confirm ");
            s.append(action.prompt_verb());
            s.append(" of unit ");
            s.append(confirmation.unit.as_str());
            s.append(" (y/n)");
            s
        },
        ConfirmationKind::RestartOrStop => {
            let mut s = String::from_str("unit ");
            s.append(confirmation.unit.as_str());
            s.append(" is running: (r) restart or (s) stop or (esc) cancel");
            s
        },
    }
}

} // verus!
