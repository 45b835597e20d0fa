//! Service-manager rules: filters, which action a unit's state offers, and
//! the argument lists of the service-manager queries.

use vstd::prelude::*;

use crate::cli::Config;
use crate::text::{str_eq, trim, trim_chars};
use crate::types::{
    action_verb, scope_flag, ActionResolutionRequest, ConfirmationKind, ConfirmationState, Scope,
    SystemctlUnit, UnitAction,
};

verus! {

/// A state value passes a filter value: `all` passes anything.
pub open spec fn passes(value: Seq<char>, wanted: Seq<char>) -> bool {
    wanted == "all"@ || value == wanted
}

/// Match one state value against a filter value.
pub fn filter_matches(value: &str, wanted: &str) -> (r: bool)
    ensures
        r == passes(value@, wanted@),
{
    str_eq(wanted, "all") || str_eq(value, wanted)
}

/// All three filters are the wildcard: the unrestricted view.
pub open spec fn full_all(cfg: Config) -> bool {
    cfg.load_filter@ == "all"@ && cfg.active_filter@ == "all"@ && cfg.sub_filter@ == "all"@
}

/// Whether every filter is `all`.
pub fn is_full_all(cfg: &Config) -> (r: bool)
    ensures
        r == full_all(*cfg),
{
    str_eq(cfg.load_filter.as_str(), "all") && str_eq(cfg.active_filter.as_str(), "all") && str_eq(
        cfg.sub_filter.as_str(),
        "all",
    )
}

/// The filters ask for more than the running units, which the cheaper
/// running-only query would return.
pub open spec fn needs_full_listing(cfg: Config) -> bool {
    !((cfg.load_filter@ == "all"@ || cfg.load_filter@ == "loaded"@) && cfg.active_filter@
        == "active"@ && cfg.sub_filter@ == "running"@)
}

/// Whether the full unit set must be listed rather than the running units.
pub fn should_fetch_all(cfg: &Config) -> (r: bool)
    ensures
        r == needs_full_listing(*cfg),
{
    !((str_eq(cfg.load_filter.as_str(), "all") || str_eq(cfg.load_filter.as_str(), "loaded"))
        && str_eq(cfg.active_filter.as_str(), "active") && str_eq(
        cfg.sub_filter.as_str(),
        "running",
    ))
}

/// A unit passes all three filters of `cfg`.
pub open spec fn unit_passes(u: SystemctlUnit, cfg: Config) -> bool {
    passes(u.load@, cfg.load_filter@) && passes(u.active@, cfg.active_filter@) && passes(
        u.sub@,
        cfg.sub_filter@,
    )
}

/// The units of `units` that pass the filters, in order.
pub open spec fn filtered(units: Seq<SystemctlUnit>, cfg: Config) -> Seq<SystemctlUnit> {
    units.filter(|u: SystemctlUnit| unit_passes(u, cfg))
}

/// Keep the units that pass the load, active and sub filters, in order.
pub fn filter_services(units: Vec<SystemctlUnit>, cfg: &Config) -> (r: Vec<SystemctlUnit>)
    ensures
        r@ == filtered(units@, *cfg),
{
    let mut out: Vec<SystemctlUnit> = Vec::new();
    let mut units = units;
    let ghost all = units@;
    let n = units.len();
    let mut rest: Vec<SystemctlUnit> = Vec::new();
    // Take units off the back, then restore their order.
    while units.len() > 0
        invariant
            units@ + rest@.reverse() == all,
            all.len() == n,
        decreases units@.len(),
    {
        let ghost before = units@;
        let u = units.pop().unwrap();
        proof {
            assert(units@.push(u) == before);
            assert(rest@.push(u).reverse() =~= seq![u] + rest@.reverse());
            assert(units@ + rest@.push(u).reverse() =~= before + rest@.reverse());
        }
        rest.push(u);
    }
    assert(rest@.reverse() =~= all);
    let ghost seen: Seq<SystemctlUnit> = Seq::empty();
    while rest.len() > 0
        invariant
            seen + rest@.reverse() == all,
            out@ == filtered(seen, *cfg),
        decreases rest@.len(),
    {
        let ghost before = rest@;
        let u = rest.pop().unwrap();
        proof {
            assert(rest@.push(u) == before);
            assert(before.reverse() =~= seq![u] + rest@.reverse());
            assert(seen.push(u) + rest@.reverse() =~= seen + before.reverse());
            assert(seen.push(u).drop_last() =~= seen);
        }
        let keep = filter_matches(u.load.as_str(), cfg.load_filter.as_str()) && filter_matches(
            u.active.as_str(),
            cfg.active_filter.as_str(),
        ) && filter_matches(u.sub.as_str(), cfg.sub_filter.as_str());
        if keep {
            out.push(u);
        }
        proof {
            reveal(Seq::filter);
            assert(filtered(seen.push(u), *cfg) == if unit_passes(u, *cfg) {
                filtered(seen, *cfg).push(u)
            } else {
                filtered(seen, *cfg)
            });
            seen = seen.push(u);
        }
    }
    assert(seen =~= all);
    out
}

/// Active states in which a unit counts as running.
pub open spec fn running_state(s: Seq<char>) -> bool {
    s == "active"@ || s == "activating"@ || s == "deactivating"@ || s == "reloading"@
}

/// The start/stop action for a unit's active state: stop while it runs.
pub fn action_for_active_state(active_state: &str) -> (r: UnitAction)
    ensures
        r == if running_state(active_state@) {
            UnitAction::Stop
        } else {
            UnitAction::Start
        },
{
    if str_eq(active_state, "active") || str_eq(active_state, "activating") || str_eq(
        active_state,
        "deactivating",
    ) || str_eq(active_state, "reloading") {
        UnitAction::Stop
    } else {
        UnitAction::Start
    }
}

/// Unit-file states in which a unit counts as enabled.
pub open spec fn enabled_state(s: Seq<char>) -> bool {
    s == "enabled"@ || s == "enabled-runtime"@ || s == "linked"@ || s == "linked-runtime"@
}

/// The message for a unit-file state that enable/disable does not apply to.
pub open spec fn unsupported_state_message(s: Seq<char>) -> Seq<char> {
    "unit file state '"@ + s + "' does not support enable/disable"@
}

/// The enable/disable action for a unit's file state: disable an enabled
/// unit, enable a disabled one; any other state is an error that names it.
pub fn action_for_unit_file_state(unit_file_state: &str) -> (r: Result<UnitAction, String>)
    ensures
        enabled_state(unit_file_state@) ==> r == Ok::<UnitAction, String>(UnitAction::Disable),
        !enabled_state(unit_file_state@) && unit_file_state@ == "disabled"@ ==> r == Ok::<
            UnitAction,
            String,
        >(UnitAction::Enable),
        !enabled_state(unit_file_state@) && unit_file_state@ != "disabled"@ ==> (r matches Err(m)
            && m@ == unsupported_state_message(unit_file_state@)),
{
    if str_eq(unit_file_state, "enabled") || str_eq(unit_file_state, "enabled-runtime") || str_eq(
        unit_file_state,
        "linked",
    ) || str_eq(unit_file_state, "linked-runtime") {
        Ok(UnitAction::Disable)
    } else if str_eq(unit_file_state, "disabled") {
        Ok(UnitAction::Enable)
    } else {
        let mut m = String::from_str("unit file state '");
        m.append(unit_file_state);
        m.append("' does not support enable/disable");
        Err(m)
    }
}

/// The unit property that decides which prompt a request gets.
pub open spec fn request_property(request: ActionResolutionRequest) -> Seq<char> {
    match request {
        ActionResolutionRequest::StartStop { .. } => "ActiveState"@,
        ActionResolutionRequest::EnableDisable { .. } => "UnitFileState"@,
    }
}

impl ActionResolutionRequest {
    /// The unit property to read for this request.
    pub fn property(&self) -> (r: &'static str)
        ensures
            r@ == request_property(*self),
    {
        match self {
            ActionResolutionRequest::StartStop { .. } => "ActiveState",
            ActionResolutionRequest::EnableDisable { .. } => "UnitFileState",
        }
    }
}

/// The start/stop action offered for a unit, from its active state as the
/// service manager printed it (surrounding white space is ignored).
pub fn select_start_stop_action(property_output: &str) -> (r: UnitAction)
    ensures
        r == if running_state(trim_chars(property_output@)) {
            UnitAction::Stop
        } else {
            UnitAction::Start
        },
{
    let value = trim(property_output);
    action_for_active_state(value.as_str())
}

/// The enable/disable action offered for a unit, from its unit-file state
/// as the service manager printed it (surrounding white space is ignored).
pub fn select_enable_disable_action(property_output: &str) -> (r: Result<UnitAction, String>)
    ensures
        enabled_state(trim_chars(property_output@)) ==> r == Ok::<UnitAction, String>(
            UnitAction::Disable,
        ),
        !enabled_state(trim_chars(property_output@)) && trim_chars(property_output@)
            == "disabled"@ ==> r == Ok::<UnitAction, String>(UnitAction::Enable),
        !enabled_state(trim_chars(property_output@)) && trim_chars(property_output@)
            != "disabled"@ ==> (r matches Err(m) && m@ == unsupported_state_message(
            trim_chars(property_output@),
        )),
{
    let value = trim(property_output);
    action_for_unit_file_state(value.as_str())
}

/// The prompt for a request, given the value of its property as the
/// service manager printed it (surrounding white space is ignored). A
/// running unit gets the restart-or-stop prompt; a unit-file state that
/// enable/disable does not apply to is an error.
pub fn resolve_action_confirmation(request: ActionResolutionRequest, property_output: &str) -> (r:
    Result<ConfirmationState, String>)
    ensures
        request is StartStop ==> (r matches Ok(c) && c.unit == request->StartStop_unit && c.kind
            == if running_state(trim_chars(property_output@)) {
            ConfirmationKind::RestartOrStop
        } else {
            ConfirmationKind::ConfirmAction(UnitAction::Start)
        }),
        request is EnableDisable && enabled_state(trim_chars(property_output@)) ==> (r matches Ok(c)
            && c.unit == request->EnableDisable_unit && c.kind == ConfirmationKind::ConfirmAction(
            UnitAction::Disable,
        )),
        request is EnableDisable && !enabled_state(trim_chars(property_output@)) && trim_chars(
            property_output@,
        ) == "disabled"@ ==> (r matches Ok(c)
            && c.unit == request->EnableDisable_unit && c.kind == ConfirmationKind::ConfirmAction(
            UnitAction::Enable,
        )),
        request is EnableDisable && !enabled_state(trim_chars(property_output@)) && trim_chars(
            property_output@,
        ) != "disabled"@ ==> (r matches Err(m) && m@ == unsupported_state_message(
            trim_chars(property_output@),
        )),
{
    match request {
        ActionResolutionRequest::StartStop { unit } => {
            let action = select_start_stop_action(property_output);
            match action {
                UnitAction::Stop => Ok(ConfirmationState::restart_or_stop(unit)),
                _ => Ok(ConfirmationState::confirm_action(action, unit)),
            }
        },
        ActionResolutionRequest::EnableDisable { unit } => {
            match select_enable_disable_action(property_output) {
                Ok(action) => Ok(ConfirmationState::confirm_action(action, unit)),
                Err(m) => Err(m),
            }
        },
    }
}

/// Views of a list of strings.
pub open spec fn views(v: Seq<String>) -> Seq<Seq<char>> {
    v.map_values(|s: String| s@)
}

/// Arguments that read one property of a unit.
pub fn show_property_args(scope: Scope, unit: &str, property: &str) -> (r: Vec<String>)
    ensures
        views(r@) == seq!["show"@, scope_flag(scope), "--property"@, property@, "--value"@, unit@],
{
    let mut v: Vec<String> = Vec::new();
    v.push(String::from_str("show"));
    v.push(String::from_str(scope.as_systemd_arg()));
    v.push(String::from_str("--property"));
    v.push(String::from_str(property));
    v.push(String::from_str("--value"));
    v.push(String::from_str(unit));
    assert(views(v@) =~= seq![
        "show"@,
        scope_flag(scope),
        "--property"@,
        property@,
        "--value"@,
        unit@,
    ]);
    v
}

/// Arguments that run `action` on a unit.
pub fn unit_action_args(scope: Scope, unit: &str, action: UnitAction) -> (r: Vec<String>)
    ensures
        views(r@) == seq![action_verb(action), scope_flag(scope), unit@],
{
    let mut v: Vec<String> = Vec::new();
    v.push(String::from_str(action.as_systemctl_arg()));
    v.push(String::from_str(scope.as_systemd_arg()));
    v.push(String::from_str(unit));
    assert(views(v@) =~= seq![action_verb(action), scope_flag(scope), unit@]);
    v
}

/// Arguments that list service units as JSON: all of them, or only the
/// running ones, which is cheaper.
pub fn list_units_args(scope: Scope, show_all: bool) -> (r: Vec<String>)
    ensures
        views(r@) == seq![
            "list-units"@,
            scope_flag(scope),
            "--no-pager"@,
            "--plain"@,
            "--type=service"@,
            "--output=json"@,
            if show_all {
                "--all"@
            } else {
                "--state=running"@
            },
        ],
{
    let mut v: Vec<String> = Vec::new();
    v.push(String::from_str("list-units"));
    v.push(String::from_str(scope.as_systemd_arg()));
    v.push(String::from_str("--no-pager"));
    v.push(String::from_str("--plain"));
    v.push(String::from_str("--type=service"));
    v.push(String::from_str("--output=json"));
    if show_all {
        v.push(String::from_str("--all"));
    } else {
        v.push(String::from_str("--state=running"));
    }
    assert(views(v@) =~= seq![
        "list-units"@,
        scope_flag(scope),
        "--no-pager"@,
        "--plain"@,
        "--type=service"@,
        "--output=json"@,
        if show_all {
            "--all"@
        } else {
            "--state=running"@
        },
    ]);
    v
}

} // verus!
