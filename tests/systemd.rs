use lsu::cli::Config;
use lsu::systemd::{
    action_for_active_state, action_for_unit_file_state, filter_matches, filter_services,
    is_full_all, list_units_args, resolve_action_confirmation, select_enable_disable_action,
    select_start_stop_action, should_fetch_all,
    show_property_args, unit_action_args,
};
use lsu::types::{
    ActionResolutionRequest, ConfirmationKind, ConfirmationState, Scope, SystemctlUnit, UnitAction,
};

fn config(load: &str, active: &str, sub: &str) -> Config {
    Config {
        load_filter: load.to_string(),
        active_filter: active.to_string(),
        sub_filter: sub.to_string(),
        refresh_secs: 0,
        show_help: false,
        show_version: false,
        debug_tui: false,
        scope: Scope::System,
    }
}

fn unit(name: &str, load: &str, active: &str, sub: &str) -> SystemctlUnit {
    SystemctlUnit {
        unit: name.to_string(),
        load: load.to_string(),
        active: active.to_string(),
        sub: sub.to_string(),
        description: String::new(),
    }
}

#[test]
fn systemd_filter_services_applies_all_filters() {
    let cfg = config("loaded", "active", "running");
    let units = vec![
        unit("a.service", "loaded", "active", "running"),
        unit("b.service", "loaded", "inactive", "dead"),
    ];
    let out = filter_services(units, &cfg);
    assert_eq!(out.len(), 1);
    assert_eq!(out[0].unit, "a.service");
}

#[test]
fn filter_services_with_wildcards_keeps_order() {
    let cfg = config("all", "all", "dead");
    let units = vec![
        unit("c.service", "masked", "inactive", "dead"),
        unit("a.service", "loaded", "active", "running"),
        unit("b.service", "loaded", "failed", "dead"),
    ];
    let out = filter_services(units, &cfg);
    let names: Vec<&str> = out.iter().map(|u| u.unit.as_str()).collect();
    assert_eq!(names, vec!["c.service", "b.service"]);
}

#[test]
fn systemd_filter_matches_supports_all_and_exact() {
    assert!(filter_matches("running", "all"));
    assert!(filter_matches("running", "running"));
    assert!(!filter_matches("running", "dead"));
}

#[test]
fn action_for_active_state_toggles_runningish_units_to_stop() {
    assert_eq!(action_for_active_state("active"), UnitAction::Stop);
    assert_eq!(action_for_active_state("reloading"), UnitAction::Stop);
    assert_eq!(action_for_active_state("failed"), UnitAction::Start);
    assert_eq!(action_for_active_state("inactive"), UnitAction::Start);
}

#[test]
fn action_for_unit_file_state_toggles_enabledish_units_to_disable() {
    assert_eq!(
        action_for_unit_file_state("enabled").expect("enabled action"),
        UnitAction::Disable
    );
    assert_eq!(
        action_for_unit_file_state("linked-runtime").expect("linked-runtime action"),
        UnitAction::Disable
    );
    assert_eq!(
        action_for_unit_file_state("disabled").expect("disabled action"),
        UnitAction::Enable
    );
}

#[test]
fn action_for_unit_file_state_rejects_unsupported_states() {
    for state in [
        "static",
        "masked",
        "generated",
        "transient",
        "indirect",
        "alias",
    ] {
        let err = action_for_unit_file_state(state).expect_err("unsupported state");
        assert!(err.contains(&format!(
            "unit file state '{state}' does not support enable/disable"
        )));
    }
}

#[test]
fn unit_file_state_static_error_names_the_state() {
    let err = action_for_unit_file_state("static").expect_err("static is unsupported");
    assert_eq!(err, "unit file state 'static' does not support enable/disable");
}

#[test]
fn systemd_is_full_all_only_true_when_all_three_filters_are_all() {
    let all_cfg = config("all", "all", "all");
    assert!(is_full_all(&all_cfg));
    let partial_cfg = Config {
        sub_filter: "running".to_string(),
        ..all_cfg
    };
    assert!(!is_full_all(&partial_cfg));
}

#[test]
fn systemd_should_fetch_all_only_false_for_default_running_filter_set() {
    let default_cfg = config("all", "active", "running");
    assert!(!should_fetch_all(&default_cfg));

    let loaded_default = Config {
        load_filter: "loaded".to_string(),
        ..default_cfg.clone()
    };
    assert!(!should_fetch_all(&loaded_default));

    let sub_all = Config {
        sub_filter: "all".to_string(),
        ..default_cfg.clone()
    };
    assert!(should_fetch_all(&sub_all));

    let sub_exited = Config {
        sub_filter: "exited".to_string(),
        ..default_cfg.clone()
    };
    assert!(should_fetch_all(&sub_exited));

    let active_inactive = Config {
        active_filter: "inactive".to_string(),
        ..default_cfg.clone()
    };
    assert!(should_fetch_all(&active_inactive));

    let load_not_found = Config {
        load_filter: "not-found".to_string(),
        ..default_cfg
    };
    assert!(should_fetch_all(&load_not_found));
}

#[test]
fn resolve_action_confirmation_offers_restart_or_stop_for_running_unit() {
    let request = ActionResolutionRequest::StartStop {
        unit: "demo.service".to_string(),
    };
    let confirmation = resolve_action_confirmation(request, "active\n").expect("prompt");
    assert_eq!(
        confirmation,
        ConfirmationState::restart_or_stop("demo.service".to_string())
    );

    let request = ActionResolutionRequest::StartStop {
        unit: "demo.service".to_string(),
    };
    let confirmation = resolve_action_confirmation(request, "inactive").expect("prompt");
    assert_eq!(
        confirmation.kind,
        ConfirmationKind::ConfirmAction(UnitAction::Start)
    );
}

#[test]
fn resolve_action_confirmation_enable_disable_and_error() {
    let request = ActionResolutionRequest::EnableDisable {
        unit: "demo.service".to_string(),
    };
    let confirmation = resolve_action_confirmation(request, " enabled \n").expect("prompt");
    assert_eq!(
        confirmation,
        ConfirmationState::confirm_action(UnitAction::Disable, "demo.service".to_string())
    );

    let request = ActionResolutionRequest::EnableDisable {
        unit: "demo.service".to_string(),
    };
    let err = resolve_action_confirmation(request, "static\n").expect_err("static");
    assert!(err.contains("unit file state 'static' does not support enable/disable"));
}

#[test]
fn request_property_names() {
    let start_stop = ActionResolutionRequest::StartStop {
        unit: "a.service".to_string(),
    };
    let enable_disable = ActionResolutionRequest::EnableDisable {
        unit: "a.service".to_string(),
    };
    assert_eq!(start_stop.property(), "ActiveState");
    assert_eq!(enable_disable.property(), "UnitFileState");
}

#[test]
fn systemctl_argument_lists() {
    assert_eq!(
        show_property_args(Scope::User, "a.service", "ActiveState"),
        vec!["show", "--user", "--property", "ActiveState", "--value", "a.service"]
    );
    assert_eq!(
        unit_action_args(Scope::System, "a.service", UnitAction::Restart),
        vec!["restart", "--system", "a.service"]
    );
    assert_eq!(
        list_units_args(Scope::System, true),
        vec![
            "list-units",
            "--system",
            "--no-pager",
            "--plain",
            "--type=service",
            "--output=json",
            "--all"
        ]
    );
    assert_eq!(
        list_units_args(Scope::User, false).last().map(String::as_str),
        Some("--state=running")
    );
}

#[test]
fn select_actions_from_property_output() {
    assert_eq!(select_start_stop_action("active\n"), UnitAction::Stop);
    assert_eq!(select_start_stop_action(" failed "), UnitAction::Start);
    assert_eq!(select_enable_disable_action("enabled\n"), Ok(UnitAction::Disable));
    assert_eq!(select_enable_disable_action("disabled"), Ok(UnitAction::Enable));
    assert_eq!(
        select_enable_disable_action("static\n"),
        Err("unit file state 'static' does not support enable/disable".to_string())
    );
}
