use lsu::types::{
    ActionResolutionRequest, ConfirmationKind, ConfirmationState, DetailLogEntry, DetailState,
    LoadPhase, Scope, UnitAction, ViewMode,
};

fn sample_log(text: &str) -> DetailLogEntry {
    DetailLogEntry {
        time: "t".to_string(),
        log: text.to_string(),
    }
}

#[test]
fn detail_state_begin_sets_loading_and_resets_scroll() {
    let mut state = DetailState::default();
    state.scroll = 7;
    let id = state.begin_for_unit("a.service".to_string());
    assert_eq!(id, 1);
    assert!(state.loading);
    assert_eq!(state.scroll, 0);
    assert_eq!(state.unit, "a.service");
}

#[test]
fn detail_state_ignores_stale_async_responses() {
    let mut state = DetailState::default();
    let id1 = state.begin_for_unit("a.service".to_string());
    let id2 = state.begin_for_unit("b.service".to_string());
    assert_ne!(id1, id2);
    assert!(!state.apply_loaded(id1, "a.service", vec![sample_log("old")]));
    assert!(state.apply_loaded(id2, "b.service", vec![sample_log("new")]));
    assert_eq!(state.logs.len(), 1);
    assert_eq!(state.logs[0].log, "new");
}

#[test]
fn detail_state_refresh_keeps_logs_and_updates_loading() {
    let mut state = DetailState::default();
    let first = state.begin_for_unit("a.service".to_string());
    assert!(state.apply_loaded(first, "a.service", vec![sample_log("x"), sample_log("y")]));
    state.scroll = 1;
    let refresh_id = state.refresh().expect("refresh id");
    assert!(state.loading);
    assert_eq!(state.scroll, 1);
    assert_eq!(state.logs.len(), 2);
    assert!(state.apply_loaded(refresh_id, "a.service", vec![sample_log("z")]));
    assert_eq!(state.scroll, 0);
    assert_eq!(state.logs[0].log, "z");
}

#[test]
fn detail_state_refresh_returns_none_without_unit() {
    let mut state = DetailState::default();
    assert!(state.refresh().is_none());
}

#[test]
fn detail_state_apply_error_sets_error_and_stops_loading() {
    let mut state = DetailState::default();
    let id = state.begin_for_unit("a.service".to_string());
    assert!(state.apply_error(id, "a.service", "boom".to_string()));
    assert!(!state.loading);
    assert_eq!(state.error.as_deref(), Some("boom"));
}

#[test]
fn detail_state_apply_error_ignores_mismatched_request() {
    let mut state = DetailState::default();
    let id = state.begin_for_unit("a.service".to_string());
    assert!(!state.apply_error(id + 1, "a.service", "boom".to_string()));
    assert!(!state.apply_error(id, "b.service", "boom".to_string()));
}

#[test]
fn detail_state_apply_loaded_empty_logs_resets_scroll() {
    let mut state = DetailState::default();
    let id = state.begin_for_unit("a.service".to_string());
    state.scroll = 10;
    assert!(state.apply_loaded(id, "a.service", Vec::new()));
    assert_eq!(state.scroll, 0);
    assert!(state.logs.is_empty());
}

#[test]
fn detail_state_switching_unit_clears_old_logs_immediately() {
    let mut state = DetailState::default();
    let id = state.begin_for_unit("a.service".to_string());
    assert!(state.apply_loaded(id, "a.service", vec![sample_log("old")]));
    assert_eq!(state.logs.len(), 1);
    let _ = state.begin_for_unit("b.service".to_string());
    assert!(state.logs.is_empty());
    assert_eq!(state.scroll, 0);
    assert!(state.loading);
}

#[test]
fn detail_state_drops_result_of_superseded_request() {
    let mut state = DetailState::default();
    assert_eq!(state.begin_for_unit("u1.service".to_string()), 1);
    assert_eq!(state.begin_for_unit("u2.service".to_string()), 2);
    assert!(!state.apply_loaded(1, "u1.service", vec![sample_log("stale")]));
    assert_eq!(state.unit, "u2.service");
    assert!(state.logs.is_empty());
    assert!(state.apply_loaded(2, "u2.service", vec![sample_log("fresh")]));
    assert_eq!(state.logs.len(), 1);
    assert_eq!(state.logs[0].log, "fresh");
    assert!(!state.loading);
}

#[test]
fn detail_state_clamps_scroll_into_new_logs() {
    let mut state = DetailState::default();
    let id = state.begin_for_unit("a.service".to_string());
    assert!(state.apply_loaded(id, "a.service", vec![sample_log("a"), sample_log("b"), sample_log("c")]));
    state.scroll = 2;
    let id = state.refresh().expect("refresh id");
    assert!(state.apply_loaded(id, "a.service", vec![sample_log("x"), sample_log("y")]));
    assert_eq!(state.scroll, 1);
}

#[test]
fn scope_maps_to_expected_systemd_args() {
    assert_eq!(Scope::System.as_systemd_arg(), "--system");
    assert_eq!(Scope::User.as_systemd_arg(), "--user");
}

#[test]
fn all_view_and_load_phase_variants_are_constructible() {
    let list_mode = ViewMode::List;
    let detail_mode = ViewMode::Detail;
    let idle = LoadPhase::Idle;
    let fetching_units = LoadPhase::FetchingUnits;
    let fetching_logs = LoadPhase::FetchingLogs;
    assert!(matches!(list_mode, ViewMode::List));
    assert!(matches!(detail_mode, ViewMode::Detail));
    assert!(matches!(idle, LoadPhase::Idle));
    assert!(matches!(fetching_units, LoadPhase::FetchingUnits));
    assert!(matches!(fetching_logs, LoadPhase::FetchingLogs));
}

#[test]
fn unit_action_labels_match_expected_systemctl_and_prompt_text() {
    assert_eq!(UnitAction::Start.as_systemctl_arg(), "start");
    assert_eq!(UnitAction::Restart.as_systemctl_arg(), "restart");
    assert_eq!(UnitAction::Stop.prompt_verb(), "stopping");
    assert_eq!(UnitAction::Enable.past_tense(), "enabled");
    assert_eq!(UnitAction::Disable.past_tense(), "disabled");
}

#[test]
fn confirmation_state_builders_capture_kind_and_unit() {
    let confirmation =
        ConfirmationState::confirm_action(UnitAction::Start, "demo.service".to_string());
    assert_eq!(
        confirmation.kind,
        ConfirmationKind::ConfirmAction(UnitAction::Start)
    );
    assert_eq!(confirmation.unit, "demo.service");

    let restart_or_stop = ConfirmationState::restart_or_stop("run.service".to_string());
    assert_eq!(restart_or_stop.kind, ConfirmationKind::RestartOrStop);
    assert_eq!(restart_or_stop.confirmed_action(), None);
}

#[test]
fn action_resolution_request_exposes_target_unit() {
    let start_stop = ActionResolutionRequest::StartStop {
        unit: "demo.service".to_string(),
    };
    assert_eq!(start_stop.unit(), "demo.service");

    let enable_disable = ActionResolutionRequest::EnableDisable {
        unit: "other.service".to_string(),
    };
    assert_eq!(enable_disable.unit(), "other.service");
}
