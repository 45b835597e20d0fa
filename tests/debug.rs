use lsu::debug::{
    build_debug_rows, build_detail_logs, debug_enable_disable_action, debug_preview,
    debug_unit_name, debug_unit_templates, next_random, resolve_debug_action_confirmation,
    shuffle, template_for_unit, MAX_DEBUG_UNITS,
};
use lsu::rows::{active_rank, load_rank, sort_rows, sub_rank};
use lsu::types::{ActionResolutionRequest, ConfirmationState, StatusClass, UnitAction};

#[test]
fn debug_enable_disable_action_reaches_disable_and_enable_branches() {
    let active_template = template_for_unit("debug-api-gateway.service").expect("template");
    assert_eq!(
        debug_enable_disable_action(active_template),
        UnitAction::Disable
    );

    let inactive_template = template_for_unit("debug-cold-storage.service").expect("template");
    assert_eq!(
        debug_enable_disable_action(inactive_template),
        UnitAction::Enable
    );
}

#[test]
fn debug_resolution_uses_synthetic_state() {
    let confirmation = resolve_debug_action_confirmation(ActionResolutionRequest::StartStop {
        unit: "debug-api-gateway.service".to_string(),
    })
    .expect("prompt");
    assert_eq!(
        confirmation,
        ConfirmationState::restart_or_stop("debug-api-gateway.service".to_string())
    );

    let confirmation = resolve_debug_action_confirmation(ActionResolutionRequest::EnableDisable {
        unit: "debug-api-gateway.service".to_string(),
    })
    .expect("prompt");
    assert_eq!(
        confirmation,
        ConfirmationState::confirm_action(
            UnitAction::Disable,
            "debug-api-gateway.service".to_string()
        )
    );
}

#[test]
fn debug_resolution_rejects_unknown_and_fileless_units() {
    let err = resolve_debug_action_confirmation(ActionResolutionRequest::StartStop {
        unit: "nope.service".to_string(),
    })
    .expect_err("unknown");
    assert_eq!(err, "unknown debug unit");

    let err = resolve_debug_action_confirmation(ActionResolutionRequest::EnableDisable {
        unit: "debug-edge-proxy.service".to_string(),
    })
    .expect_err("masked");
    assert_eq!(err, "unit file state 'masked' does not support enable/disable");
}

#[test]
fn debug_unit_names_are_distinct() {
    let templates = debug_unit_templates();
    let names: Vec<String> = templates.iter().map(|t| debug_unit_name(*t)).collect();
    for (i, a) in names.iter().enumerate() {
        for b in names.iter().skip(i + 1) {
            assert_ne!(a, b);
        }
    }
    assert_eq!(names[0], "debug-api-gateway.service");
}

#[test]
fn next_random_follows_the_generator() {
    let mut state = 1u64;
    let r = next_random(&mut state);
    assert_eq!(r, 6364136223846793005u64.wrapping_add(1442695040888963407));
    assert_eq!(state, r);
}

#[test]
fn shuffle_keeps_every_template() {
    let mut templates = debug_unit_templates();
    let mut state = 42u64;
    shuffle(&mut templates, &mut state);
    let mut names: Vec<String> = templates.iter().map(|t| debug_unit_name(*t)).collect();
    names.sort();
    let mut expected: Vec<String> = debug_unit_templates()
        .iter()
        .map(|t| debug_unit_name(*t))
        .collect();
    expected.sort();
    assert_eq!(names, expected);
}

#[test]
fn build_debug_rows_stays_within_limit_and_covers_color_buckets() {
    let rows = build_debug_rows(7);
    assert!(!rows.is_empty());
    assert!(rows.len() <= MAX_DEBUG_UNITS);
    for class in [
        StatusClass::Healthy,
        StatusClass::Caution,
        StatusClass::Dimmed,
        StatusClass::Alert,
        StatusClass::Info,
    ] {
        assert!(rows.iter().any(|row| row.status == class));
    }
}

#[test]
fn build_debug_rows_uses_distinct_unit_names() {
    let rows = build_debug_rows(99);
    let mut names: Vec<String> = rows.iter().map(|row| row.unit.clone()).collect();
    names.sort();
    names.dedup();
    assert_eq!(names.len(), rows.len());
}

#[test]
fn debug_rows_use_normal_all_mode_sorting_after_generation() {
    let mut rows = build_debug_rows(12345);
    sort_rows(&mut rows, true);
    for pair in rows.windows(2) {
        let left = &pair[0];
        let right = &pair[1];
        let left_key = (
            load_rank(&left.load),
            active_rank(&left.active),
            sub_rank(&left.sub),
            left.unit.as_str(),
        );
        let right_key = (
            load_rank(&right.load),
            active_rank(&right.active),
            sub_rank(&right.sub),
            right.unit.as_str(),
        );
        assert!(left_key <= right_key);
    }
}

#[test]
fn build_detail_logs_emits_valid_times() {
    let logs = build_detail_logs("debug-api-gateway.service");
    assert!(!logs.is_empty());
    assert_eq!(logs.len(), 12);
    assert!(logs[0].log.contains("load="));
    for entry in logs {
        let parts: Vec<&str> = entry.time.split([' ', ':']).collect();
        assert_eq!(parts.len(), 4);
        let hour: u32 = parts[1].parse().expect("hour");
        let minute: u32 = parts[2].parse().expect("minute");
        let second: u32 = parts[3].parse().expect("second");
        assert_eq!(hour, 12);
        assert!(minute < 60);
        assert!(second < 60);
    }
}

#[test]
fn debug_preview_numbers_rows_from_one() {
    let rows = build_debug_rows(3);
    let row = rows
        .iter()
        .find(|r| r.unit == "debug-api-gateway.service")
        .expect("gateway row");
    let preview = debug_preview(row, 0);
    assert!(preview.starts_with("#01 Accepted synthetic health probe from 10.0.0.17 | loaded / active / running"));
    assert!(debug_preview(row, 11).starts_with("#12 "));
}
