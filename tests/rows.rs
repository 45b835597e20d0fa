use lsu::rows::{
    active_rank, build_rows, load_rank, preserve_selection, seed_logs_from_previous, sort_rows,
    status_dot, sub_rank,
};
use lsu::types::{StatusClass, SystemctlUnit, UnitRow};

fn row(unit: &str, load: &str, active: &str, sub: &str, last_log: &str) -> UnitRow {
    UnitRow {
        dot: '\u{25cf}',
        status: StatusClass::Info,
        unit: unit.to_string(),
        load: load.to_string(),
        active: active.to_string(),
        sub: sub.to_string(),
        description: String::new(),
        last_log: last_log.to_string(),
    }
}

fn running(unit: &str) -> UnitRow {
    row(unit, "loaded", "active", "running", "")
}

#[test]
fn rows_status_dot_maps_expected_colors() {
    let (dot, class) = status_dot("active", "running");
    assert_eq!(dot, '\u{25cf}');
    assert_eq!(class, StatusClass::Healthy);

    let (dot, class) = status_dot("failed", "dead");
    assert_eq!(dot, '\u{25cf}');
    assert_eq!(class, StatusClass::Alert);

    let (dot, class) = status_dot("inactive", "dead");
    assert_eq!(dot, '\u{25cf}');
    assert_eq!(class, StatusClass::Dimmed);

    let (_, class) = status_dot("active", "exited");
    assert_eq!(class, StatusClass::Caution);

    let (_, class) = status_dot("reloading", "foo");
    assert_eq!(class, StatusClass::Info);
}

#[test]
fn status_dot_classifies_unknown_strings() {
    assert_eq!(status_dot("", "").1, StatusClass::Info);
    assert_eq!(status_dot("ACTIVE", "running").1, StatusClass::Info);
    assert_eq!(status_dot("inactive", "running").1, StatusClass::Dimmed);
    assert_eq!(status_dot("failed", "").1, StatusClass::Alert);
    assert_eq!(status_dot("active", "").1, StatusClass::Caution);
}

#[test]
fn rows_ranks_for_all_sort_order_match_spec() {
    assert!(load_rank("loaded") < load_rank("not-found"));
    assert!(load_rank("not-found") < load_rank("masked"));

    assert!(active_rank("active") < active_rank("inactive"));
    assert!(active_rank("inactive") < active_rank("failed"));

    assert!(sub_rank("running") < sub_rank("exited"));
    assert!(sub_rank("exited") < sub_rank("dead"));
    assert!(sub_rank("dead") < sub_rank("auto-restart"));
}

#[test]
fn ranks_have_exact_values() {
    assert_eq!(load_rank("loaded"), 0);
    assert_eq!(load_rank("not-found"), 1);
    assert_eq!(load_rank("masked"), 2);
    assert_eq!(active_rank("failed"), 2);
    assert_eq!(sub_rank("dead"), 2);
    assert_eq!(sub_rank("other"), 3);
}

#[test]
fn rows_sort_rows_all_mode_respects_priority_order() {
    let mut rows = vec![
        row("z.service", "not-found", "inactive", "dead", ""),
        row("a.service", "loaded", "active", "running", ""),
        row("m.service", "masked", "failed", "auto-restart", ""),
    ];
    sort_rows(&mut rows, true);
    assert_eq!(rows[0].unit, "a.service");
    assert_eq!(rows[1].unit, "z.service");
    assert_eq!(rows[2].unit, "m.service");
}

#[test]
fn rows_sort_rows_running_mode_sorts_by_unit_name_only() {
    let mut rows = vec![
        row("z.service", "loaded", "active", "running", ""),
        row("a.service", "not-found", "failed", "dead", ""),
    ];
    sort_rows(&mut rows, false);
    assert_eq!(rows[0].unit, "a.service");
    assert_eq!(rows[1].unit, "z.service");
}

#[test]
fn sort_rows_breaks_rank_ties_by_name_and_is_idempotent() {
    let mut rows = vec![
        row("b.service", "loaded", "inactive", "dead", ""),
        row("c.service", "loaded", "active", "running", ""),
        row("a.service", "loaded", "inactive", "dead", ""),
        row("ab.service", "loaded", "inactive", "dead", ""),
    ];
    sort_rows(&mut rows, true);
    let once: Vec<String> = rows.iter().map(|r| r.unit.clone()).collect();
    assert_eq!(once, vec!["c.service", "a.service", "ab.service", "b.service"]);
    sort_rows(&mut rows, true);
    let twice: Vec<String> = rows.iter().map(|r| r.unit.clone()).collect();
    assert_eq!(once, twice);
}

#[test]
fn sort_rows_is_stable_for_equal_keys() {
    let mut rows = vec![
        row("same.service", "loaded", "active", "running", "first"),
        row("other.service", "loaded", "active", "running", ""),
        row("same.service", "loaded", "active", "running", "second"),
    ];
    sort_rows(&mut rows, false);
    assert_eq!(rows[0].unit, "other.service");
    assert_eq!(rows[1].last_log, "first");
    assert_eq!(rows[2].last_log, "second");
}

#[test]
fn build_rows_keeps_fields_and_classifies() {
    let units = vec![SystemctlUnit {
        unit: "a.service".to_string(),
        load: "loaded".to_string(),
        active: "failed".to_string(),
        sub: "failed".to_string(),
        description: "A".to_string(),
    }];
    let rows = build_rows(units);
    assert_eq!(rows.len(), 1);
    assert_eq!(rows[0].unit, "a.service");
    assert_eq!(rows[0].description, "A");
    assert_eq!(rows[0].status, StatusClass::Alert);
    assert_eq!(rows[0].last_log, "");
}

#[test]
fn rows_seed_logs_from_previous_preserves_known_logs_by_unit() {
    let previous = vec![row("a.service", "loaded", "active", "running", "old message")];
    let mut new_rows = vec![running("a.service"), running("b.service")];
    seed_logs_from_previous(&mut new_rows, &previous);
    assert_eq!(new_rows[0].last_log, "old message");
    assert_eq!(new_rows[1].last_log, "");
}

#[test]
fn seed_logs_carries_over_by_name_across_reshaped_sets() {
    let previous = vec![
        row("u1.service", "loaded", "active", "running", "A"),
        row("u2.service", "loaded", "active", "running", "B"),
    ];
    let mut new_rows = vec![running("u2.service"), running("u3.service")];
    seed_logs_from_previous(&mut new_rows, &previous);
    assert_eq!(new_rows[0].last_log, "B");
    assert_eq!(new_rows[1].last_log, "");
}

#[test]
fn rows_preserve_selection_keeps_same_unit_after_reorder() {
    let rows = vec![running("a.service"), running("b.service")];
    let mut idx = 0;
    preserve_selection(Some("b.service".to_string()), &rows, &mut idx);
    assert_eq!(idx, 1);
}

#[test]
fn preserve_selection_follows_unit_to_new_index() {
    let rows = vec![running("b.service"), running("c.service")];
    let mut idx = 1;
    preserve_selection(Some("b.service".to_string()), &rows, &mut idx);
    assert_eq!(idx, 0);
}

#[test]
fn preserve_selection_handles_empty_rows() {
    let mut idx = 5;
    preserve_selection(Some("b.service".to_string()), &[], &mut idx);
    assert_eq!(idx, 0);
}

#[test]
fn preserve_selection_clamps_out_of_range_index() {
    let rows = vec![running("only.service")];
    let mut idx = 9;
    preserve_selection(None, &rows, &mut idx);
    assert_eq!(idx, 0);
}

#[test]
fn preserve_selection_keeps_index_of_vanished_unit_in_range() {
    let rows = vec![running("x.service"), running("y.service"), running("z.service")];
    let mut idx = 1;
    preserve_selection(Some("gone.service".to_string()), &rows, &mut idx);
    assert_eq!(idx, 1);
}
