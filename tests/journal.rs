use lsu::journal::{
    batch_line_budget, batch_query_args, detail_log_args, last_line_args,
    parse_journal_short_iso, parse_latest_logs_from_journal_json, parse_latest_logs_lines,
    BATCH_MAX_LINES, BATCH_MIN_LINES,
};
use lsu::types::Scope;

fn lookup<'a>(logs: &'a [(String, String)], unit: &str) -> Option<&'a str> {
    logs.iter()
        .find(|(u, _)| u == unit)
        .map(|(_, m)| m.as_str())
}

fn wanted(names: &[&str]) -> Vec<String> {
    names.iter().map(|n| n.to_string()).collect()
}

#[test]
fn journal_parses_latest_logs_per_unit_from_json_lines() {
    let output = r#"{"_SYSTEMD_UNIT":"a.service","MESSAGE":"newest a"}
{"_SYSTEMD_UNIT":"b.service","MESSAGE":"newest b"}
{"_SYSTEMD_UNIT":"a.service","MESSAGE":"older a"}"#;
    let wanted = wanted(&["a.service", "b.service"]);
    let logs = parse_latest_logs_from_journal_json(Scope::System, output, &wanted);
    assert_eq!(lookup(&logs, "a.service"), Some("newest a"));
    assert_eq!(lookup(&logs, "b.service"), Some("newest b"));
}

#[test]
fn journal_parses_latest_logs_ignores_invalid_lines_and_missing_fields() {
    let output = r#"not-json
{"_SYSTEMD_UNIT":"a.service"}
{"MESSAGE":"no unit"}
{"_SYSTEMD_UNIT":"a.service","MESSAGE":"ok"}"#;
    let wanted = wanted(&["a.service"]);
    let logs = parse_latest_logs_from_journal_json(Scope::System, output, &wanted);
    assert_eq!(lookup(&logs, "a.service"), Some("ok"));
}

#[test]
fn parse_latest_logs_skips_blank_and_non_string_messages() {
    let output = r#"{"_SYSTEMD_UNIT":"a.service","MESSAGE":"   "}
{"_SYSTEMD_UNIT":"a.service","MESSAGE":[104,105]}
{"_SYSTEMD_UNIT":"a.service","MESSAGE":"  padded  "}"#;
    let wanted = wanted(&["a.service"]);
    let logs = parse_latest_logs_from_journal_json(Scope::System, output, &wanted);
    assert_eq!(logs.len(), 1);
    assert_eq!(lookup(&logs, "a.service"), Some("padded"));
}

#[test]
fn journal_parse_journal_short_iso_extracts_time_and_message() {
    let out = "2026-02-24T10:00:00+0000 one log line\nraw-without-timestamp";
    let rows = parse_journal_short_iso(out);
    assert_eq!(rows.len(), 2);
    assert_eq!(rows[0].time, "2026-02-24T10:00:00+0000");
    assert_eq!(rows[0].log, "one log line");
    assert_eq!(rows[1].time, "");
    assert_eq!(rows[1].log, "raw-without-timestamp");
}

#[test]
fn parse_journal_short_iso_skips_blank_lines_and_trims() {
    let out = "\n   \n  t1   spaced text  \n";
    let rows = parse_journal_short_iso(out);
    assert_eq!(rows.len(), 1);
    assert_eq!(rows[0].time, "t1");
    assert_eq!(rows[0].log, "spaced text");
}

#[test]
fn batch_line_budget_caps_large_batches() {
    assert_eq!(batch_line_budget(10_000, 4), BATCH_MAX_LINES);
}

#[test]
fn batch_line_budget_scales_by_attempt() {
    let b0 = batch_line_budget(50, 0);
    let b1 = batch_line_budget(50, 1);
    let b2 = batch_line_budget(50, 2);
    assert!(b1 >= b0);
    assert!(b2 >= b1);
    assert!(b2 <= BATCH_MAX_LINES);
}

#[test]
fn batch_line_budget_uses_minimum_floor_for_small_inputs() {
    assert_eq!(batch_line_budget(1, 0), BATCH_MIN_LINES);
}

#[test]
fn batch_line_budget_caps_attempt_growth_after_min_limit() {
    let b10 = batch_line_budget(2, 10);
    let b99 = batch_line_budget(2, 99);
    assert_eq!(b10, b99);
    assert!(b99 <= BATCH_MAX_LINES);
}

#[test]
fn batch_line_budget_exact_values() {
    assert_eq!(batch_line_budget(1, 0), 200);
    assert_eq!(batch_line_budget(1, 1), 400);
    assert_eq!(batch_line_budget(12, 0), 240);
    assert_eq!(batch_line_budget(12, 2), 960);
    assert_eq!(batch_line_budget(50, 0), 1000);
    assert_eq!(batch_line_budget(50, 1), 2000);
    assert_eq!(batch_line_budget(50, 2), 4000);
    assert_eq!(batch_line_budget(0, 3), 1600);
    assert_eq!(batch_line_budget(usize::MAX, 0), 4000);
    assert_eq!(batch_line_budget(1, usize::MAX), 4000);
}

#[test]
fn parse_latest_logs_lines_respects_budget() {
    let output = r#"{"_SYSTEMD_UNIT":"a.service","MESSAGE":"a"}
{"_SYSTEMD_UNIT":"b.service","MESSAGE":"b"}
{"_SYSTEMD_UNIT":"c.service","MESSAGE":"c"}"#;
    let wanted = wanted(&["a.service", "b.service", "c.service"]);
    let lines: Vec<String> = output.lines().map(String::from).collect();
    let logs = parse_latest_logs_lines(Scope::System, &lines, &wanted, 2);
    assert_eq!(logs.len(), 2);
    assert!(lookup(&logs, "a.service").is_some());
    assert!(lookup(&logs, "b.service").is_some());
    assert!(lookup(&logs, "c.service").is_none());
}

#[test]
fn parse_latest_logs_uses_user_unit_field_in_user_scope() {
    let output = r#"{"_SYSTEMD_USER_UNIT":"x.service","MESSAGE":"x msg"}
{"_SYSTEMD_UNIT":"x.service","MESSAGE":"system msg"}"#;
    let wanted = wanted(&["x.service"]);
    let logs = parse_latest_logs_from_journal_json(Scope::User, output, &wanted);
    assert_eq!(lookup(&logs, "x.service"), Some("x msg"));
}

#[test]
fn parse_latest_logs_maps_manager_generated_system_unit_fields() {
    let output = r#"{"UNIT":"x.service","MESSAGE":"unit field"}
{"OBJECT_SYSTEMD_UNIT":"y.service","MESSAGE":"object field"}"#;
    let wanted = wanted(&["x.service", "y.service"]);
    let logs = parse_latest_logs_from_journal_json(Scope::System, output, &wanted);
    assert_eq!(lookup(&logs, "x.service"), Some("unit field"));
    assert_eq!(lookup(&logs, "y.service"), Some("object field"));
}

#[test]
fn parse_latest_logs_maps_manager_generated_user_unit_fields() {
    let output = r#"{"UNIT":"x.service","MESSAGE":"unit field"}
{"OBJECT_SYSTEMD_USER_UNIT":"y.service","MESSAGE":"object user field"}"#;
    let wanted = wanted(&["x.service", "y.service"]);
    let logs = parse_latest_logs_from_journal_json(Scope::User, output, &wanted);
    assert_eq!(lookup(&logs, "x.service"), Some("unit field"));
    assert_eq!(lookup(&logs, "y.service"), Some("object user field"));
}

#[test]
fn parse_latest_logs_maps_coredump_and_user_unit_fields() {
    let output = r#"{"COREDUMP_UNIT":"a.service","MESSAGE":"system coredump"}
{"COREDUMP_USER_UNIT":"b.service","MESSAGE":"user coredump"}
{"USER_UNIT":"c.service","MESSAGE":"user unit"}"#;
    let wanted = wanted(&["a.service", "b.service", "c.service"]);
    let system_logs = parse_latest_logs_from_journal_json(Scope::System, output, &wanted);
    assert_eq!(lookup(&system_logs, "a.service"), Some("system coredump"));
    assert_eq!(lookup(&system_logs, "b.service"), Some("user coredump"));
    assert_eq!(lookup(&system_logs, "c.service"), Some("user unit"));

    let user_logs = parse_latest_logs_from_journal_json(Scope::User, output, &wanted);
    assert_eq!(lookup(&user_logs, "a.service"), Some("system coredump"));
    assert_eq!(lookup(&user_logs, "b.service"), Some("user coredump"));
    assert_eq!(lookup(&user_logs, "c.service"), Some("user unit"));
}

#[test]
fn parse_latest_logs_prefers_scope_field_order() {
    let output = r#"{"UNIT":"b.service","_SYSTEMD_UNIT":"a.service","MESSAGE":"m"}"#;
    let both = wanted(&["a.service", "b.service"]);
    let system_logs = parse_latest_logs_from_journal_json(Scope::System, output, &both);
    assert_eq!(lookup(&system_logs, "a.service"), Some("m"));
    assert_eq!(lookup(&system_logs, "b.service"), None);
    let user_logs = parse_latest_logs_from_journal_json(Scope::User, output, &both);
    assert_eq!(lookup(&user_logs, "b.service"), Some("m"));
}

#[test]
fn journalctl_argument_lists() {
    assert_eq!(
        last_line_args(Scope::System, "a.service"),
        vec!["--system", "-u", "a.service", "-n", "1", "--no-pager", "-o", "cat"]
    );
    assert_eq!(
        detail_log_args(Scope::User, "a.service", 300),
        vec!["--user", "-u", "a.service", "-n", "300", "--no-pager", "-o", "short-iso", "-r"]
    );
    assert_eq!(
        batch_query_args(Scope::System, &wanted(&["a.service", "b.service"]), 240),
        vec![
            "--system", "--no-pager", "-o", "json", "-r", "-n", "240", "-u", "a.service", "-u",
            "b.service"
        ]
    );
}
