use lsu::cli::{parse_args, usage, version_text, ActiveFilter, Config, LoadFilter, SubFilter};
use lsu::types::Scope;

fn parse(words: &[&str]) -> Result<Config, String> {
    let args: Vec<String> = words.iter().map(|w| w.to_string()).collect();
    parse_args(&args)
}

#[test]
fn usage_mentions_help_flag() {
    assert!(usage().contains("--help"));
}

#[test]
fn usage_mentions_version_flag() {
    assert!(usage().contains("--version"));
    assert!(usage().contains("0.1.0"));
}

#[test]
fn version_text_contains_required_lines() {
    let v = version_text();
    assert!(v.contains("lsu v0.1.0"));
    assert!(v.contains("apache v2 (c) 2026 l5yth"));
}

#[test]
fn filter_values_round_trip() {
    for value in ["all", "loaded", "stub", "not-found", "bad-setting", "error", "merged", "masked"] {
        assert_eq!(LoadFilter::from_str(value).expect("load").as_str(), value);
    }
    for value in ["all", "active", "reloading", "inactive", "failed", "activating", "deactivating", "maintenance", "refreshing"] {
        assert_eq!(ActiveFilter::from_str(value).expect("active").as_str(), value);
    }
    for value in ["dead-before-auto-restart", "reload-post", "condition", "cleaning"] {
        assert_eq!(SubFilter::from_str(value).expect("sub").as_str(), value);
    }
}

#[test]
fn filter_values_reject_unknown_with_allowed_list() {
    let err = LoadFilter::from_str("bogus").expect_err("invalid load");
    assert!(err.contains("invalid --load value: bogus"));
    assert!(err.contains("allowed: all, loaded"));
    let err = ActiveFilter::from_str("bogus").expect_err("invalid active");
    assert!(err.contains("invalid --active value"));
    let err = SubFilter::from_str("bogus").expect_err("invalid sub");
    assert!(err.contains("invalid --sub value"));
}

#[test]
fn cli_parse_args_defaults() {
    let cfg = parse(&["lsu"]).expect("default args should parse");
    assert_eq!(cfg.load_filter, "loaded");
    assert_eq!(cfg.active_filter, "active");
    assert_eq!(cfg.sub_filter, "running");
    assert_eq!(cfg.refresh_secs, 0);
    assert!(!cfg.show_help);
    assert!(!cfg.show_version);
    assert_eq!(cfg.scope, Scope::System);
}

#[test]
fn cli_parse_args_all_and_refresh() {
    let cfg = parse(&["lsu", "--all", "--refresh", "5"]).expect("flags should parse");
    assert_eq!(cfg.load_filter, "all");
    assert_eq!(cfg.active_filter, "all");
    assert_eq!(cfg.sub_filter, "all");
    assert_eq!(cfg.refresh_secs, 5);
    assert!(!cfg.show_help);
    assert!(!cfg.show_version);
}

#[test]
fn cli_parse_args_individual_filters() {
    let cfg = parse(&["lsu", "--load", "not-found", "--active=inactive", "--sub", "dead"])
        .expect("filter args should parse");
    assert_eq!(cfg.load_filter, "not-found");
    assert_eq!(cfg.active_filter, "inactive");
    assert_eq!(cfg.sub_filter, "dead");
}

#[test]
fn cli_parse_args_help() {
    let cfg = parse(&["lsu", "-h"]).expect("help should parse");
    assert!(cfg.show_help);
}

#[test]
fn parse_args_version_flag() {
    let cfg = parse(&["lsu", "--version"]).expect("version should parse");
    assert!(cfg.show_version);

    let cfg = parse(&["lsu", "-v"]).expect("short version should parse");
    assert!(cfg.show_version);
}

#[test]
fn parse_args_user_scope() {
    let cfg = parse(&["lsu", "--user"]).expect("user should parse");
    assert_eq!(cfg.scope, Scope::User);
}

#[test]
fn cli_parse_args_rejects_unknown_arg() {
    let err = parse(&["lsu", "--bogus"]).expect_err("unknown arg should fail");
    assert!(err.contains("unknown argument"));
}

#[test]
fn cli_parse_args_rejects_missing_filter_values() {
    let err = parse(&["lsu", "--load"]).expect_err("missing --load value");
    assert!(err.contains("missing value for --load"));

    let err = parse(&["lsu", "--active"]).expect_err("missing --active value");
    assert!(err.contains("missing value for --active"));

    let err = parse(&["lsu", "--sub"]).expect_err("missing --sub value");
    assert!(err.contains("missing value for --sub"));
}

#[test]
fn parse_args_rejects_missing_refresh_values() {
    let err = parse(&["lsu", "--refresh"]).expect_err("missing --refresh value");
    assert!(err.contains("missing value for --refresh"));

    let err = parse(&["lsu", "-r"]).expect_err("missing -r value");
    assert!(err.contains("missing value for -r"));
}

#[test]
fn cli_parse_args_rejects_invalid_refresh_value() {
    let err = parse(&["lsu", "--refresh", "abc"]).expect_err("invalid refresh");
    assert!(err.contains("invalid refresh value"));
}

#[test]
fn cli_parse_args_allows_zero_refresh() {
    let cfg = parse(&["lsu", "-r", "0"]).expect("zero should be allowed");
    assert_eq!(cfg.refresh_secs, 0);
}

#[test]
fn parse_args_supports_equals_forms() {
    let cfg = parse(&["lsu", "--load=loaded", "--active=inactive", "--sub=dead", "--refresh=3"])
        .expect("equals forms should parse");
    assert_eq!(cfg.load_filter, "loaded");
    assert_eq!(cfg.active_filter, "inactive");
    assert_eq!(cfg.sub_filter, "dead");
    assert_eq!(cfg.refresh_secs, 3);
}

#[test]
fn parse_args_specific_filters_imply_all_for_omitted_ones() {
    let cfg = parse(&["lsu", "--sub", "dead"]).expect("sub filter should parse");
    assert_eq!(cfg.load_filter, "all");
    assert_eq!(cfg.active_filter, "all");
    assert_eq!(cfg.sub_filter, "dead");

    let cfg = parse(&["lsu", "--load", "loaded"]).expect("load filter should parse");
    assert_eq!(cfg.load_filter, "loaded");
    assert_eq!(cfg.active_filter, "all");
    assert_eq!(cfg.sub_filter, "all");
}

#[test]
fn parse_args_rejects_all_with_specific_filters() {
    let err = parse(&["lsu", "--all", "--load", "loaded"]).expect_err("must reject mixed all/specific");
    assert!(err.contains("--all cannot be combined"));
}

#[test]
fn parse_args_rejects_invalid_filter_values() {
    let err = parse(&["lsu", "--load", "bogus"]).expect_err("invalid load");
    assert!(err.contains("invalid --load value"));

    let err = parse(&["lsu", "--active", "bogus"]).expect_err("invalid active");
    assert!(err.contains("invalid --active value"));

    let err = parse(&["lsu", "--sub", "bogus"]).expect_err("invalid sub");
    assert!(err.contains("invalid --sub value"));
}

#[test]
fn parse_args_rejects_invalid_filter_values_in_equals_forms() {
    let err = parse(&["lsu", "--load=bogus"]).expect_err("invalid load");
    assert!(err.contains("invalid --load value"));

    let err = parse(&["lsu", "--active=bogus"]).expect_err("invalid active");
    assert!(err.contains("invalid --active value"));

    let err = parse(&["lsu", "--sub=bogus"]).expect_err("invalid sub");
    assert!(err.contains("invalid --sub value"));
}

#[test]
fn parse_args_rejects_invalid_refresh_value_in_equals_form() {
    let err = parse(&["lsu", "--refresh=abc"]).expect_err("invalid refresh");
    assert!(err.contains("invalid refresh value"));
}

#[test]
fn parse_args_accepts_stub_load_state() {
    let cfg = parse(&["lsu", "--load", "stub"]).expect("stub should parse");
    assert_eq!(cfg.load_filter, "stub");
    assert_eq!(cfg.active_filter, "all");
    assert_eq!(cfg.sub_filter, "all");
}

#[test]
fn parse_args_accepts_extended_service_substates() {
    let cfg = parse(&["lsu", "--sub", "condition"]).expect("condition should parse");
    assert_eq!(cfg.sub_filter, "condition");

    let cfg = parse(&["lsu", "--sub", "reload-post"]).expect("reload-post should parse");
    assert_eq!(cfg.sub_filter, "reload-post");

    let cfg = parse(&["lsu", "--sub", "dead-before-auto-restart"])
        .expect("dead-before-auto-restart should parse");
    assert_eq!(cfg.sub_filter, "dead-before-auto-restart");

    let cfg = parse(&["lsu", "--sub", "auto-restart-queued"]).expect("auto-restart-queued should parse");
    assert_eq!(cfg.sub_filter, "auto-restart-queued");
}

#[test]
fn parse_args_accepts_all_load_values() {
    for value in ["all", "loaded", "stub", "not-found", "bad-setting", "error", "merged", "masked"] {
        let cfg = parse(&["lsu", "--load", value]).expect("load should parse");
        assert_eq!(cfg.load_filter, value);
    }
}

#[test]
fn parse_args_accepts_all_active_values() {
    for value in [
        "all",
        "active",
        "reloading",
        "inactive",
        "failed",
        "activating",
        "deactivating",
        "maintenance",
        "refreshing",
    ] {
        let cfg = parse(&["lsu", "--active", value]).expect("active should parse");
        assert_eq!(cfg.active_filter, value);
    }
}

#[test]
fn parse_args_accepts_all_sub_values() {
    for value in [
        "all",
        "running",
        "exited",
        "dead",
        "failed",
        "start-pre",
        "start",
        "start-post",
        "auto-restart",
        "auto-restart-queued",
        "dead-before-auto-restart",
        "condition",
        "reload",
        "reload-post",
        "reload-signal",
        "reload-notify",
        "stop",
        "stop-watchdog",
        "stop-sigterm",
        "stop-sigkill",
        "stop-post",
        "final-sigterm",
        "final-sigkill",
        "final-watchdog",
        "cleaning",
    ] {
        let cfg = parse(&["lsu", "--sub", value]).expect("sub should parse");
        assert_eq!(cfg.sub_filter, value);
    }
}

#[test]
fn parse_args_rejects_all_mixed_with_equals_filters() {
    let err = parse(&["lsu", "--all", "--sub=running"]).expect_err("must reject mixed all/equal filter");
    assert!(err.contains("--all cannot be combined"));
}
