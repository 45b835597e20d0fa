use lsu::cli::Config;
use lsu::refresh::{log_groups, prepare_rows};
use lsu::types::{Scope, StatusClass, SystemctlUnit, UnitRow};

fn unit(name: &str, active: &str, sub: &str) -> SystemctlUnit {
    SystemctlUnit {
        unit: name.to_string(),
        load: "loaded".to_string(),
        active: active.to_string(),
        sub: sub.to_string(),
        description: String::new(),
    }
}

fn all_config() -> Config {
    Config {
        load_filter: "all".to_string(),
        active_filter: "all".to_string(),
        sub_filter: "all".to_string(),
        refresh_secs: 0,
        show_help: false,
        show_version: false,
        debug_tui: false,
        scope: Scope::System,
    }
}

#[test]
fn prepare_rows_filters_seeds_and_sorts() {
    let units = vec![
        unit("b.service", "inactive", "dead"),
        unit("a.service", "active", "running"),
    ];
    let previous = vec![UnitRow {
        dot: '.',
        status: StatusClass::Dimmed,
        unit: "b.service".to_string(),
        load: "loaded".to_string(),
        active: "inactive".to_string(),
        sub: "dead".to_string(),
        description: String::new(),
        last_log: "kept".to_string(),
    }];
    let rows = prepare_rows(units, &all_config(), &previous);
    assert_eq!(rows.len(), 2);
    assert_eq!(rows[0].unit, "a.service");
    assert_eq!(rows[0].status, StatusClass::Healthy);
    assert_eq!(rows[1].unit, "b.service");
    assert_eq!(rows[1].last_log, "kept");
}

#[test]
fn log_groups_are_twelve_units_each() {
    let units: Vec<SystemctlUnit> = (0..25)
        .map(|i| unit(&format!("u{i:02}.service"), "active", "running"))
        .collect();
    let rows = prepare_rows(units, &all_config(), &[]);
    let groups = log_groups(&rows);
    assert_eq!(groups.len(), 3);
    assert_eq!(groups[0].0, 12);
    assert_eq!(groups[1].0, 24);
    assert_eq!(groups[2].0, 25);
    assert_eq!(groups[2].1, vec!["u24.service".to_string()]);
    assert!(log_groups(&Vec::new()).is_empty());
}
