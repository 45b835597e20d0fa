use lsu::resolve::{
    canonical_trusted_candidate, canonical_trusted_roots, disallowed_binary_message,
    is_allowed_binary, is_path_under, missing_binary_message, select_trusted_candidate,
    trusted_dirs, CandidateProbe, RootProbe,
};

fn root(canonical: &str, secure: bool) -> RootProbe {
    RootProbe {
        canonical: Some(canonical.to_string()),
        secure,
    }
}

fn candidate(path: &str, canonical: &str) -> CandidateProbe {
    CandidateProbe {
        path: path.to_string(),
        is_file: true,
        is_executable: true,
        canonical: Some(canonical.to_string()),
    }
}

#[test]
fn only_two_programs_are_allowed() {
    assert!(is_allowed_binary("systemctl"));
    assert!(is_allowed_binary("journalctl"));
    assert!(!is_allowed_binary("sh"));
    assert!(disallowed_binary_message("sh").contains("is not in the allowed external command list"));
}

#[test]
fn trusted_dirs_are_the_system_directories() {
    assert_eq!(
        trusted_dirs(),
        vec!["/usr/bin", "/bin", "/usr/sbin", "/sbin", "/usr/local/bin"]
    );
}

#[test]
fn roots_keep_secure_resolved_directories_once() {
    let probes = vec![
        root("/usr/bin", true),
        root("/tmp/evil", false),
        RootProbe {
            canonical: None,
            secure: true,
        },
        root("/usr/bin", true),
        root("/opt/tools", true),
    ];
    assert_eq!(canonical_trusted_roots(&probes), vec!["/usr/bin", "/opt/tools"]);
}

#[test]
fn path_under_is_component_wise() {
    assert!(is_path_under("/usr/bin/systemctl", "/usr/bin"));
    assert!(is_path_under("/usr/bin", "/usr/bin"));
    assert!(is_path_under("/usr/bin/systemctl", "/"));
    assert!(!is_path_under("/usr/binx/systemctl", "/usr/bin"));
    assert!(!is_path_under("/usr", "/usr/bin"));
}

#[test]
fn candidate_in_world_writable_directory_is_rejected() {
    let roots = canonical_trusted_roots(&vec![root("/usr/bin", true), root("/tmp/ww", false)]);
    let candidates = vec![candidate("/tmp/ww/systemctl", "/tmp/ww/systemctl")];
    assert_eq!(select_trusted_candidate("systemctl", &candidates, &roots), None);
}

#[test]
fn symlink_to_program_of_another_name_is_rejected() {
    let roots = vec!["/usr/bin".to_string()];
    assert!(!canonical_trusted_candidate("/usr/bin/python", "systemctl", &roots));
    let candidates = vec![candidate("/home/u/bin/systemctl", "/usr/bin/python")];
    assert_eq!(select_trusted_candidate("systemctl", &candidates, &roots), None);
}

#[test]
fn first_acceptable_candidate_wins_and_is_canonical() {
    let roots = vec!["/usr/bin".to_string(), "/opt/sd".to_string()];
    let mut non_exec = candidate("/usr/local/bin/systemctl", "/usr/local/bin/systemctl");
    non_exec.is_executable = false;
    let candidates = vec![
        non_exec,
        candidate("/home/u/bin/systemctl", "/opt/sd/systemctl"),
        candidate("/usr/bin/systemctl", "/usr/bin/systemctl"),
    ];
    assert_eq!(
        select_trusted_candidate("systemctl", &candidates, &roots),
        Some("/opt/sd/systemctl".to_string())
    );
}

#[test]
fn missing_binary_messages_name_the_program() {
    assert_eq!(
        missing_binary_message("systemctl"),
        "no systemctl command found, do use systemd?"
    );
    assert_eq!(
        missing_binary_message("journalctl"),
        "no journalctl command found, do use systemd?"
    );
}
