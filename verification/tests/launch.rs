use backend_supervisor::launch::{
    backend_args, backend_location, child_environment, data_subdir, database_location,
    database_url, database_variable, is_session_marker, log_file_name, sanitize_environment,
    session_markers, spawn_plan, SpawnPlan,
};

fn pair(name: &str, value: &str) -> (String, String) {
    (name.to_string(), value.to_string())
}

#[test]
fn arguments_of_the_backend() {
    assert_eq!(backend_args(), vec!["--host", "127.0.0.1", "--port", "8000"]);
}

#[test]
fn locations_and_names() {
    assert_eq!(backend_location(), vec!["resources", "teletraan-backend", "teletraan-backend"]);
    assert_eq!(data_subdir(), "data");
    assert_eq!(database_location(), vec!["data", "market-analyzer.db"]);
    assert_eq!(log_file_name(), "backend.log");
    assert_eq!(database_variable(), "DATABASE_URL");
}

#[test]
fn connection_string() {
    assert_eq!(
        database_url("/home/u/.local/share/app/data/market-analyzer.db"),
        "sqlite+aiosqlite:////home/u/.local/share/app/data/market-analyzer.db"
    );
    assert_eq!(database_url(""), "sqlite+aiosqlite:///");
}

#[test]
fn session_marker_names() {
    assert_eq!(session_markers(), vec!["CLAUDECODE", "CLAUDE_CODE_ENTRYPOINT"]);
    assert!(is_session_marker("CLAUDECODE"));
    assert!(is_session_marker("CLAUDE_CODE_ENTRYPOINT"));
    assert!(!is_session_marker("claudecode"));
    assert!(!is_session_marker("CLAUDECODE "));
    assert!(!is_session_marker("CLAUDE_CODE"));
    assert!(!is_session_marker("PATH"));
    assert!(!is_session_marker(""));
}

#[test]
fn sanitize_strips_the_markers_and_nothing_else() {
    let ambient = vec![
        pair("PATH", "/usr/bin"),
        pair("CLAUDECODE", "1"),
        pair("HOME", "/home/u"),
        pair("CLAUDE_CODE_ENTRYPOINT", "cli"),
        pair("DATABASE_URL", "postgres://elsewhere"),
        pair("CLAUDECODE", "again"),
        pair("LANG", "C"),
    ];
    assert_eq!(
        sanitize_environment(&ambient),
        vec![
            pair("PATH", "/usr/bin"),
            pair("HOME", "/home/u"),
            pair("DATABASE_URL", "postgres://elsewhere"),
            pair("LANG", "C"),
        ]
    );
}

#[test]
fn sanitize_of_a_clean_environment_changes_nothing() {
    let ambient = vec![pair("PATH", "/usr/bin"), pair("HOME", "/home/u")];
    assert_eq!(sanitize_environment(&ambient), ambient);
    assert_eq!(sanitize_environment(&Vec::new()), Vec::new());
    let once = sanitize_environment(&vec![pair("CLAUDECODE", "1"), pair("A", "b")]);
    assert_eq!(sanitize_environment(&once), once);
}

#[test]
fn child_environment_sets_the_connection_string() {
    let ambient = vec![
        pair("DATABASE_URL", "postgres://elsewhere"),
        pair("CLAUDECODE", "1"),
        pair("PATH", "/usr/bin"),
    ];
    assert_eq!(
        child_environment(&ambient, "sqlite+aiosqlite:///db"),
        vec![pair("PATH", "/usr/bin"), pair("DATABASE_URL", "sqlite+aiosqlite:///db")]
    );
    assert_eq!(
        child_environment(&Vec::new(), "u"),
        vec![pair("DATABASE_URL", "u")]
    );
}

#[test]
fn plan_for_spawning() {
    let plan = spawn_plan(
        "/res/resources/teletraan-backend/teletraan-backend".to_string(),
        "/data/app".to_string(),
        "/data/app/data/market-analyzer.db",
    );
    assert_eq!(
        plan,
        SpawnPlan {
            program: "/res/resources/teletraan-backend/teletraan-backend".to_string(),
            args: vec![
                "--host".to_string(),
                "127.0.0.1".to_string(),
                "--port".to_string(),
                "8000".to_string(),
            ],
            working_dir: "/data/app".to_string(),
            env_set: vec![pair(
                "DATABASE_URL",
                "sqlite+aiosqlite:////data/app/data/market-analyzer.db"
            )],
            env_remove: vec!["CLAUDECODE".to_string(), "CLAUDE_CODE_ENTRYPOINT".to_string()],
        }
    );
}
