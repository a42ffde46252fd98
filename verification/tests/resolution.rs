use sidecar_supervisor::emitter::log_topic;
use sidecar_supervisor::log_sink::{log_file_name, LogSink};
use sidecar_supervisor::path_resolver::{resolve_work_dir, Platform};
use sidecar_supervisor::supervisor::{build_spawn_spec, failure_line, SpawnError};

#[test]
fn per_user_platform_joins_home_and_convention() {
    let work_dir = resolve_work_dir(
        Platform::MacOs,
        &Some("/Users/u".to_string()),
        &Some("/opt/app".to_string()),
    );
    assert_eq!(work_dir, "/Users/u/Library/Application Support/com.sekiyo.skydrama");
}

#[test]
fn other_platforms_use_the_executable_directory() {
    let work_dir = resolve_work_dir(Platform::Other, &None, &Some("/opt/app".to_string()));
    assert_eq!(work_dir, "/opt/app");
}

#[test]
fn unknown_executable_directory_means_no_override() {
    let work_dir = resolve_work_dir(Platform::Other, &Some("/Users/u".to_string()), &None);
    assert_eq!(work_dir, "");
}

#[test]
fn undeterminable_home_means_no_override_and_spawn_proceeds() {
    // Home directory undeterminable on the per-user-data platform: the
    // working directory stays empty, nothing is injected, and the spawn
    // specification still names the sidecar (process-default environment).
    let work_dir = resolve_work_dir(Platform::MacOs, &None, &Some("/opt/app".to_string()));
    assert_eq!(work_dir, "");

    let spawn_spec = build_spawn_spec(Platform::MacOs, work_dir);
    assert_eq!(spawn_spec.program, "backend_api");
    assert_eq!(spawn_spec.working_directory, "");
    assert!(spawn_spec.environment.is_empty());
}

#[test]
fn library_path_is_injected_only_where_required() {
    let on_mac = build_spawn_spec(Platform::MacOs, "/w".to_string());
    assert_eq!(
        on_mac.environment,
        vec![
            ("APP_WORK_DIR".to_string(), "/w".to_string()),
            ("DYLD_LIBRARY_PATH".to_string(), "/w".to_string()),
        ],
    );

    let elsewhere = build_spawn_spec(Platform::Other, "/w".to_string());
    assert_eq!(elsewhere.environment, vec![("APP_WORK_DIR".to_string(), "/w".to_string())]);
}

#[test]
fn failure_lines_name_the_failure() {
    assert_eq!(
        failure_line(&SpawnError::NotFound),
        "Failed to create sidecar command: sidecar not found",
    );
    assert_eq!(
        failure_line(&SpawnError::LaunchFailed("no such file".to_string())),
        "Failed to spawn sidecar: no such file",
    );
}

#[test]
fn appending_twice_writes_two_separate_records() {
    // Same text twice: two identical records at two positions, never one
    // merged entry.
    let mut sink = LogSink::new();
    sink.append("same line".to_string());
    sink.append("same line".to_string());
    assert_eq!(sink.records.len(), 2);
    assert_eq!(sink.records[0], "same line");
    assert_eq!(sink.records[1], "same line");
}

#[test]
fn well_known_names_are_stable() {
    assert_eq!(log_file_name(), "_sidecar_debug.log");
    assert_eq!(log_topic(), "backend-log");
}
