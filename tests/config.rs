use dxrun::config::{
    command_dir, config_dir_from_root, get_config_dir, join_path, list_lines, manifest_path,
};
use dxrun::error::DxError;
use dxrun::plan::{build_argv, publishes_ports, run_argv, text_contains};

fn strings(xs: &[&str]) -> Vec<String> {
    xs.iter().map(|x| x.to_string()).collect()
}

#[test]
fn list_mode_lines() {
    let lines = list_lines(&strings(&["a", "b", "c"]));
    assert_eq!(lines.join("\n") + "\n", "Available Options:\n- a\n- b\n- c\n");
}

#[test]
fn list_mode_with_no_entries_prints_the_banner() {
    assert_eq!(list_lines(&Vec::new()), strings(&["Available Options:"]));
}

#[test]
fn config_dir_under_root() {
    assert_eq!(config_dir_from_root(Some(Some("/home/u/.config".to_string()))), Ok("/home/u/.config/dxrun".to_string()));
    assert_eq!(config_dir_from_root(Some(Some("/home/u/.config/".to_string()))), Ok("/home/u/.config/dxrun".to_string()));
}

#[test]
fn no_config_root_is_config_missing() {
    assert_eq!(config_dir_from_root(None), Err(DxError::ConfigMissing));
}

#[test]
fn config_root_that_is_not_text_is_config_unreadable() {
    assert_eq!(config_dir_from_root(Some(None)), Err(DxError::ConfigUnreadable));
}

#[test]
fn reported_config_dir_ends_in_app_name() {
    match get_config_dir() {
        Ok(p) => assert!(p.ends_with("/dxrun"), "{}", p),
        Err(e) => assert!(e == DxError::ConfigMissing || e == DxError::ConfigUnreadable),
    }
}

#[test]
fn paths_join_with_one_separator() {
    assert_eq!(join_path("/a", "b"), "/a/b");
    assert_eq!(join_path("/a/", "b"), "/a/b");
    assert_eq!(join_path("", "b"), "/b");
    assert_eq!(command_dir("/home/u/.config/app/", "hello"), "/home/u/.config/app/hello");
    assert_eq!(manifest_path("/x/hello"), "/x/hello/docker-compose.yml");
}

#[test]
fn ports_heuristic_is_a_substring_test() {
    assert!(publishes_ports("services:\n  web:\n    ports:\n"));
    assert!(publishes_ports("# ports: commented out"));
    assert!(!publishes_ports("services:\n  web:\n    port: 80\n"));
    assert!(!publishes_ports(""));
    assert!(publishes_ports("ports:"));
    assert!(!publishes_ports("ports"));
}

#[test]
fn substring_search_edges() {
    assert!(text_contains("abc", ""));
    assert!(text_contains("", ""));
    assert!(!text_contains("ab", "abc"));
    assert!(text_contains("xxabc", "abc"));
    assert!(text_contains("äöü", "öü"));
}

#[test]
fn build_arguments() {
    assert_eq!(build_argv(false), strings(&["build"]));
    assert_eq!(build_argv(true), strings(&["build", "--no-cache"]));
}

#[test]
fn run_arguments() {
    let r = run_argv(&strings(&["E=1"]), &strings(&["/v:/v"]), true, &"svc".to_string());
    assert_eq!(r, strings(&["run", "--rm", "--service-ports", "-e", "E=1", "-v", "/v:/v", "svc"]));
    let r = run_argv(&Vec::new(), &Vec::new(), false, &"svc".to_string());
    assert_eq!(r, strings(&["run", "--rm", "svc"]));
}
