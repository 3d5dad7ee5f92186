use apollo::alert::{AlertSeverity, AlertType};
use apollo::run::{RunRequest, ALERT_TIME};
use apollo::run_args::RunArgs;
use apollo::state::State;
use cargo_ptest::config::Config;
use cargo_ptest::parse::{parse, ParsedTestGroup};
use apollo::paths::path_from_text;

fn path(text: &str) -> Vec<u8> {
    path_from_text(text)
}

fn paths(texts: &[&str]) -> Vec<Vec<u8>> {
    texts.iter().map(|text| path(text)).collect()
}

fn one_group() -> Vec<ParsedTestGroup> {
    let stderr = "     Running unittests src/main.rs (target/debug/deps/tool-0011223344556677)\n";
    let stdout = "\nrunning 2 tests\ntest checks::adds ... ok\ntest checks::breaks ... FAILED\n\nfailures:\n\n---- checks::breaks stdout ----\nthread 'checks::breaks' panicked at src/main.rs:9:5:\nboom\n\n\nfailures:\n    checks::breaks\n\ntest result: FAILED. 1 passed; 1 failed; 0 ignored; 0 measured; 0 filtered out; finished in 0.00s\n\n";
    parse(stdout.to_string(), stderr.to_string(), Config::default()).unwrap()
}

#[test]
fn run_without_a_project_does_not_start() {
    let mut state = State::default();
    assert!(state.begin_run().is_none());
    assert!(!state.status.running_tests);
}

#[test]
fn run_starts_in_the_active_projects_folder() {
    let mut state = State::default();
    state.add_project_by_path(path("/work/one"));
    state.add_project_by_path(path("/work/two"));
    state.set_active_project(1);
    let RunRequest { project_id, dir, args } = state.begin_run().unwrap();
    assert_eq!(project_id, 1);
    assert_eq!(dir, path("/work/one"));
    assert_eq!(args, vec!["--workspace".to_string(), "--no-fail-fast".to_string()]);
    assert!(state.status.running_tests);
    assert_eq!(state.active_project, 1);
}

#[test]
fn run_passes_the_stored_flags() {
    let mut state = State::default();
    state.add_project_by_path(path("/p"));
    state.run_args = RunArgs { lib: true, bin: false, docs: true, workspace: false, no_fail_fast: false };
    let request = state.begin_run().unwrap();
    assert_eq!(request.args, vec!["--lib".to_string(), "--docs".to_string()]);
}

#[test]
fn a_second_run_may_start_while_one_is_under_way() {
    let mut state = State::default();
    state.add_project_by_path(path("/p"));
    assert!(state.begin_run().is_some());
    assert!(state.begin_run().is_some());
    assert!(state.status.running_tests);
}

#[test]
fn results_go_to_the_project_that_was_run() {
    let mut state = State::default();
    state.add_project_by_path(path("/work/one"));
    state.add_project_by_path(path("/work/two"));
    state.set_active_project(1);
    state.select_test(0);
    let request = state.begin_run().unwrap();
    assert_eq!(request.project_id, 1);
    state.set_active_project(2);
    state.select_test(1);
    let clear_after = state.finish_run(request.project_id, Ok(one_group()));
    assert_eq!(clear_after, None);
    assert!(!state.status.running_tests);
    assert_eq!(state.active_project, 2);
    let stored = state.open_projects[0].tests.as_ref().unwrap();
    assert_eq!(stored.len(), 1);
    assert_eq!(stored[0].tests.len(), 2);
    assert!(stored[0].tests[1].error_reason.as_ref().unwrap().contains("boom"));
    assert_eq!(state.open_projects[0].selected_test, None);
    assert!(state.open_projects[1].tests.is_none());
    assert_eq!(state.open_projects[1].selected_test, Some(1));
    assert!(state.alert.is_none());
    assert_eq!(state.tests_run(), None);
    state.set_active_project(1);
    assert_eq!(state.tests_run(), Some(2));
}

#[test]
fn results_of_the_project_on_show_drop_its_selection() {
    let mut state = State::default();
    state.add_project_by_path(path("/work/one"));
    state.set_tests(1, one_group());
    state.select_test(1);
    assert!(state.get_selected_test().is_some());
    let request = state.begin_run().unwrap();
    assert!(state.status.running_tests);
    assert_eq!(state.finish_run(request.project_id, Ok(one_group())), None);
    assert!(!state.status.running_tests);
    assert_eq!(state.open_projects[0].selected_test, None);
    assert!(state.get_selected_test().is_none());
    assert_eq!(state.tests_run(), Some(2));
}

#[test]
fn results_of_a_closed_project_are_dropped() {
    let mut state = State::default();
    state.add_project_by_path(path("/work/one"));
    state.add_project_by_path(path("/work/two"));
    state.set_active_project(1);
    let request = state.begin_run().unwrap();
    state.remove_project(1);
    assert_eq!(state.finish_run(request.project_id, Ok(one_group())), None);
    assert!(!state.status.running_tests);
    assert_eq!(state.open_projects.len(), 1);
    assert!(state.open_projects[0].tests.is_none());
    assert_eq!(state.active_project, 2);
}

#[test]
fn a_failed_run_shows_an_alert() {
    let mut state = State::default();
    state.add_project_by_path(path("/p"));
    let request = state.begin_run().unwrap();
    let clear_after = state.finish_run(request.project_id, Err("Run Error: 'cargo test' failed: no cargo".to_string()));
    assert_eq!(clear_after, Some(5000));
    assert_eq!(ALERT_TIME, 5000);
    let alert = state.alert.as_ref().unwrap();
    assert_eq!(alert.title, Some("cargo_ptest: RunError".to_string()));
    assert_eq!(alert.message, "Could not run tests: Run Error: 'cargo test' failed: no cargo");
    assert_eq!(alert.severity, AlertSeverity::ERROR);
    assert_eq!(alert._type, AlertType::Timed(5000));
    assert!(state.status.running_tests);
    assert!(state.open_projects[0].tests.is_none());
}

#[test]
fn picked_folders_are_opened() {
    let mut state = State::default();
    let clear_after = state.open_folders(Some(paths(&["/a", "/b"])));
    assert_eq!(clear_after, None);
    assert_eq!(state.open_projects.len(), 2);
    assert_eq!(state.open_projects[0].id, 1);
    assert_eq!(state.open_projects[1].path, path("/b"));
    assert_eq!(state.active_project, 2);
    assert!(state.alert.is_none());
}

#[test]
fn no_picked_folder_shows_an_alert() {
    let mut state = State::default();
    let clear_after = state.open_folders(None);
    assert_eq!(clear_after, Some(5000));
    let alert = state.alert.as_ref().unwrap();
    assert_eq!(alert.title, None);
    assert_eq!(alert.message, "Could not open this path");
    assert_eq!(alert.severity, AlertSeverity::ERROR);
    assert_eq!(alert._type, AlertType::Timed(5000));
    assert!(state.open_projects.is_empty());
}

#[test]
fn run_goes_to_the_folder_even_where_its_path_spells_no_text() {
    let odd: Vec<u8> = vec![b'/', b'x', 0x80, b'y'];
    let mut state = State::default();
    state.add_project_by_path(odd.clone());
    let request = state.begin_run().unwrap();
    assert_eq!(request.dir, odd);
    assert_eq!(request.project_id, 1);
}
