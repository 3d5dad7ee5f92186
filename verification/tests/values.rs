use apollo::detail::{failure_text, file_path_text, ignore_text, TestKind, TestStatus, LETTER_WIDTH};
use apollo::conditional::{when_else, when_some};
use apollo::layout::{all_sides, axis_sides, with_bottom, with_left, with_right, with_top, with_x, with_y};
use apollo::paths::{breadcrumb, last_component_of, path_from_text, path_segments, path_string_of, path_text, path_to_text};
use apollo::persist::{SaveOpenProjects, SavedProject};
use apollo::platform::client_side_decorations;
use apollo::project::Project;
use apollo::run_args::RunArgs;
use apollo::state::State;
use apollo::style::{add_opacity, rgba_value, Colour, Direction, Icons, OpenProjectEvent, SimpleTooltip, TextPosition, MAX_RGB};
use apollo::text::{clone_bytes, same_bytes, same_text};

fn path(text: &str) -> Vec<u8> {
    path_from_text(text)
}

fn strings(list: &[&str]) -> Vec<String> {
    list.iter().map(|s| s.to_string()).collect()
}

#[test]
fn default_vec_is_the_fallback() {
    assert_eq!(RunArgs::default_vec(), strings(&["--no-fail-fast", "--workspace"]));
}

#[test]
fn default_run_args_cover_the_workspace() {
    let args = RunArgs::default();
    assert_eq!(args, RunArgs { lib: false, bin: false, docs: false, workspace: true, no_fail_fast: true });
    assert_eq!(args.into_vec(), strings(&["--workspace", "--no-fail-fast"]));
}

#[test]
fn run_args_come_in_a_fixed_order() {
    let all = RunArgs { lib: true, bin: true, docs: true, workspace: true, no_fail_fast: true };
    assert_eq!(all.into_vec(), strings(&["--lib", "--bin", "--docs", "--workspace", "--no-fail-fast"]));
    let none = RunArgs { lib: false, bin: false, docs: false, workspace: false, no_fail_fast: false };
    assert_eq!(none.into_vec(), Vec::<String>::new());
    let some = RunArgs { lib: false, bin: true, docs: false, workspace: false, no_fail_fast: true };
    assert_eq!(some.into_vec(), strings(&["--bin", "--no-fail-fast"]));
}

#[test]
fn display_name_is_the_last_component() {
    assert_eq!(Project::new(1, path("/home/me/demo")).display_name(false), "demo");
    assert_eq!(Project::new(1, path("demo")).display_name(false), "demo");
    assert_eq!(Project::new(1, path("/home/me/demo/")).display_name(false), "");
    assert_eq!(Project::new(1, path("")).display_name(false), "");
    assert_eq!(Project::new(1, path("/")).display_name(false), "");
    assert_eq!(Project::new(1, path("C:\\Users\\me\\demo")).display_name(true), "demo");
    assert_eq!(Project::new(1, path("C:\\Users\\me\\demo")).display_name(false), "C:\\Users\\me\\demo");
    assert_eq!(Project::new(1, path("/home/me/demo")).display_name(true), "/home/me/demo");
    assert_eq!(Project::new(1, path("/home/m\u{e9}/d\u{e9}mo")).display_name(false), "d\u{e9}mo");
}

#[test]
fn last_component_follows_the_last_separator() {
    assert_eq!(last_component_of("a/b/c", '/'), "c");
    assert_eq!(last_component_of("a/b/c", 'b'), "/c");
    assert_eq!(last_component_of("abc", '/'), "abc");
    assert_eq!(last_component_of("//", '/'), "");
}

#[test]
fn path_string_is_the_path() {
    assert_eq!(Project::new(1, path("/home/me/demo")).path_string(), "/home/me/demo");
    assert_eq!(Project::default().path_string(), "");
}

#[test]
fn path_text_marks_a_path_without_text() {
    assert_eq!(path_text(Some("/home/me".to_string())), "/home/me");
    assert_eq!(path_text(Some(String::new())), "");
    assert_eq!(path_text(None), "ERROR");
}

#[test]
fn segments_are_the_parts_between_separators() {
    assert_eq!(path_segments("/home/me/demo"), strings(&["home", "me", "demo"]));
    assert_eq!(path_segments("home/me/demo/"), strings(&["home", "me", "demo"]));
    assert_eq!(path_segments("C:\\Users\\me"), strings(&["C:", "Users", "me"]));
    assert_eq!(path_segments("//a\\/b//"), strings(&["a", "b"]));
    assert_eq!(path_segments("demo"), strings(&["demo"]));
    assert_eq!(path_segments(""), Vec::<String>::new());
    assert_eq!(path_segments("/"), Vec::<String>::new());
    assert_eq!(path_segments("\\/\\"), Vec::<String>::new());
    assert_eq!(path_segments("/h\u{f6}me/x"), strings(&["h\u{f6}me", "x"]));
}

#[test]
fn breadcrumb_leads_through_the_clicked_part() {
    assert_eq!(breadcrumb("/home/me/demo", 0), strings(&["home"]));
    assert_eq!(breadcrumb("/home/me/demo", 1), strings(&["home", "me"]));
    assert_eq!(breadcrumb("/home/me/demo", 2), strings(&["home", "me", "demo"]));
    assert_eq!(breadcrumb("/home/me/demo", 3), strings(&["home", "me", "demo"]));
    assert_eq!(breadcrumb("/home/me/demo", usize::MAX), strings(&["home", "me", "demo"]));
    assert_eq!(breadcrumb("", 0), Vec::<String>::new());
}

#[test]
fn saved_state_keeps_ids_paths_and_the_active_id() {
    let mut state = State::default();
    state.add_project_by_path(path("/work/one"));
    state.add_project_by_path(path("/work/two"));
    state.set_active_project(1);
    state.select_test(4);
    state.csd = true;
    state.status.running_tests = true;
    state.alert_info(None, "m".to_string(), None);
    let saved = state.to_saved();
    assert_eq!(saved.active_project, 1);
    assert_eq!(saved.open_projects.len(), 2);
    assert_eq!(saved.open_projects[0].id, 1);
    assert_eq!(saved.open_projects[0].path, path("/work/one"));
    assert_eq!(saved.open_projects[1].id, 2);
    assert_eq!(saved.open_projects[1].path, path("/work/two"));
    let loaded = State::from_saved(saved);
    assert_eq!(loaded.active_project, 1);
    assert_eq!(loaded.open_projects.len(), 2);
    assert_eq!(loaded.open_projects[0].id, 1);
    assert_eq!(loaded.open_projects[0].path, path("/work/one"));
    assert_eq!(loaded.open_projects[1].id, 2);
    assert_eq!(loaded.open_projects[1].path, path("/work/two"));
    assert!(loaded.open_projects.iter().all(|p| p.tests.is_none() && p.selected_test.is_none()));
    assert!(!loaded.status.running_tests);
    assert!(!loaded.csd);
    assert!(loaded.alert.is_none());
    assert_eq!(loaded.run_args, RunArgs::default());
}

#[test]
fn nothing_saved_loads_as_the_default_state() {
    let saved = SaveOpenProjects::default();
    assert!(saved.open_projects.is_empty());
    assert_eq!(saved.active_project, 0);
    let loaded = State::from_saved(saved);
    assert!(loaded.open_projects.is_empty());
    assert_eq!(loaded.active_project, 0);
}

#[test]
fn loading_takes_the_file_as_it_is() {
    let saved = SaveOpenProjects {
        open_projects: vec![SavedProject { id: 3, path: path("/x") }, SavedProject { id: 3, path: path("/y") }],
        active_project: 8,
    };
    let loaded = State::from_saved(saved);
    assert_eq!(loaded.active_project, 8);
    assert_eq!(loaded.open_projects.len(), 2);
    assert!(!loaded.has_active_project());
}

#[test]
fn decorations_are_drawn_on_linux_sessions() {
    assert!(client_side_decorations("linux", "wayland", false, false));
    assert!(client_side_decorations("linux", "x11", false, false));
    assert!(client_side_decorations("linux", "", true, false));
    assert!(client_side_decorations("linux", "", false, true));
    assert!(client_side_decorations("linux", "tty", true, true));
    assert!(!client_side_decorations("linux", "", false, false));
    assert!(!client_side_decorations("linux", "tty", false, false));
    assert!(!client_side_decorations("macos", "wayland", true, true));
    assert!(!client_side_decorations("windows", "x11", false, true));
    assert!(!client_side_decorations("Linux", "wayland", false, false));
}

#[test]
fn same_text_compares_by_content() {
    assert!(same_text("abc", "abc"));
    assert!(same_text("", ""));
    assert!(!same_text("abc", "abd"));
    assert!(!same_text("abc", "ab"));
}

#[test]
fn opacity_goes_behind_the_colour() {
    assert_eq!(add_opacity(0xffffff, 0x22), 0xffffff22);
    assert_eq!(add_opacity(0x123456, 0xff), 0x123456ff);
    assert_eq!(add_opacity(0, 0), 0);
    assert_eq!(add_opacity(1, 300), 556);
}

#[test]
fn a_colour_without_opacity_is_made_opaque() {
    assert_eq!(MAX_RGB, 0xffffff);
    assert_eq!(rgba_value(0x123456), 0x123456ff);
    assert_eq!(rgba_value(0), 0xff);
    assert_eq!(rgba_value(0xffffff), 0xffffffff);
    assert_eq!(rgba_value(0x1000000), 0x1000000);
    assert_eq!(rgba_value(0x12345678), 0x12345678);
    assert_eq!(rgba_value(u32::MAX), u32::MAX);
}

#[test]
fn icons_point_at_their_assets() {
    assert_eq!(Icons::Play.path(), "svg/play.svg");
    assert_eq!(Icons::Close.path(), "svg/close.svg");
    assert_eq!(Icons::OpenFolder.path(), "svg/open_folder.svg");
    assert_eq!(Icons::Trash.path(), "svg/trash.svg");
    assert_eq!(Icons::ChevronDown.path(), "svg/chevron_down.svg");
    assert_eq!(Icons::Settings.path(), "svg/settings.svg");
    assert_eq!(Icons::Check.path(), "svg/check.svg");
    assert_eq!(Icons::Ban.path(), "svg/ban.svg");
    assert_eq!(Icons::AlertCircle.path(), "svg/alert_circle.svg");
}

#[test]
fn small_values_hold_what_they_were_given() {
    assert_eq!(SimpleTooltip::new("Run the projects tests".to_string()).text(), "Run the projects tests");
    assert_eq!(OpenProjectEvent::new(12).project_id(), 12);
    assert!(Direction::Horizontal != Direction::Vertical);
    assert!(TextPosition::Start != TextPosition::Centre);
    assert!(TextPosition::Centre != TextPosition::End);
}

#[test]
fn banner_names_the_status() {
    assert_eq!(LETTER_WIDTH, 30);
    assert_eq!(TestStatus::Passed.banner(), "PASSED");
    assert_eq!(TestStatus::Ignored.banner(), "IGNORED");
    assert_eq!(TestStatus::Failed.banner(), "FAILED");
    assert_eq!(TestStatus::Passed.banner_width(), 180);
    assert_eq!(TestStatus::Ignored.banner_width(), 210);
    assert_eq!(TestStatus::Failed.banner_width(), 180);
    assert_eq!(TestKind::Normal.label(), "Normal");
    assert_eq!(TestKind::Doc.label(), "Doc Test");
}

#[test]
fn details_fall_back_to_a_word() {
    assert_eq!(file_path_text(Some("src/lib.rs".to_string())), "src/lib.rs");
    assert_eq!(file_path_text(None), "Unknown");
    assert_eq!(failure_text(TestStatus::Failed, Some("boom".to_string())), Some("boom".to_string()));
    assert_eq!(failure_text(TestStatus::Failed, None), Some("Unknown error reason".to_string()));
    assert_eq!(failure_text(TestStatus::Passed, Some("boom".to_string())), None);
    assert_eq!(failure_text(TestStatus::Ignored, None), None);
    assert_eq!(ignore_text(TestStatus::Ignored, Some("slow".to_string())), Some("slow".to_string()));
    assert_eq!(ignore_text(TestStatus::Ignored, None), None);
    assert_eq!(ignore_text(TestStatus::Failed, Some("slow".to_string())), None);
    assert_eq!(ignore_text(TestStatus::Passed, None), None);
}

#[test]
fn sides_come_in_the_order_top_right_bottom_left() {
    assert_eq!(all_sides(4), (4, 4, 4, 4));
    assert_eq!(axis_sides(1, 2), (2, 1, 2, 1));
    assert_eq!(with_x((1, 2, 3, 4), 9), (1, 9, 3, 9));
    assert_eq!(with_y((1, 2, 3, 4), 9), (9, 2, 9, 4));
    assert_eq!(with_top((1, 2, 3, 4), 9), (9, 2, 3, 4));
    assert_eq!(with_right((1, 2, 3, 4), 9), (1, 9, 3, 4));
    assert_eq!(with_bottom((1, 2, 3, 4), 9), (1, 2, 9, 4));
    assert_eq!(with_left((1, 2, 3, 4), 9), (1, 2, 3, 9));
    assert_eq!(all_sides(Direction::Vertical), (Direction::Vertical, Direction::Vertical, Direction::Vertical, Direction::Vertical));
}

#[test]
fn restore_falls_back_to_nothing_open() {
    let found = SaveOpenProjects { open_projects: vec![SavedProject { id: 2, path: path("/x") }], active_project: 2 };
    let state = State::restore(Some(found));
    assert_eq!(state.open_projects.len(), 1);
    assert_eq!(state.open_projects[0].id, 2);
    assert_eq!(state.open_projects[0].path, path("/x"));
    assert_eq!(state.active_project, 2);
    assert!(state.has_active_project());
    let empty = State::restore(None);
    assert!(empty.open_projects.is_empty());
    assert_eq!(empty.active_project, 0);
    assert!(empty.alert.is_none());
    assert_eq!(empty.run_args, RunArgs::default());
}

#[test]
fn conditional_steps_run_on_their_condition() {
    assert_eq!(apollo::conditional::when(1, true, |x| x + 10), 11);
    assert_eq!(apollo::conditional::when(1, false, |x| x + 10), 1);
    assert_eq!(when_some("a".to_string(), Some("b"), |x, y| x + y), "ab");
    assert_eq!(when_some("a".to_string(), None::<&str>, |x, y| x + y), "a");
    assert_eq!(when_else(1, true, |x| x + 10, |x| x + 20), 11);
    assert_eq!(when_else(1, false, |x| x + 10, |x| x + 20), 21);
}

#[test]
fn opacity_replaces_the_last_digits() {
    assert_eq!(Colour::Rgb(0x2563eb).opacity(0xbb), Colour::Rgba(0x2563ebbb));
    assert_eq!(Colour::Rgba(0x2563ebaa).opacity(0xbb), Colour::Rgba(0x2563ebbb));
    assert_eq!(Colour::Rgb(0xff2563eb).opacity(0), Colour::Rgba(0x2563eb00));
    assert_eq!(Colour::Rgba(u32::MAX).opacity(255), Colour::Rgba(u32::MAX));
    assert_eq!(Colour::Rgb(0).opacity(255), Colour::Rgba(0xff));
    assert_eq!(Colour::Rgba(0x000000ff).opacity(0), Colour::Rgba(0));
}

#[test]
fn paths_read_as_text_where_they_spell_one() {
    assert_eq!(path("/home/me"), b"/home/me".to_vec());
    assert_eq!(path("d\u{e9}mo"), "d\u{e9}mo".as_bytes().to_vec());
    assert_eq!(path(""), Vec::<u8>::new());
    assert_eq!(path_to_text(&path("/home/m\u{e9}")), Some("/home/m\u{e9}".to_string()));
    assert_eq!(path_to_text(&Vec::new()), Some(String::new()));
    assert_eq!(path_to_text(&vec![0xff]), None);
    assert_eq!(path_to_text(&vec![b'a', 0xc3]), None);
    assert_eq!(path_to_text(&vec![0xed, 0xa0, 0x80]), None);
    assert_eq!(path_to_text(&vec![0xc0, 0xaf]), None);
    assert_eq!(path_string_of(&path("/a/b")), "/a/b");
    assert_eq!(path_string_of(&vec![b'/', 0xff]), "ERROR");
    assert_eq!(Project::new(1, vec![b'/', 0xff, b'/', b'x']).display_name(false), "ERROR");
    assert!(same_bytes(&path("ab"), &path("ab")));
    assert!(!same_bytes(&path("ab"), &path("ac")));
    assert!(!same_bytes(&path("ab"), &path("abc")));
    assert_eq!(clone_bytes(&vec![1, 2, 255]), vec![1, 2, 255]);
}
