use dirnav::dirpath::DirPath;
use dirnav::handoff::handoff_line;
use dirnav::listing::{resolve_listing, DirEntry};
use dirnav::render::{compute_frame, preview_target};
use dirnav::state::AppState;
use dirnav::step::{apply_input, Key};

fn entry(name: &str, is_directory: bool) -> DirEntry {
    DirEntry { name: name.to_string(), is_directory }
}

fn sample_listing() -> Vec<DirEntry> {
    vec![entry("a_dir", true), entry("b_file.txt", false), entry("c_dir", true)]
}

#[test]
fn new_state_starts_at_working_directory() {
    let state = AppState::new();
    assert_eq!(state.current_dir.display_string(), ".");
    assert_eq!(state.left_selected, Some(0));
    assert_eq!(state.right_selected, None);
    assert!(state.selected_path.is_none());
}

#[test]
fn down_moves_selection_forward() {
    let mut state = AppState::new();
    let contents = sample_listing();
    let out = apply_input(&mut state, Key::Down, &contents);
    assert_eq!(state.left_selected, Some(1));
    assert!(!out.quit);
    assert!(out.open_target.is_none());
}

#[test]
fn down_full_cycle_returns_to_start() {
    let mut state = AppState::new();
    let contents = sample_listing();
    for _ in 0..contents.len() {
        apply_input(&mut state, Key::Down, &contents);
    }
    assert_eq!(state.left_selected, Some(0));
}

#[test]
fn up_at_first_entry_wraps_to_last() {
    let mut state = AppState::new();
    let contents = sample_listing();
    apply_input(&mut state, Key::Up, &contents);
    assert_eq!(state.left_selected, Some(2));
}

#[test]
fn up_then_down_returns_to_start() {
    let mut state = AppState::new();
    let contents = sample_listing();
    apply_input(&mut state, Key::Up, &contents);
    apply_input(&mut state, Key::Down, &contents);
    assert_eq!(state.left_selected, Some(0));
}

#[test]
fn empty_listing_keeps_selection() {
    let mut state = AppState::new();
    let contents: Vec<DirEntry> = Vec::new();
    let out = apply_input(&mut state, Key::Down, &contents);
    assert_eq!(state.left_selected, Some(0));
    assert!(!out.quit);
    let out = apply_input(&mut state, Key::Up, &contents);
    assert_eq!(state.left_selected, Some(0));
    assert!(!out.quit);
    assert_eq!(state.current_dir.display_string(), ".");
}

#[test]
fn backspace_at_root_is_a_no_op() {
    let mut state = AppState::new();
    let contents = sample_listing();
    apply_input(&mut state, Key::Down, &contents);
    apply_input(&mut state, Key::Backspace, &contents);
    assert_eq!(state.current_dir.display_string(), ".");
    assert_eq!(state.left_selected, Some(1));
}

#[test]
fn backspace_pops_one_component() {
    let mut state = AppState::new();
    let contents = sample_listing();
    apply_input(&mut state, Key::Enter, &contents);
    assert_eq!(state.current_dir.display_string(), "./a_dir");
    apply_input(&mut state, Key::Backspace, &contents);
    assert_eq!(state.current_dir.display_string(), ".");
    assert_eq!(state.left_selected, Some(0));
}

#[test]
fn enter_on_directory_descends_and_reselects_first() {
    let mut state = AppState::new();
    let contents = sample_listing();
    let out = apply_input(&mut state, Key::Enter, &contents);
    assert_eq!(state.current_dir.display_string(), "./a_dir");
    assert_eq!(state.left_selected, Some(0));
    assert_eq!(state.right_selected, None);
    assert_eq!(
        state.selected_path.as_ref().map(|p| p.display_string()),
        Some("./a_dir".to_string())
    );
    assert_eq!(out.open_target.map(|p| p.display_string()), Some("./a_dir".to_string()));
    assert!(!out.quit);
}

#[test]
fn enter_on_file_opens_without_descending() {
    let mut state = AppState::new();
    let contents = sample_listing();
    apply_input(&mut state, Key::Down, &contents);
    let out = apply_input(&mut state, Key::Enter, &contents);
    assert_eq!(state.current_dir.display_string(), ".");
    assert_eq!(state.left_selected, Some(1));
    assert_eq!(
        state.selected_path.as_ref().map(|p| p.display_string()),
        Some("./b_file.txt".to_string())
    );
    assert_eq!(out.open_target.map(|p| p.display_string()), Some("./b_file.txt".to_string()));
}

#[test]
fn enter_with_stale_selection_changes_nothing() {
    let mut state = AppState::new();
    state.left_selected = Some(7);
    let contents = sample_listing();
    let out = apply_input(&mut state, Key::Enter, &contents);
    assert_eq!(state.current_dir.display_string(), ".");
    assert_eq!(state.left_selected, Some(7));
    assert!(state.selected_path.is_none());
    assert!(out.open_target.is_none());
}

#[test]
fn quit_key_stops_the_loop() {
    let mut state = AppState::new();
    let contents = sample_listing();
    let out = apply_input(&mut state, Key::Quit, &contents);
    assert!(out.quit);
    assert!(out.open_target.is_none());
    assert_eq!(state.left_selected, Some(0));
    assert_eq!(state.current_dir.display_string(), ".");
}

#[test]
fn unknown_key_changes_nothing() {
    let mut state = AppState::new();
    let contents = sample_listing();
    let out = apply_input(&mut state, Key::Other, &contents);
    assert!(!out.quit);
    assert!(out.open_target.is_none());
    assert_eq!(state.left_selected, Some(0));
    assert_eq!(state.current_dir.display_string(), ".");
}

#[test]
fn end_to_end_navigation_scenario() {
    let mut state = AppState::new();
    let contents = vec![entry("a_dir", true), entry("b_file.txt", false)];
    assert_eq!(state.current_dir.display_string(), ".");
    apply_input(&mut state, Key::Down, &contents);
    assert_eq!(state.left_selected, Some(1));
    apply_input(&mut state, Key::Up, &contents);
    assert_eq!(state.left_selected, Some(0));
    apply_input(&mut state, Key::Enter, &contents);
    assert_eq!(state.current_dir.display_string(), "./a_dir");
    assert_eq!(state.left_selected, Some(0));
}

#[test]
fn resolve_listing_prefers_primary() {
    let primary = Some(vec![entry("x", false)]);
    let fallback = Some(vec![entry("y", true)]);
    let r = resolve_listing(primary, fallback).unwrap();
    assert_eq!(r.len(), 1);
    assert_eq!(r[0].name, "x");
    assert!(!r[0].is_directory);
}

#[test]
fn resolve_listing_falls_back_to_working_directory() {
    let fallback = Some(vec![entry("y", true), entry("z", false)]);
    let r = resolve_listing(None, fallback).unwrap();
    assert_eq!(r.len(), 2);
    assert_eq!(r[0].name, "y");
    assert!(r[0].is_directory);
}

#[test]
fn resolve_listing_with_nothing_readable_fails() {
    assert!(resolve_listing(None, None).is_err());
}

#[test]
fn handoff_line_for_directory_is_cd_instruction() {
    let mut path = DirPath::new("foo");
    path.push("bar".to_string());
    let selected = Some(path);
    let line = handoff_line(&selected, true);
    assert_eq!(line, Some("cd \"foo/bar\"".to_string()));
}

#[test]
fn handoff_line_absent_for_file_selection() {
    let mut path = DirPath::new("foo");
    path.push("bar.txt".to_string());
    let selected = Some(path);
    assert_eq!(handoff_line(&selected, false), None);
}

#[test]
fn handoff_line_absent_without_selection() {
    assert_eq!(handoff_line(&None, true), None);
}

#[test]
fn display_string_joins_components() {
    let mut path = DirPath::new(".");
    assert_eq!(path.display_string(), ".");
    assert_eq!(path.depth(), 1);
    path.push("sub".to_string());
    path.push("deeper".to_string());
    assert_eq!(path.display_string(), "./sub/deeper");
    assert_eq!(path.depth(), 3);
    assert!(path.pop());
    assert_eq!(path.display_string(), "./sub");
    assert!(path.pop());
    assert!(!path.pop());
    assert_eq!(path.display_string(), ".");
}

#[test]
fn preview_target_names_selected_directory() {
    let state = AppState::new();
    let contents = sample_listing();
    let target = preview_target(&state, &contents);
    assert_eq!(target.map(|p| p.display_string()), Some("./a_dir".to_string()));
}

#[test]
fn preview_target_absent_for_file_or_stale_selection() {
    let mut state = AppState::new();
    let contents = sample_listing();
    apply_input(&mut state, Key::Down, &contents);
    assert!(preview_target(&state, &contents).is_none());
    state.left_selected = Some(9);
    assert!(preview_target(&state, &contents).is_none());
    state.left_selected = None;
    assert!(preview_target(&state, &contents).is_none());
}

#[test]
fn compute_frame_fills_both_panes() {
    let state = AppState::new();
    let contents = sample_listing();
    let preview = vec![entry("inner", false)];
    let frame = compute_frame(&state, contents, Some(preview));
    assert_eq!(frame.left_title, "Current Directory");
    assert_eq!(frame.right_title, "Selected Directory");
    assert_eq!(frame.left_entries.len(), 3);
    assert_eq!(frame.left_entries[0].name, "a_dir");
    assert_eq!(frame.left_selected, Some(0));
    assert_eq!(frame.right_entries.len(), 1);
    assert_eq!(frame.right_entries[0].name, "inner");
    assert_eq!(frame.right_selected, None);
}

#[test]
fn compute_frame_without_preview_leaves_right_pane_empty() {
    let mut state = AppState::new();
    let contents = sample_listing();
    apply_input(&mut state, Key::Down, &contents);
    let frame = compute_frame(&state, contents, None);
    assert_eq!(frame.left_selected, Some(1));
    assert!(frame.right_entries.is_empty());
}
