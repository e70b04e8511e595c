use mission_capture::error::PipelineError;
use mission_capture::window::{capture_candidates, find_window, select_window, WindowInfo};

fn window(title: &str, is_minimized: bool) -> WindowInfo {
    WindowInfo {
        title: title.to_string(),
        app_name: "app".to_string(),
        dimensions: (1920, 1080),
        position: (0, 0),
        is_minimized,
        is_maximized: false,
    }
}

fn names(v: &[&str]) -> Vec<String> {
    v.iter().map(|s| s.to_string()).collect()
}

#[test]
fn first_candidate_with_a_match_wins() {
    let windows = vec![window("Hunt: Showdown — Main", false), window("notepad.exe", false)];
    assert_eq!(find_window(&names(&["notepad", "hunt"]), &windows), Ok(1));
}

#[test]
fn matching_ignores_case() {
    let windows = vec![window("Untitled - NOTEPAD", false)];
    assert_eq!(find_window(&names(&["Notepad"]), &windows), Ok(0));
}

#[test]
fn later_candidate_used_when_earlier_has_no_match() {
    let windows = vec![window("Hunt: Showdown — Main", false)];
    assert_eq!(find_window(&names(&["notepad", "hunt"]), &windows), Ok(0));
}

#[test]
fn minimized_window_is_skipped() {
    let windows = vec![window("notepad.exe", true), window("Hunt: Showdown", false)];
    assert_eq!(find_window(&names(&["notepad", "hunt"]), &windows), Ok(1));
}

#[test]
fn only_minimized_matches_is_an_error() {
    let windows = vec![window("notepad.exe", true)];
    assert_eq!(find_window(&names(&["notepad"]), &windows), Err(PipelineError::WindowMinimized));
}

#[test]
fn no_match_is_an_error() {
    let windows = vec![window("Terminal", false)];
    assert_eq!(find_window(&names(&["notepad", "hunt"]), &windows), Err(PipelineError::NoMatchingWindow));
    assert_eq!(find_window(&names(&["hunt"]), &vec![]), Err(PipelineError::NoMatchingWindow));
}

#[test]
fn select_window_is_case_sensitive() {
    let windows = vec![window("Notepad", false)];
    assert_eq!(select_window(&names(&["notepad"]), &windows), Err(PipelineError::NoMatchingWindow));
    assert_eq!(select_window(&names(&["Note"]), &windows), Ok(0));
}

#[test]
fn capture_candidates_in_priority_order() {
    assert_eq!(capture_candidates(), names(&[".jpg", "notepad", "hunt", "Hunt: Showdown"]));
}
