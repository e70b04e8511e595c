use mission_capture::error::PipelineError;
use mission_capture::ocr::{lines_from_text, load_engine};

#[test]
fn noise_lines_are_dropped() {
    let lines = lines_from_text("Mission Summary\nx\n\n a \nab");
    assert_eq!(lines, vec!["Mission Summary".to_string(), "ab".to_string()]);
    assert!(lines.iter().all(|l| l.chars().count() >= 2));
}

#[test]
fn empty_text_gives_no_lines() {
    assert!(lines_from_text("").is_empty());
}

#[test]
fn untrimmed_lines_are_kept_as_recognized() {
    assert_eq!(lines_from_text(" Rifts Closed: 3 "), vec![" Rifts Closed: 3 ".to_string()]);
}

#[test]
fn garbage_models_fail_to_load() {
    let r = load_engine(vec![1, 2, 3], vec![4, 5, 6]);
    assert_eq!(r.err(), Some(PipelineError::ModelLoadError));
}

#[test]
fn lines_of_white_space_only_are_noise() {
    let lines = lines_from_text("\u{2003}a\u{2003}\n\u{3000}\u{3000}\nok");
    assert_eq!(lines, vec!["ok".to_string()]);
}
