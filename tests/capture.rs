use insight_reader::capture::{
    capture_region, extract_text_from_image, get_selected_text, text_preview, CommandOutcome,
};

fn outcome(success: bool, code: Option<i32>, stdout: &str, stderr: &str) -> CommandOutcome {
    CommandOutcome {
        success,
        exit_code: code,
        stdout: stdout.to_string(),
        stderr: stderr.to_string(),
    }
}

#[test]
fn test_text_preview_short_string() {
    let text = "Hello, world!";
    let result = text_preview(text);
    assert_eq!(result, text);
}

#[test]
fn test_text_preview_exactly_200_chars() {
    let text = "a".repeat(200);
    let result = text_preview(&text);
    assert_eq!(result, text);
    assert_eq!(result.len(), 200);
}

#[test]
fn test_text_preview_long_string() {
    let text = "a".repeat(500);
    let result = text_preview(&text);
    assert!(result.len() == 203);
    assert!(result.ends_with("..."));
    assert_eq!(&result[..200], "a".repeat(200));
}

#[test]
fn test_text_preview_empty_string() {
    let text = "";
    let result = text_preview(text);
    assert_eq!(result, "");
}

#[test]
fn test_text_preview_unicode_emoji() {
    let text = "Hello 👋 World 🌍";
    let result = text_preview(text);
    assert_eq!(result, text);
}

#[test]
fn test_text_preview_unicode_multibyte() {
    let text = "Привет мир";
    let result = text_preview(text);
    assert_eq!(result, text);
}

#[test]
fn test_text_preview_unicode_long() {
    let text = "👋".repeat(250);
    let result = text_preview(&text);
    let char_count = result.chars().count();
    assert!(char_count <= 203, "Should truncate to 200 chars + '...', got {} chars", char_count);
    assert!(result.ends_with("..."));
    let without_suffix = result.strip_suffix("...").unwrap();
    assert_eq!(without_suffix.chars().count(), 200);
}

#[test]
fn preview_of_201_chars_is_cut() {
    let text = "b".repeat(201);
    assert_eq!(text_preview(&text), format!("{}...", "b".repeat(200)));
}

#[test]
fn selected_text_is_trimmed() {
    assert_eq!(get_selected_text("  Hello world\n"), Some("Hello world".to_string()));
    assert_eq!(get_selected_text("Line 1\nLine 2"), Some("Line 1\nLine 2".to_string()));
}

#[test]
fn blank_selection_is_none() {
    assert_eq!(get_selected_text(""), None);
    assert_eq!(get_selected_text(" \n\t "), None);
}

#[test]
fn capture_cancelled_by_user() {
    let o = outcome(false, Some(1), "", "");
    assert_eq!(capture_region(&o, false, "/tmp/shot.png"), Err("Screenshot selection cancelled".to_string()));
}

#[test]
fn capture_failure_reports_diagnostics() {
    let o = outcome(false, Some(2), "", "  no display \n");
    assert_eq!(capture_region(&o, false, "/tmp/shot.png"), Err("Screenshot failed: no display".to_string()));
    let killed = outcome(false, None, "", "");
    assert_eq!(capture_region(&killed, true, "/tmp/shot.png"), Err("Screenshot failed: ".to_string()));
}

#[test]
fn capture_without_file() {
    let o = outcome(true, Some(0), "", "");
    assert_eq!(capture_region(&o, false, "/tmp/shot.png"), Err("Screenshot file was not created".to_string()));
}

#[test]
fn capture_success_gives_path() {
    let o = outcome(true, Some(0), "", "");
    assert_eq!(capture_region(&o, true, "/tmp/shot.png"), Ok("/tmp/shot.png".to_string()));
}

#[test]
fn extraction_without_text_on_exit_one() {
    let o = outcome(false, Some(1), "", "   ");
    assert_eq!(extract_text_from_image(&o), Err("No text found in image".to_string()));
}

#[test]
fn extraction_failure_reports_diagnostics() {
    let o = outcome(false, Some(1), "", " bad image\n");
    assert_eq!(extract_text_from_image(&o), Err("Text extraction failed: bad image".to_string()));
    let o = outcome(false, Some(3), "", "");
    assert_eq!(extract_text_from_image(&o), Err("Text extraction failed: ".to_string()));
}

#[test]
fn extraction_empty_output() {
    let o = outcome(true, Some(0), " \n", "");
    assert_eq!(extract_text_from_image(&o), Err("No text found in image".to_string()));
}

#[test]
fn extraction_success_is_trimmed() {
    let o = outcome(true, Some(0), "\n Hello from an image \n", "");
    assert_eq!(extract_text_from_image(&o), Ok("Hello from an image".to_string()));
}
