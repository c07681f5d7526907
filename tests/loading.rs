use chrklst::{data_dir_or_error, non_empty, parse_checklist, split_lines, ChecklistError};
use std::path::PathBuf;

fn strings(items: &[&str]) -> Vec<String> {
    items.iter().map(|s| s.to_string()).collect()
}

#[test]
fn split_lines_of_empty_input_is_one_empty_line() {
    assert_eq!(split_lines(b""), vec![Vec::<u8>::new()]);
}

#[test]
fn split_lines_keeps_trailing_empty_piece() {
    assert_eq!(split_lines(b"ab\ncd\n"), vec![b"ab".to_vec(), b"cd".to_vec(), Vec::new()]);
    assert_eq!(split_lines(b"\n\n"), vec![Vec::<u8>::new(), Vec::new(), Vec::new()]);
}

#[test]
fn non_empty_drops_empty_lines_in_order() {
    let kept = non_empty(strings(&["", "a", "", "b", ""]));
    assert_eq!(kept, strings(&["a", "b"]));
    assert!(non_empty(Vec::new()).is_empty());
}

#[test]
fn parse_checklist_trims_and_drops_blank_lines() {
    let raw = b"  Pack bag \n\n\t\nCheck stove\r\n   \nLock door";
    assert_eq!(parse_checklist(raw), strings(&["Pack bag", "Check stove", "Lock door"]));
}

#[test]
fn parse_checklist_of_empty_file_has_no_steps() {
    assert!(parse_checklist(b"").is_empty());
    assert!(parse_checklist(b"\n \n\t").is_empty());
}

#[test]
fn parse_checklist_replaces_invalid_utf8() {
    let raw = b"ok\n\xffbad\n";
    assert_eq!(parse_checklist(raw), strings(&["ok", "\u{FFFD}bad"]));
}

#[test]
fn error_text_has_prefix() {
    let e = ChecklistError::from("Invalid arguments");
    assert_eq!(e.message(), "Invalid arguments");
    assert_eq!(e.to_string(), "error: Invalid arguments");
}

#[test]
fn missing_directory_error_names_the_path() {
    let e = ChecklistError::missing_directory("/home/u/.local/share/chrklst");
    assert_eq!(e.message(), "Create a checklists directory at /home/u/.local/share/chrklst");
}

#[test]
fn data_dir_found_is_kept() {
    let p = PathBuf::from("/data/chrklst");
    assert_eq!(data_dir_or_error(Some(p.clone())).unwrap(), p);
}

#[test]
fn data_dir_missing_is_an_error() {
    let e = data_dir_or_error(None).unwrap_err();
    assert_eq!(e.message(), "Couldn't get app data dir");
    assert_eq!(e.to_string(), "error: Couldn't get app data dir");
}

#[test]
fn checklist_dir_ends_with_app_name_or_fails_plainly() {
    match chrklst::checklist_dir() {
        Ok(p) => assert!(p.ends_with("chrklst")),
        Err(e) => assert_eq!(e.message(), "Couldn't get app data dir"),
    }
}
