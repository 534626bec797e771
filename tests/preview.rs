use edorifile::engine::PathKind;
use edorifile::preview::{check_previewable, PreviewBuilder, PreviewError};

#[test]
fn keeps_first_lines_and_counts_all() {
    let mut b = PreviewBuilder::new(Some(2));
    for l in ["one", "two", "three", "four"] {
        b.push_line(Some(l.to_string())).unwrap();
    }
    let r = b.finish();
    assert_eq!(r.content, "one\ntwo");
    assert_eq!(r.line_count, 4);
    assert!(r.is_truncated);
}

#[test]
fn short_file_is_whole() {
    let mut b = PreviewBuilder::new(None);
    assert_eq!(b.max, 100);
    b.push_line(Some("only".to_string())).unwrap();
    let r = b.finish();
    assert_eq!(r.content, "only");
    assert_eq!(r.line_count, 1);
    assert!(!r.is_truncated);
}

#[test]
fn empty_file_has_empty_preview() {
    let r = PreviewBuilder::new(None).finish();
    assert_eq!(r.content, "");
    assert_eq!(r.line_count, 0);
}

#[test]
fn invalid_text_in_kept_lines_is_binary() {
    let mut b = PreviewBuilder::new(Some(3));
    b.push_line(Some("ok".to_string())).unwrap();
    assert!(matches!(b.push_line(None), Err(PreviewError::Binary)));
}

#[test]
fn invalid_text_past_the_limit_is_counted() {
    let mut b = PreviewBuilder::new(Some(1));
    b.push_line(Some("ok".to_string())).unwrap();
    assert!(b.push_line(None).is_ok());
    let r = b.finish();
    assert_eq!(r.line_count, 2);
    assert!(r.is_truncated);
}

#[test]
fn only_files_are_previewed() {
    assert!(matches!(check_previewable(PathKind::Missing), Err(PreviewError::NotFound)));
    assert!(matches!(check_previewable(PathKind::Dir), Err(PreviewError::IsDirectory)));
    assert!(check_previewable(PathKind::File).is_ok());
}
