use edorifile::shell::{ShellSession, ShellStep};
use edorifile::thumbnail::ThumbErrorKind;

/// Runs a session, failing the step `fail_at` if given, and returns the
/// steps asked for.
fn drive(fail_at: Option<ShellStep>) -> (Vec<ShellStep>, ShellSession) {
    let mut s = ShellSession::new();
    let mut steps = Vec::new();
    while s.step != ShellStep::Finished {
        steps.push(s.step);
        let r = if Some(s.step) == fail_at { Err("native failure".to_string()) } else { Ok(()) };
        s.handle(r);
        assert!(steps.len() < 20);
    }
    (steps, s)
}

#[test]
fn successful_request_releases_in_order() {
    let (steps, s) = drive(None);
    assert_eq!(
        steps,
        vec![
            ShellStep::InitContext,
            ShellStep::CreateItem,
            ShellStep::RequestBitmap,
            ShellStep::CreateSurface,
            ShellStep::ReadPixels,
            ShellStep::ReleaseSurface,
            ShellStep::ReleaseBitmap,
            ShellStep::ReleaseContext,
        ]
    );
    assert!(s.succeeded());
    assert!(!s.context && !s.bitmap && !s.surface);
}

#[test]
fn failed_shell_item_still_tears_down_context() {
    let (steps, s) = drive(Some(ShellStep::CreateItem));
    assert_eq!(steps, vec![ShellStep::InitContext, ShellStep::CreateItem, ShellStep::ReleaseContext]);
    assert!(!s.succeeded());
    assert_eq!(s.failure, Some(ThumbErrorKind::NativeResourceFailure));
    assert_eq!(s.detail, "native failure");
}

#[test]
fn failed_surface_releases_bitmap_then_context() {
    let (steps, s) = drive(Some(ShellStep::CreateSurface));
    assert_eq!(
        steps[4..].to_vec(),
        vec![ShellStep::ReleaseBitmap, ShellStep::ReleaseContext]
    );
    assert_eq!(s.failure, Some(ThumbErrorKind::NativeResourceFailure));
}

#[test]
fn failed_pixel_read_is_a_decode_failure() {
    let (steps, s) = drive(Some(ShellStep::ReadPixels));
    assert_eq!(
        steps[5..].to_vec(),
        vec![ShellStep::ReleaseSurface, ShellStep::ReleaseBitmap, ShellStep::ReleaseContext]
    );
    assert_eq!(s.failure, Some(ThumbErrorKind::DecodeFailure));
    assert!(!s.bitmap && !s.surface && !s.context);
}

#[test]
fn failed_initialisation_holds_nothing() {
    let (steps, s) = drive(Some(ShellStep::InitContext));
    assert_eq!(steps, vec![ShellStep::InitContext]);
    assert!(!s.succeeded());
    assert!(!s.context);
}
