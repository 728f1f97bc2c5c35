use scrabber::writer::bytes_equal;
use scrabber::{ConfigError, ScreenshotWriter, Timestamp, WriteError, WriteOutcome, WritePlan};
use std::path::PathBuf;

fn sample_ts() -> Timestamp {
    Timestamp { year: 2027, month: 6, day: 20, hour: 10, minute: 6, second: 37 }
}

#[test]
fn sswriter_constructor_should_set_full_path_write_folder() {
    let tmp_path = PathBuf::from("./");
    let ssr = ScreenshotWriter::new(String::from("./")).unwrap();
    let expected_full_path = std::path::absolute(&tmp_path).unwrap();
    assert_ne!(tmp_path, expected_full_path);
    assert_eq!(PathBuf::from(ssr.write_folder()), expected_full_path);
}

#[test]
fn should_skip_duplicate_screenshots_when_enabled() {
    let mut ssw = ScreenshotWriter::new(String::from("./")).unwrap();

    // Simulate having a previous screenshot by recording a successful write
    let test_image = vec![1u8, 2, 3, 4, 5];
    ssw.finish_write(test_image.clone(), true);

    // Identical images are detected
    assert!(ssw.images_are_identical(&test_image));

    // Different images are not detected as identical
    let different_image = vec![5u8, 4, 3, 2, 1];
    assert!(!ssw.images_are_identical(&different_image));

    // With no previous screenshot nothing matches
    let new_ssw = ScreenshotWriter::new(String::from("./")).unwrap();
    assert!(!new_ssw.images_are_identical(&test_image));
}

#[test]
fn empty_root_path_is_a_config_error() {
    let r = ScreenshotWriter::new(String::new());
    assert!(matches!(r, Err(ConfigError::UnresolvablePath)));
}

#[test]
fn resolved_root_is_absolute() {
    let w = ScreenshotWriter::new(String::from("some/relative/dir")).unwrap();
    assert!(w.write_folder().starts_with('/'));
}

#[test]
fn date_folder_path_at_joins_root_and_date() {
    let w = ScreenshotWriter::from_absolute(String::from("/tmp/x"));
    assert_eq!(w.date_folder_path_at(&sample_ts()), "/tmp/x/2027-06-20");
}

#[test]
fn file_path_at_joins_day_folder_and_timestamp_name() {
    let w = ScreenshotWriter::from_absolute(String::from("/tmp/x"));
    assert_eq!(
        w.file_path_at(&sample_ts()),
        "/tmp/x/2027-06-20/2027-06-20T10.06.37.png"
    );
}

#[test]
fn date_folder_path_uses_the_current_date() {
    let w = ScreenshotWriter::from_absolute(String::from("/tmp/x"));
    let before = ScreenshotWriter::today_directory_name();
    let got = w.date_folder_path();
    let after = ScreenshotWriter::today_directory_name();
    // The date may roll over between the reads; either read must match.
    assert!(got == format!("/tmp/x/{}", before) || got == format!("/tmp/x/{}", after));
}

#[test]
fn plan_write_saves_a_fresh_capture() {
    let w = ScreenshotWriter::from_absolute(String::from("/tmp/x"));
    let image = vec![1u8, 2, 3];
    match w.plan_write(true, &image, &sample_ts()) {
        WritePlan::Save { dir, file } => {
            assert_eq!(dir, "/tmp/x/2027-06-20");
            assert_eq!(file, "/tmp/x/2027-06-20/2027-06-20T10.06.37.png");
        }
        WritePlan::Skip => panic!("a fresh capture must be saved"),
    }
}

#[test]
fn plan_write_skips_only_with_the_flag() {
    let mut w = ScreenshotWriter::from_absolute(String::from("/tmp/x"));
    let image = vec![1u8, 2, 3];
    w.finish_write(image.clone(), true);
    assert!(matches!(w.plan_write(true, &image, &sample_ts()), WritePlan::Skip));
    // Suppression off: the duplicate is still saved
    assert!(matches!(w.plan_write(false, &image, &sample_ts()), WritePlan::Save { .. }));
    // A different capture is saved even with suppression on
    let other = vec![9u8, 9, 9];
    assert!(matches!(w.plan_write(true, &other, &sample_ts()), WritePlan::Save { .. }));
}

#[test]
fn failed_write_never_becomes_the_baseline() {
    let mut w = ScreenshotWriter::from_absolute(String::from("/tmp/x"));
    let first = vec![1u8, 2, 3];
    w.finish_write(first.clone(), true);
    let second = vec![4u8, 5, 6];
    w.finish_write(second.clone(), false);
    assert!(w.images_are_identical(&first));
    assert!(!w.images_are_identical(&second));
}

#[test]
fn write_screenshot_reports_capture_failure_and_keeps_baseline() {
    let mut w = ScreenshotWriter::from_absolute(String::from("/tmp/x"));
    let baseline = vec![1u8, 2, 3];
    w.finish_write(baseline.clone(), true);
    let r = w.write_screenshot(false, None, true, &sample_ts());
    assert_eq!(r.unwrap_err(), WriteError::CaptureFailed);
    assert!(w.images_are_identical(&baseline));
}

#[test]
fn write_screenshot_reports_io_failure_and_keeps_baseline() {
    let mut w = ScreenshotWriter::from_absolute(String::from("/tmp/x"));
    let baseline = vec![1u8, 2, 3];
    w.finish_write(baseline.clone(), true);
    let fresh = vec![7u8, 7, 7];
    let r = w.write_screenshot(false, Some(fresh.clone()), false, &sample_ts());
    assert_eq!(r.unwrap_err(), WriteError::IoFailed);
    assert!(w.images_are_identical(&baseline));
    assert!(!w.images_are_identical(&fresh));
}

#[test]
fn write_screenshot_writes_and_moves_the_baseline() {
    let mut w = ScreenshotWriter::from_absolute(String::from("/tmp/x"));
    let image = vec![1u8, 2, 3];
    let r = w.write_screenshot(false, Some(image.clone()), true, &sample_ts());
    match r.unwrap() {
        WriteOutcome::Written(p) => {
            assert_eq!(p, "/tmp/x/2027-06-20/2027-06-20T10.06.37.png");
        }
        WriteOutcome::Skipped => panic!("a fresh capture must be written"),
    }
    assert!(w.images_are_identical(&image));
}

#[test]
fn write_screenshot_skips_an_identical_capture() {
    let mut w = ScreenshotWriter::from_absolute(String::from("/tmp/x"));
    let image = vec![1u8, 2, 3];
    w.write_screenshot(true, Some(image.clone()), true, &sample_ts()).unwrap();
    let r = w.write_screenshot(true, Some(image.clone()), true, &sample_ts());
    assert!(matches!(r.unwrap(), WriteOutcome::Skipped));
}

#[test]
fn bytes_equal_compares_exactly() {
    assert!(bytes_equal(&[], &[]));
    assert!(bytes_equal(&[1u8, 2, 3], &[1u8, 2, 3]));
    assert!(!bytes_equal(&[1u8, 2, 3], &[1u8, 2, 4]));
    assert!(!bytes_equal(&[1u8, 2, 3], &[1u8, 2]));
}
