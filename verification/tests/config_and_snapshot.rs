//! Tests of the configuration defaults and of the restore decision.

use selection_text::config::{CaptureConfig, DEFAULT_TIME_OUT_MS, POLL_INTERVAL_MS};
use selection_text::image::ImageSnapshot;
use selection_text::snapshot::{ClipboardSnapshot, RestoreAction};

#[test]
fn unset_fields_select_the_documented_defaults() {
    let config = CaptureConfig { time_out_ms: None, print_time_to_copy: None };
    assert_eq!(config.effective_time_out_ms(), 80);
    assert_eq!(config.effective_time_out_ms(), DEFAULT_TIME_OUT_MS);
    assert!(!config.effective_print_time_to_copy());
    assert_eq!(POLL_INTERVAL_MS, 1);
}

#[test]
fn set_fields_are_taken_as_given() {
    let config = CaptureConfig { time_out_ms: Some(3), print_time_to_copy: Some(true) };
    assert_eq!(config.effective_time_out_ms(), 3);
    assert!(config.effective_print_time_to_copy());
}

#[test]
fn default_configuration_leaves_both_fields_unset() {
    let config = CaptureConfig::default();
    assert!(config.time_out_ms.is_none());
    assert!(config.print_time_to_copy.is_none());
}

#[test]
fn saved_text_takes_restore_priority_over_image() {
    let snapshot = ClipboardSnapshot {
        text: String::from("words"),
        image: ImageSnapshot { width: 4, height: 4, bytes: vec![0; 64] },
    };
    assert_eq!(snapshot.restore_action(), RestoreAction::WriteText);
}

#[test]
fn image_is_restored_only_without_text_and_with_width() {
    let with_image = ClipboardSnapshot {
        text: String::new(),
        image: ImageSnapshot { width: 1, height: 1, bytes: vec![0, 0, 0, 0] },
    };
    assert_eq!(with_image.restore_action(), RestoreAction::WriteImage);
    let with_flat_image = ClipboardSnapshot {
        text: String::new(),
        image: ImageSnapshot { width: 0, height: 3, bytes: vec![] },
    };
    assert_eq!(with_flat_image.restore_action(), RestoreAction::LeaveUnchanged);
}

#[test]
fn absent_reads_default_to_empty_text_and_placeholder_image() {
    let snapshot = ClipboardSnapshot::from_reads(None, None);
    assert_eq!(snapshot.text, String::new());
    assert_eq!(snapshot.image.width, 0);
    assert_eq!(snapshot.image.height, 0);
    assert!(snapshot.image.bytes.is_empty());
    assert_eq!(snapshot.restore_action(), RestoreAction::LeaveUnchanged);
}

#[test]
fn present_reads_are_kept_as_saved() {
    let snapshot = ClipboardSnapshot::from_reads(
        Some(String::from("kept")),
        Some(ImageSnapshot { width: 2, height: 2, bytes: vec![7; 16] }),
    );
    assert_eq!(snapshot.text, String::from("kept"));
    assert_eq!(snapshot.image.width, 2);
    assert_eq!(snapshot.image.bytes, vec![7; 16]);
}
