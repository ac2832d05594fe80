//! Scenario tests for the capture protocol, run over the deterministic
//! in-memory ports.

use selection_text::capture::get_selection_text;
use selection_text::config::CaptureConfig;
use selection_text::image::ImageSnapshot;
use selection_text::ports::TriggerError;
use selection_text::script::{script_trigger, ScriptClock, ScriptedClipboard};

fn quiet_config(time_out_ms: Option<u32>) -> CaptureConfig {
    CaptureConfig { time_out_ms, print_time_to_copy: Some(false) }
}

#[test]
fn restores_preexisting_text_and_returns_empty() {
    let mut clipboard = ScriptedClipboard {
        text: Some(String::from("hello")),
        image: None,
        arrivals: vec![None, None, None, None, None],
    };
    let mut clock = ScriptClock { script: vec![0, 1, 2, 3, 4, 5] };
    let result = get_selection_text(&mut clipboard, &mut clock, script_trigger, |_| {}, &quiet_config(Some(80)));
    assert_eq!(result.unwrap(), String::new());
    assert_eq!(clipboard.text, Some(String::from("hello")));
    assert!(clipboard.image.is_none());
}

#[test]
fn round_trip_returns_selection_and_restores_clipboard() {
    let mut clipboard = ScriptedClipboard {
        text: Some(String::from("old contents")),
        image: None,
        arrivals: vec![None, None, Some(String::from("SELECTION"))],
    };
    let mut clock = ScriptClock { script: vec![0, 1, 2, 9] };
    let result = get_selection_text(&mut clipboard, &mut clock, script_trigger, |_| {}, &quiet_config(Some(80)));
    assert_eq!(result.unwrap(), String::from("SELECTION"));
    assert_eq!(clipboard.text, Some(String::from("old contents")));
    assert!(clipboard.image.is_none());
}

#[test]
fn times_out_with_empty_result_when_nothing_arrives() {
    let mut arrivals: Vec<Option<String>> = Vec::new();
    for _ in 0..200 {
        arrivals.push(None);
    }
    let script: Vec<u64> = (0..=80).collect();
    let mut clipboard = ScriptedClipboard { text: None, image: None, arrivals };
    let mut clock = ScriptClock { script };
    let result = get_selection_text(&mut clipboard, &mut clock, script_trigger, |_| {}, &quiet_config(Some(80)));
    assert_eq!(result.unwrap(), String::new());
    // Every reading below the timeout led to one more poll; the reading
    // that hit the deadline ended the loop at once.  One further arrival
    // went to the read that opened the capture.
    assert_eq!(clock.script.len(), 0);
    assert_eq!(clipboard.arrivals.len(), 119);
    assert!(clipboard.text.is_none());
}

#[test]
fn deadline_reading_stops_polling_before_any_read() {
    let mut clipboard = ScriptedClipboard {
        text: None,
        image: None,
        arrivals: vec![None, Some(String::from("too late"))],
    };
    let mut clock = ScriptClock { script: vec![80] };
    let result = get_selection_text(&mut clipboard, &mut clock, script_trigger, |_| {}, &quiet_config(Some(80)));
    assert_eq!(result.unwrap(), String::new());
    // The arrival was never read: no clipboard read happened past the deadline.
    assert_eq!(clipboard.arrivals.len(), 1);
    assert!(clipboard.text.is_none());
}

#[test]
fn image_is_restored_when_no_text_was_held() {
    let mut clipboard = ScriptedClipboard {
        text: None,
        image: Some(ImageSnapshot { width: 2, height: 1, bytes: vec![1, 2, 3, 4, 5, 6, 7, 8] }),
        arrivals: vec![None, None, None],
    };
    let mut clock = ScriptClock { script: vec![0, 1, 2] };
    let result = get_selection_text(&mut clipboard, &mut clock, script_trigger, |_| {}, &quiet_config(Some(80)));
    assert_eq!(result.unwrap(), String::new());
    assert!(clipboard.text.is_none());
    let image = clipboard.image.expect("the image must be back on the clipboard");
    assert_eq!(image.width, 2);
    assert_eq!(image.height, 1);
    assert_eq!(image.bytes, vec![1, 2, 3, 4, 5, 6, 7, 8]);
}

#[test]
fn zero_width_image_is_not_restored() {
    let mut clipboard = ScriptedClipboard {
        text: None,
        image: Some(ImageSnapshot { width: 0, height: 7, bytes: vec![9, 9] }),
        arrivals: vec![None],
    };
    let mut clock = ScriptClock { script: vec![0, 1] };
    let result = get_selection_text(&mut clipboard, &mut clock, script_trigger, |_| {}, &quiet_config(Some(80)));
    assert_eq!(result.unwrap(), String::new());
    assert!(clipboard.text.is_none());
    assert!(clipboard.image.is_none());
}

#[test]
fn empty_start_leaves_clipboard_empty() {
    let mut clipboard = ScriptedClipboard { text: None, image: None, arrivals: vec![None, None] };
    let mut clock = ScriptClock { script: vec![0, 1, 2] };
    let result = get_selection_text(&mut clipboard, &mut clock, script_trigger, |_| {}, &quiet_config(Some(80)));
    assert_eq!(result.unwrap(), String::new());
    assert!(clipboard.text.is_none());
    assert!(clipboard.image.is_none());
}

#[test]
fn no_configuration_behaves_like_the_explicit_default() {
    let run = |config: &CaptureConfig| {
        let mut clipboard = ScriptedClipboard {
            text: Some(String::from("keep me")),
            image: None,
            arrivals: vec![None, Some(String::from("picked"))],
        };
        let mut clock = ScriptClock { script: vec![0, 40, 79] };
            let result =
            get_selection_text(&mut clipboard, &mut clock, script_trigger, |_| {}, config).unwrap();
        (result, clipboard.text, clock.script.len())
    };
    let with_defaults = run(&CaptureConfig { time_out_ms: None, print_time_to_copy: None });
    let with_explicit = run(&quiet_config(Some(80)));
    assert_eq!(with_defaults, with_explicit);
    assert_eq!(with_defaults.0, String::from("picked"));
    assert_eq!(with_defaults.1, Some(String::from("keep me")));
}

#[test]
fn selection_with_empty_pre_clipboard_is_not_clobbered_by_restore() {
    // When nothing was on the clipboard before the call, the restore step
    // is skipped, so the captured selection is what the clipboard holds
    // afterwards.
    let mut clipboard = ScriptedClipboard {
        text: None,
        image: None,
        arrivals: vec![None, Some(String::from("fresh"))],
    };
    let mut clock = ScriptClock { script: vec![0, 1, 2] };
    let result = get_selection_text(&mut clipboard, &mut clock, script_trigger, |_| {}, &quiet_config(Some(80)));
    assert_eq!(result.unwrap(), String::from("fresh"));
    assert_eq!(clipboard.text, Some(String::from("fresh")));
}

#[test]
fn empty_string_arrival_counts_as_nothing_found() {
    let mut clipboard = ScriptedClipboard {
        text: None,
        image: None,
        arrivals: vec![Some(String::new()), None],
    };
    let mut clock = ScriptClock { script: vec![0, 1, 2] };
    let result = get_selection_text(&mut clipboard, &mut clock, script_trigger, |_| {}, &quiet_config(Some(80)));
    assert_eq!(result.unwrap(), String::new());
}

#[test]
fn failed_event_post_aborts_the_call_without_restoring() {
    let mut clipboard = ScriptedClipboard {
        text: Some(String::from("gone")),
        image: None,
        arrivals: vec![],
    };
    let mut clock = ScriptClock { script: vec![0, 1] };
    let result = get_selection_text(
        &mut clipboard,
        &mut clock,
        || Err(TriggerError::EventFailed),
        |_| {},
        &quiet_config(Some(80)),
    );
    assert_eq!(result, Err(TriggerError::EventFailed));
    // The failure is fatal: the call ended after the clear, with no
    // restoration attempted and no polling done.
    assert!(clipboard.text.is_none());
    assert_eq!(clock.script.len(), 2);
}

#[test]
fn missing_injection_handle_aborts_the_call() {
    let mut clipboard = ScriptedClipboard { text: None, image: None, arrivals: vec![] };
    let mut clock = ScriptClock { script: vec![] };
    let result = get_selection_text(
        &mut clipboard,
        &mut clock,
        || Err(TriggerError::HandleUnavailable),
        |_| {},
        &quiet_config(None),
    );
    assert_eq!(result, Err(TriggerError::HandleUnavailable));
}

#[test]
fn zero_timeout_polls_nothing_and_returns_empty() {
    let mut clipboard = ScriptedClipboard {
        text: Some(String::from("stay")),
        image: None,
        arrivals: vec![Some(String::from("never read"))],
    };
    let mut clock = ScriptClock { script: vec![0] };
    let result = get_selection_text(&mut clipboard, &mut clock, script_trigger, |_| {}, &quiet_config(Some(0)));
    assert_eq!(result.unwrap(), String::new());
    assert_eq!(clipboard.text, Some(String::from("stay")));
    assert_eq!(clipboard.arrivals.len(), 1);
}
