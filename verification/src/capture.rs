//! The selection-capture orchestrator: save, clear, trigger the copy
//! gesture, poll, restore, and return what was found.

use vstd::prelude::*;
use std::io::Write;
use crate::config::{CaptureConfig, POLL_INTERVAL_MS};
use crate::model::{capture_model, poll_model};
use crate::ports::{trigger_always_succeeds, ClipboardPort, ClockPort, TriggerError};
use crate::snapshot::{ClipboardSnapshot, RestoreAction};

verus! {

/// Relies on the writeln macro over std::io::stdout: prints the one
/// human-readable timing line.  The format is not a stable contract.
#[verifier::external_body]
fn print_time_to_copy_line(elapsed_ms: u64) {
    let _ = writeln!(
        std::io::stdout(),
        "Time taken to copy selection text to clipboard: {}ms",
        elapsed_ms,
    );
}

/// Returns the text currently selected in the focused application, or the
/// empty string when none is found, while returning the clipboard to its
/// pre-call state.
///
/// The protocol, in fixed order: save the clipboard's text and image, clear
/// the clipboard, issue the copy gesture through the given trigger, poll the
/// clipboard at the polling interval until text appears or the configured
/// timeout elapses, restore the saved text (or, failing text, the saved
/// image; or nothing when neither was present), and return the polled text.
/// Between two polls the given sleep function is called with the polling
/// interval; it is the loop's one yield point.
///
/// A trigger failure is fatal: the call ends at once with that error and,
/// as there is no meaningful copy to wait for, without restoring the
/// cleared clipboard.  Clipboard read and write hiccups are absorbed by the
/// ports as absent values rather than surfaced as errors.
///
/// Over deterministic ports the call is proved to agree exactly with the
/// pure capture model, on the result, the clipboard and the clock.
pub fn get_selection_text<
    C: ClipboardPort,
    K: ClockPort,
    G: Fn() -> Result<(), TriggerError>,
    S: Fn(u64),
>(
    clipboard: &mut C,
    clock: &mut K,
    trigger: G,
    sleep: S,
    config: &CaptureConfig,
) -> (r: Result<String, TriggerError>)
    requires
        call_requires(trigger, ()),
        call_requires(sleep, (POLL_INTERVAL_MS,)),
    ensures
        r matches Err(e) ==> call_ensures(trigger, (), Result::<(), TriggerError>::Err(e)),
        C::modeled() && K::modeled() && trigger_always_succeeds(trigger) ==> ({
            let outcome = capture_model(
                old(clipboard).timeline(),
                old(clock).readings(),
                config.spec_time_out_ms() as u64,
            );
            &&& r matches Ok(text) && text@ == outcome.captured
            &&& final(clipboard).timeline() == outcome.after
            &&& final(clock).readings() == outcome.clock_after
        }),
{
    // 1. Save the clipboard's existing text and image.
    let text_read = clipboard.get_text();
    let image_read = clipboard.get_image();
    let saved = ClipboardSnapshot::from_reads(text_read, image_read);

    // 2. Clear the clipboard, so that polling can tell "not yet copied"
    //    (still empty) from "copy landed" (non-empty).
    clipboard.clear();
    let ghost cleared = clipboard.timeline();

    // 3. Ask the focused application to copy its selection.
    match trigger() {
        Ok(()) => {},
        Err(e) => {
            return Err(e);
        },
    }

    // 4. Poll the clipboard until text appears or the timeout elapses.
    let time_out_ms_in_u64: u64 = config.effective_time_out_ms() as u64;
    let should_print = config.effective_print_time_to_copy();
    let ghost clock0 = clock.readings();
    let ghost polled = poll_model(cleared, clock0, time_out_ms_in_u64, (time_out_ms_in_u64 + 1) as nat);
    let mut fuel: u64 = time_out_ms_in_u64 + 1;
    let mut selection_text = String::new();
    loop
        invariant_except_break
            C::modeled() && K::modeled() ==> poll_model(
                clipboard.timeline(),
                clock.readings(),
                time_out_ms_in_u64,
                fuel as nat,
            ) == polled,
            C::modeled() && K::modeled() ==> selection_text@.len() == 0,
            time_out_ms_in_u64 <= u32::MAX as u64,
            call_requires(sleep, (POLL_INTERVAL_MS,)),
        ensures
            C::modeled() && K::modeled() ==> selection_text@ == polled.found
                && clipboard.timeline() == polled.after && clock.readings() == polled.clock_after,
        decreases fuel,
    {
        if fuel == 0 {
            // Defensive bound: with a truthful clock, one sleep per
            // iteration makes the elapsed time reach the timeout first.
            break;
        }
        fuel = fuel - 1;
        let e = clock.elapsed_ms();
        if e >= time_out_ms_in_u64 {
            proof {
                if C::modeled() && K::modeled() {
                    assert(selection_text@ =~= Seq::<char>::empty());
                }
            }
            break;
        }
        let read = clipboard.get_text();
        selection_text = match read {
            Some(s) => s,
            None => String::new(),
        };
        if !selection_text.as_str().is_empty() {
            // Record how long the copy took; the elapsed reading that let
            // this iteration run is the measurement.
            if should_print {
                print_time_to_copy_line(e);
            }
            break;
        }
        sleep(POLL_INTERVAL_MS);
    }

    // 5. Restore the clipboard's previous text or image, to keep the call
    //    free of lasting side effects; when neither was present, leave the
    //    clipboard as polling left it.
    let action = saved.restore_action();
    match action {
        RestoreAction::WriteText => clipboard.set_text(&saved.text),
        RestoreAction::WriteImage => clipboard.set_image(&saved.image),
        RestoreAction::LeaveUnchanged => {},
    }

    // 6. Return the captured selection text.
    Ok(selection_text)
}

} // verus!
