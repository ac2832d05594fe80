//! Pure model of one capture operation.
//!
//! The clipboard is modelled as a timeline: the text and the image it holds
//! now, together with the sequence of observations that future text reads
//! will make while the clipboard holds no text (`arrivals`).  An arrival of
//! `Some(s)` means that by the time of that read the focused application's
//! copy has landed with text `s`; `None` means nothing has landed yet.  The
//! polling clock is modelled as the sequence of elapsed-time readings it
//! will hand out, in milliseconds since polling began.
//!
//! The functions here say exactly what the capture operation does to such a
//! timeline; the verified orchestrator is proved equal to them whenever its
//! ports are deterministic.

use vstd::prelude::*;

verus! {

/// Mathematical value of a clipboard image: its dimensions and raw bytes.
#[verifier::ext_equal]
pub struct ImageModel {
    pub width: nat,
    pub height: nat,
    pub bytes: Seq<u8>,
}

/// Model of the clipboard over the course of one capture.
#[verifier::ext_equal]
pub struct ClipTimeline {
    /// The text the clipboard holds now, if any.
    pub text: Option<Seq<char>>,
    /// The image the clipboard holds now, if any.
    pub image: Option<ImageModel>,
    /// What each future text read observes arriving while the clipboard
    /// holds no text.
    pub arrivals: Seq<Option<Seq<char>>>,
}

/// The zero-dimension image that stands for "no image".
pub open spec fn placeholder_image() -> ImageModel {
    ImageModel { width: 0, height: 0, bytes: Seq::empty() }
}

/// The text of a read, with absence defaulted to the empty string.
pub open spec fn text_or_empty(o: Option<Seq<char>>) -> Seq<char> {
    match o {
        Some(s) => s,
        None => Seq::empty(),
    }
}

/// The image of a read, with absence defaulted to the placeholder.
pub open spec fn image_or_placeholder(o: Option<ImageModel>) -> ImageModel {
    match o {
        Some(i) => i,
        None => placeholder_image(),
    }
}

/// One text read.  A present text is returned unchanged; otherwise the read
/// observes the next arrival, which lands on the clipboard if it is text.
pub open spec fn read_text_step(t: ClipTimeline) -> (ClipTimeline, Option<Seq<char>>) {
    match t.text {
        Some(s) => (t, Some(s)),
        None => {
            if t.arrivals.len() > 0 {
                let rest = t.arrivals.skip(1);
                match t.arrivals[0] {
                    Some(s) => (
                        ClipTimeline { text: Some(s), image: t.image, arrivals: rest },
                        Some(s),
                    ),
                    None => (ClipTimeline { text: None, image: t.image, arrivals: rest }, None),
                }
            } else {
                (t, None)
            }
        },
    }
}

/// Clearing the clipboard removes both text and image.
pub open spec fn clear_step(t: ClipTimeline) -> ClipTimeline {
    ClipTimeline { text: None, image: None, arrivals: t.arrivals }
}

/// Writing text leaves the clipboard holding exactly that text.
pub open spec fn set_text_step(t: ClipTimeline, s: Seq<char>) -> ClipTimeline {
    ClipTimeline { text: Some(s), image: None, arrivals: t.arrivals }
}

/// Writing an image leaves the clipboard holding exactly that image.
pub open spec fn set_image_step(t: ClipTimeline, img: ImageModel) -> ClipTimeline {
    ClipTimeline { text: None, image: Some(img), arrivals: t.arrivals }
}

/// The next elapsed-time reading of a clock script.  An exhausted script
/// reads as the largest value, which ends any poll loop.
pub open spec fn clock_head(readings: Seq<u64>) -> u64 {
    if readings.len() > 0 {
        readings[0]
    } else {
        u64::MAX
    }
}

/// A clock script after one reading.
pub open spec fn clock_tail(readings: Seq<u64>) -> Seq<u64> {
    if readings.len() > 0 {
        readings.skip(1)
    } else {
        readings
    }
}

/// Outcome of the poll phase: the text found (empty when none arrived in
/// time), and the clipboard and clock afterwards.
#[verifier::ext_equal]
pub struct PollOutcome {
    pub found: Seq<char>,
    pub after: ClipTimeline,
    pub clock_after: Seq<u64>,
}

/// The poll phase.  While the elapsed time read from the clock is below the
/// timeout, the clipboard text is read; a non-empty read ends the phase with
/// that text, and reaching the timeout ends it with the empty string.  The
/// fuel is a defensive bound on the number of iterations; one sleep of the
/// polling interval separates two iterations, so with a truthful clock the
/// elapsed time reaches any timeout before a fuel of timeout-plus-one runs
/// out, and the bound never bites.
pub open spec fn poll_model(
    clip: ClipTimeline,
    clock: Seq<u64>,
    time_out_ms: u64,
    fuel: nat,
) -> PollOutcome
    decreases fuel,
{
    if fuel == 0 {
        PollOutcome { found: Seq::empty(), after: clip, clock_after: clock }
    } else {
        let e = clock_head(clock);
        if e >= time_out_ms {
            PollOutcome { found: Seq::empty(), after: clip, clock_after: clock_tail(clock) }
        } else {
            let stepped = read_text_step(clip);
            let read = text_or_empty(stepped.1);
            if read.len() > 0 {
                PollOutcome { found: read, after: stepped.0, clock_after: clock_tail(clock) }
            } else {
                poll_model(stepped.0, clock_tail(clock), time_out_ms, (fuel - 1) as nat)
            }
        }
    }
}

/// The restore phase: saved text that was non-empty is written back; failing
/// that, a saved image of non-zero width is written back; failing that, the
/// clipboard is left exactly as polling left it.
pub open spec fn restore_step(
    saved_text: Seq<char>,
    saved_image: ImageModel,
    polled: ClipTimeline,
) -> ClipTimeline {
    if saved_text.len() > 0 {
        set_text_step(polled, saved_text)
    } else if saved_image.width > 0 {
        set_image_step(polled, saved_image)
    } else {
        polled
    }
}

/// Outcome of a whole capture: the text returned to the caller, and the
/// clipboard and clock afterwards.
#[verifier::ext_equal]
pub struct CaptureOutcome {
    pub captured: Seq<char>,
    pub after: ClipTimeline,
    pub clock_after: Seq<u64>,
}

/// One whole capture operation: save the clipboard's text and image, clear
/// it, poll for the copied selection, restore what was saved, and hand the
/// polled text to the caller.
pub open spec fn capture_model(clip: ClipTimeline, clock: Seq<u64>, time_out_ms: u64) -> CaptureOutcome {
    let first = read_text_step(clip);
    let saved_text = text_or_empty(first.1);
    let saved_image = image_or_placeholder(first.0.image);
    let cleared = clear_step(first.0);
    let polled = poll_model(cleared, clock, time_out_ms, (time_out_ms + 1) as nat);
    let restored = restore_step(saved_text, saved_image, polled.after);
    CaptureOutcome { captured: polled.found, after: restored, clock_after: polled.clock_after }
}

/// The mathematical value of an optional text read.
pub open spec fn opt_text_model(o: Option<String>) -> Option<Seq<char>> {
    match o {
        Some(s) => Some(s@),
        None => None,
    }
}

/// The mathematical value of an optional image read.
pub open spec fn opt_image_model(o: Option<crate::image::ImageSnapshot>) -> Option<ImageModel> {
    match o {
        Some(i) => Some(i.model()),
        None => None,
    }
}

/// True when no copy ever lands during the modelled capture.
pub open spec fn no_arrivals(t: ClipTimeline) -> bool {
    forall|i: int| 0 <= i < t.arrivals.len() ==> t.arrivals[i] is None
}

} // verus!
