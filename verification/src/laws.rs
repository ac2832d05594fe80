//! The laws of the capture protocol, proved over the pure model.
//!
//! Together with the orchestrator's deterministic contract these carry the
//! laws over to the code itself: whatever holds of `capture_model` holds of
//! `get_selection_text` run over modelled ports.

use vstd::prelude::*;
use crate::config::{CaptureConfig, DEFAULT_TIME_OUT_MS};
use crate::model::{
    capture_model, clear_step, clock_head, clock_tail, no_arrivals, poll_model, read_text_step,
    text_or_empty, ClipTimeline,
};

verus! {

/// While no copy ever lands and the clipboard holds no text, polling finds
/// nothing: the result is empty, the clipboard still holds no text, and its
/// image is untouched.
pub proof fn lemma_poll_no_arrival_finds_nothing(
    clip: ClipTimeline,
    clock: Seq<u64>,
    time_out_ms: u64,
    fuel: nat,
)
    requires
        clip.text is None,
        no_arrivals(clip),
    ensures
        poll_model(clip, clock, time_out_ms, fuel).found.len() == 0,
        poll_model(clip, clock, time_out_ms, fuel).after.text is None,
        poll_model(clip, clock, time_out_ms, fuel).after.image == clip.image,
    decreases fuel,
{
    if fuel == 0 {
    } else {
        let e = clock_head(clock);
        if e >= time_out_ms {
        } else {
            let stepped = read_text_step(clip);
            assert(stepped.1 is None);
            assert forall|i: int| 0 <= i < stepped.0.arrivals.len() implies stepped.0.arrivals[i]
                is None by {
                assert(stepped.0.arrivals[i] == clip.arrivals[i + 1]);
            }
            lemma_poll_no_arrival_finds_nothing(
                stepped.0,
                clock_tail(clock),
                time_out_ms,
                (fuel - 1) as nat,
            );
        }
    }
}

/// Idempotence of side effects: when the clipboard already holds non-empty
/// text and the target application never copies anything, the capture
/// returns the empty string and the clipboard afterwards holds exactly the
/// pre-call text.
pub proof fn lemma_capture_preserves_existing_text(
    clip: ClipTimeline,
    clock: Seq<u64>,
    time_out_ms: u64,
)
    requires
        clip.text matches Some(t) && t.len() > 0,
        no_arrivals(clip),
    ensures
        capture_model(clip, clock, time_out_ms).captured.len() == 0,
        capture_model(clip, clock, time_out_ms).after.text == clip.text,
{
    let first = read_text_step(clip);
    assert(first.0 == clip);
    let cleared = clear_step(first.0);
    lemma_poll_no_arrival_finds_nothing(cleared, clock, time_out_ms, (time_out_ms + 1) as nat);
}

/// Image preservation: when the clipboard holds an image of non-zero width
/// and no text, and the target application never copies anything, the
/// capture returns the empty string and the clipboard afterwards holds
/// exactly that image and still no text.
pub proof fn lemma_capture_preserves_image(clip: ClipTimeline, clock: Seq<u64>, time_out_ms: u64)
    requires
        clip.text is None,
        clip.image matches Some(img) && img.width > 0,
        no_arrivals(clip),
    ensures
        capture_model(clip, clock, time_out_ms).captured.len() == 0,
        capture_model(clip, clock, time_out_ms).after.image == clip.image,
        capture_model(clip, clock, time_out_ms).after.text is None,
{
    let first = read_text_step(clip);
    assert(first.1 is None);
    assert(first.0.image == clip.image);
    assert forall|i: int| 0 <= i < first.0.arrivals.len() implies first.0.arrivals[i]
        is None by {
        if clip.arrivals.len() > 0 {
            assert(first.0.arrivals[i] == clip.arrivals[i + 1]);
        }
    }
    let cleared = clear_step(first.0);
    lemma_poll_no_arrival_finds_nothing(cleared, clock, time_out_ms, (time_out_ms + 1) as nat);
}

/// Empty-start restore skip: when the clipboard starts with no text and no
/// image and the target application never copies anything, the capture
/// returns the empty string and the clipboard is still empty afterwards —
/// nothing is spuriously written back.
pub proof fn lemma_capture_empty_start_stays_empty(
    clip: ClipTimeline,
    clock: Seq<u64>,
    time_out_ms: u64,
)
    requires
        clip.text is None,
        clip.image is None,
        no_arrivals(clip),
    ensures
        capture_model(clip, clock, time_out_ms).captured.len() == 0,
        capture_model(clip, clock, time_out_ms).after.text is None,
        capture_model(clip, clock, time_out_ms).after.image is None,
{
    let first = read_text_step(clip);
    assert(first.1 is None);
    assert forall|i: int| 0 <= i < first.0.arrivals.len() implies first.0.arrivals[i]
        is None by {
        if clip.arrivals.len() > 0 {
            assert(first.0.arrivals[i] == clip.arrivals[i + 1]);
        }
    }
    let cleared = clear_step(first.0);
    lemma_poll_no_arrival_finds_nothing(cleared, clock, time_out_ms, (time_out_ms + 1) as nat);
}

/// Timeout boundary, upper side: the moment an elapsed reading reaches the
/// timeout, polling ends — no further clipboard read happens — and the
/// result is the empty string.
pub proof fn lemma_poll_stops_at_deadline(
    clip: ClipTimeline,
    clock: Seq<u64>,
    time_out_ms: u64,
    fuel: nat,
)
    requires
        fuel > 0,
        clock_head(clock) >= time_out_ms,
    ensures
        poll_model(clip, clock, time_out_ms, fuel).found.len() == 0,
        poll_model(clip, clock, time_out_ms, fuel).after == clip,
        poll_model(clip, clock, time_out_ms, fuel).clock_after == clock_tail(clock),
{
}

/// Timeout boundary, lower side: polling never gives up early.  While every
/// reading the clock hands out is still below the timeout and no copy ever
/// lands, the loop keeps reading: it consumes the whole clock script.
pub proof fn lemma_poll_outlasts_early_readings(
    clip: ClipTimeline,
    clock: Seq<u64>,
    time_out_ms: u64,
    fuel: nat,
)
    requires
        clip.text is None,
        no_arrivals(clip),
        forall|i: int| 0 <= i < clock.len() ==> clock[i] < time_out_ms,
        fuel > clock.len(),
    ensures
        poll_model(clip, clock, time_out_ms, fuel).clock_after.len() == 0,
    decreases fuel,
{
    if clock.len() == 0 {
    } else {
        let e = clock_head(clock);
        assert(e < time_out_ms);
        let stepped = read_text_step(clip);
        assert(stepped.1 is None);
        assert forall|i: int| 0 <= i < stepped.0.arrivals.len() implies stepped.0.arrivals[i]
            is None by {
            assert(stepped.0.arrivals[i] == clip.arrivals[i + 1]);
        }
        assert forall|i: int| 0 <= i < clock_tail(clock).len() implies clock_tail(clock)[i]
            < time_out_ms by {
            assert(clock_tail(clock)[i] == clock[i + 1]);
        }
        lemma_poll_outlasts_early_readings(
            stepped.0,
            clock_tail(clock),
            time_out_ms,
            (fuel - 1) as nat,
        );
    }
}

/// While the first arrivals find nothing, polling reads on and returns the
/// first landed copy, provided the clock stays below the timeout up to that
/// read and the defensive iteration bound has not run out.
pub proof fn lemma_poll_finds_arrival(
    clip: ClipTimeline,
    clock: Seq<u64>,
    time_out_ms: u64,
    fuel: nat,
    k: int,
)
    requires
        clip.text is None,
        0 <= k < clip.arrivals.len(),
        forall|i: int| 0 <= i < k ==> clip.arrivals[i] is None,
        clip.arrivals[k] matches Some(s) && s.len() > 0,
        k < clock.len(),
        forall|i: int| 0 <= i <= k ==> clock[i] < time_out_ms,
        fuel > k,
    ensures
        poll_model(clip, clock, time_out_ms, fuel).found == text_or_empty(clip.arrivals[k]),
        poll_model(clip, clock, time_out_ms, fuel).after.text == clip.arrivals[k],
        poll_model(clip, clock, time_out_ms, fuel).after.image == clip.image,
    decreases k,
{
    assert(clock_head(clock) == clock[0]);
    let stepped = read_text_step(clip);
    if k == 0 {
        assert(stepped.1 == clip.arrivals[0]);
    } else {
        assert(clip.arrivals[0] is None);
        assert(stepped.1 is None);
        assert(stepped.0.arrivals == clip.arrivals.skip(1));
        assert(stepped.0.arrivals[k - 1] == clip.arrivals[k]);
        assert forall|i: int| 0 <= i < k - 1 implies stepped.0.arrivals[i] is None by {
            assert(stepped.0.arrivals[i] == clip.arrivals[i + 1]);
        }
        assert forall|i: int| 0 <= i <= k - 1 implies clock_tail(clock)[i] < time_out_ms by {
            assert(clock_tail(clock)[i] == clock[i + 1]);
            assert(clock[i + 1] < time_out_ms);
        }
        lemma_poll_finds_arrival(
            stepped.0,
            clock_tail(clock),
            time_out_ms,
            (fuel - 1) as nat,
            k - 1,
        );
    }
}

/// Selection round-trip: when the clipboard starts with non-empty text and
/// the target application's copy of a non-empty selection lands within the
/// timeout — after `k` empty polls, with every reading up to that point
/// below the timeout and `k` within the defensive iteration bound — the
/// capture returns exactly the selection, and the clipboard afterwards
/// holds the pre-call text again, not the selection.
pub proof fn lemma_capture_round_trip(
    clip: ClipTimeline,
    clock: Seq<u64>,
    time_out_ms: u64,
    k: int,
)
    requires
        clip.text matches Some(t) && t.len() > 0,
        0 <= k < clip.arrivals.len(),
        forall|i: int| 0 <= i < k ==> clip.arrivals[i] is None,
        clip.arrivals[k] matches Some(s) && s.len() > 0,
        k < clock.len(),
        forall|i: int| 0 <= i <= k ==> clock[i] < time_out_ms,
        k <= time_out_ms,
    ensures
        capture_model(clip, clock, time_out_ms).captured == text_or_empty(clip.arrivals[k]),
        capture_model(clip, clock, time_out_ms).after.text == clip.text,
{
    let first = read_text_step(clip);
    assert(first.0 == clip);
    let cleared = clear_step(first.0);
    lemma_poll_finds_arrival(cleared, clock, time_out_ms, (time_out_ms + 1) as nat, k);
}

/// Default values: a configuration that leaves the timeout unset behaves
/// exactly as one that sets it to the documented default.
pub proof fn lemma_default_timeout_behaviour(
    clip: ClipTimeline,
    clock: Seq<u64>,
    unset: CaptureConfig,
    explicit: CaptureConfig,
)
    requires
        unset.time_out_ms is None,
        explicit.time_out_ms == Some(DEFAULT_TIME_OUT_MS),
    ensures
        unset.spec_time_out_ms() == explicit.spec_time_out_ms(),
        capture_model(clip, clock, unset.spec_time_out_ms() as u64) == capture_model(
            clip,
            clock,
            explicit.spec_time_out_ms() as u64,
        ),
{
}

} // verus!
