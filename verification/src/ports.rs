//! Narrow interfaces over the operating-system services the capture
//! protocol consumes: the clipboard and the polling clock, together with
//! the error type of the copy trigger, which is handed to the orchestrator
//! as a plain function.
//!
//! Each port carries a `modeled()` flag.  Deterministic in-memory
//! implementations (used to exercise the protocol) set it and are proved to
//! follow the pure model step by step; the real OS-backed implementations
//! leave it unset, because the clipboard, the wall clock and the input focus
//! are shared, racy resources about which nothing can be promised.

use vstd::prelude::*;
use crate::image::ImageSnapshot;
use crate::model::{
    clear_step, clock_head, clock_tail, opt_image_model, opt_text_model, read_text_step,
    set_image_step, set_text_step, ClipTimeline,
};

verus! {

/// Why the copy gesture could not be issued.  Either outcome is fatal for
/// the capture call: without the gesture the rest of the protocol is
/// meaningless.
#[derive(Clone, Copy, Debug, PartialEq, Eq, Structural)]
pub enum TriggerError {
    /// No handle to the OS input-injection service could be obtained.
    HandleUnavailable,
    /// A synthetic input event failed to post.
    EventFailed,
}

/// True of a copy trigger that can only succeed.  The trigger is handed to
/// the orchestrator as a plain function returning a result; it neither
/// reads nor changes any state the protocol can observe, since its effect —
/// the focused application's copy landing on the clipboard — is already
/// part of the clipboard's own timeline.
pub open spec fn trigger_always_succeeds<G: Fn() -> Result<(), TriggerError>>(trigger: G) -> bool {
    forall|o: Result<(), TriggerError>| call_ensures(trigger, (), o) ==> o is Ok
}

/// The clipboard service: a store of at most one text and one image.
pub trait ClipboardPort: Sized {
    /// True when this implementation's behaviour is captured exactly by the
    /// timeline model.
    spec fn modeled() -> bool;

    /// The timeline this clipboard is at.
    spec fn timeline(&self) -> ClipTimeline;

    /// Read the clipboard's text, observing any arrival that has landed.
    fn get_text(&mut self) -> (r: Option<String>)
        ensures
            Self::modeled() ==> final(self).timeline() == read_text_step(old(self).timeline()).0
                && opt_text_model(r) == read_text_step(old(self).timeline()).1,
    ;

    /// Read the clipboard's image, leaving the clipboard as it is.
    fn get_image(&mut self) -> (r: Option<ImageSnapshot>)
        ensures
            Self::modeled() ==> final(self).timeline() == old(self).timeline()
                && opt_image_model(r) == old(self).timeline().image,
    ;

    /// Remove both text and image from the clipboard.
    fn clear(&mut self)
        ensures
            Self::modeled() ==> final(self).timeline() == clear_step(old(self).timeline()),
    ;

    /// Leave the clipboard holding exactly the given text.
    fn set_text(&mut self, text: &String)
        ensures
            Self::modeled() ==> final(self).timeline() == set_text_step(
                old(self).timeline(),
                text@,
            ),
    ;

    /// Leave the clipboard holding exactly the given image.
    fn set_image(&mut self, image: &ImageSnapshot)
        ensures
            Self::modeled() ==> final(self).timeline() == set_image_step(
                old(self).timeline(),
                image.model(),
            ),
    ;
}

/// The polling clock: elapsed time since polling began.  The voluntary
/// sleep between two polls is not part of the port; the orchestrator takes
/// it as a plain function, since it neither reads nor changes any state the
/// protocol can observe.
pub trait ClockPort: Sized {
    /// True when this implementation's behaviour is captured exactly by the
    /// reading-script model.
    spec fn modeled() -> bool;

    /// The elapsed-time readings this clock will hand out, in order.
    spec fn readings(&self) -> Seq<u64>;

    /// The elapsed time since polling began, in milliseconds.
    fn elapsed_ms(&mut self) -> (e: u64)
        ensures
            Self::modeled() ==> e == clock_head(old(self).readings()) && final(self).readings()
                == clock_tail(old(self).readings()),
    ;
}

} // verus!
