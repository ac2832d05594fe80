//! The clipboard's content at the moment capture begins, and the decision
//! of how to put it back afterwards.

use vstd::prelude::*;
use crate::image::ImageSnapshot;
use crate::model::{image_or_placeholder, opt_image_model, opt_text_model, text_or_empty};

verus! {

/// The clipboard content saved at the start of a capture.  Absent text is
/// held as the empty string and an absent image as the zero-dimension
/// placeholder, so at most one of the two is meaningfully restorable; text
/// takes restoration priority over the image if both are present.
pub struct ClipboardSnapshot {
    pub text: String,
    pub image: ImageSnapshot,
}

/// What the restore phase does to the clipboard.
#[derive(Clone, Copy, Debug, PartialEq, Eq, Structural)]
pub enum RestoreAction {
    /// Write the saved text back.
    WriteText,
    /// Write the saved image back.
    WriteImage,
    /// Leave the clipboard exactly as polling left it.
    LeaveUnchanged,
}

impl ClipboardSnapshot {
    /// The restore decision this snapshot calls for.
    pub open spec fn spec_restore_action(&self) -> RestoreAction {
        if self.text@.len() > 0 {
            RestoreAction::WriteText
        } else if self.image.spec_is_present() {
            RestoreAction::WriteImage
        } else {
            RestoreAction::LeaveUnchanged
        }
    }

    /// Build the snapshot from the two reads that open a capture, defaulting
    /// absent text to the empty string and an absent image to the
    /// zero-dimension placeholder.
    pub fn from_reads(text: Option<String>, image: Option<ImageSnapshot>) -> (s: Self)
        ensures
            s.text@ == text_or_empty(opt_text_model(text)),
            s.image.model() == image_or_placeholder(opt_image_model(image)),
    {
        let ghost read_image = image;
        let saved_text = match text {
            Some(t) => t,
            None => String::new(),
        };
        let saved_image = match image {
            Some(i) => i,
            None => ImageSnapshot::placeholder(),
        };
        proof {
            assert(saved_image.model() =~= image_or_placeholder(opt_image_model(read_image)));
        }
        ClipboardSnapshot { text: saved_text, image: saved_image }
    }

    /// Decide how the clipboard is to be restored: non-empty saved text wins,
    /// then a saved image of non-zero width, and otherwise nothing is
    /// written.
    pub fn restore_action(&self) -> (a: RestoreAction)
        ensures
            a == self.spec_restore_action(),
    {
        if !self.text.as_str().is_empty() {
            RestoreAction::WriteText
        } else if self.image.is_present() {
            RestoreAction::WriteImage
        } else {
            RestoreAction::LeaveUnchanged
        }
    }
}

} // verus!
