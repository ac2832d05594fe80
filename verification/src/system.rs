//! The real clipboard port, backed by the OS clipboard service.

use vstd::prelude::*;
use vstd::pervasive::arbitrary;
use crate::image::ImageSnapshot;
use crate::model::ClipTimeline;
use crate::ports::ClipboardPort;

verus! {

#[verifier::external_type_specification]
#[verifier::external_body]
pub struct ExArboardClipboard(arboard::Clipboard);

/// No handle to the OS clipboard service could be obtained — a missing
/// permission or a headless session, say.  Fatal for a capture call.
#[derive(Clone, Copy, Debug, PartialEq, Eq, Structural)]
pub struct ClipboardUnavailable {
}

/// Relies on arboard::Clipboard::new: acquires a handle to the OS
/// clipboard service.
#[verifier::external_body]
fn acquire_clipboard() -> (r: Result<SystemClipboard, ClipboardUnavailable>) {
    match arboard::Clipboard::new() {
        Ok(inner) => Ok(SystemClipboard { inner }),
        Err(_) => Err(ClipboardUnavailable {}),
    }
}

/// Relies on arboard::Clipboard::get_text: the clipboard's text; absence
/// and read failures both come back as None.
#[verifier::external_body]
fn clipboard_get_text(clipboard: &mut arboard::Clipboard) -> (r: Option<String>) {
    clipboard.get_text().ok()
}

/// Relies on arboard::Clipboard::get_image: the clipboard's image as plain
/// width, height and bytes; absence and read failures both come back as
/// None.
#[verifier::external_body]
fn clipboard_get_image(clipboard: &mut arboard::Clipboard) -> (r: Option<ImageSnapshot>) {
    match clipboard.get_image() {
        Ok(image) => Some(ImageSnapshot {
            width: image.width,
            height: image.height,
            bytes: image.bytes.into_owned(),
        }),
        Err(_) => None,
    }
}

/// Relies on arboard::Clipboard::clear: removes every format from the
/// clipboard.  A failure is absorbed as a no-op: the clipboard is a shared,
/// racy resource and single-step hiccups must not abort the protocol.
#[verifier::external_body]
fn clipboard_clear(clipboard: &mut arboard::Clipboard) {
    let _ = clipboard.clear();
}

/// Relies on arboard::Clipboard::set_text: leaves the clipboard holding the
/// given text.  A failure is absorbed as a no-op.
#[verifier::external_body]
fn clipboard_set_text(clipboard: &mut arboard::Clipboard, text: &String) {
    let _ = clipboard.set_text(text.as_str());
}

/// Relies on arboard::Clipboard::set_image: leaves the clipboard holding
/// the given image.  A failure is absorbed as a no-op.
#[verifier::external_body]
fn clipboard_set_image(clipboard: &mut arboard::Clipboard, image: &ImageSnapshot) {
    let data = arboard::ImageData {
        width: image.width,
        height: image.height,
        bytes: std::borrow::Cow::Owned(image.bytes.clone()),
    };
    let _ = clipboard.set_image(data);
}

/// The OS clipboard, behind the clipboard port.  It is shared with every
/// other process and with the user, so nothing is promised of what a read
/// returns or of what state a write leaves behind: the port is not
/// modelled.
pub struct SystemClipboard {
    inner: arboard::Clipboard,
}

impl SystemClipboard {
    /// Acquire a handle to the OS clipboard service; failure to do so is
    /// fatal for a capture call, as the protocol is meaningless without
    /// the clipboard.
    pub fn new() -> (r: Result<SystemClipboard, ClipboardUnavailable>) {
        acquire_clipboard()
    }
}

impl ClipboardPort for SystemClipboard {
    open spec fn modeled() -> bool {
        false
    }

    closed spec fn timeline(&self) -> ClipTimeline {
        arbitrary()
    }

    fn get_text(&mut self) -> (r: Option<String>) {
        clipboard_get_text(&mut self.inner)
    }

    fn get_image(&mut self) -> (r: Option<ImageSnapshot>) {
        clipboard_get_image(&mut self.inner)
    }

    fn clear(&mut self) {
        clipboard_clear(&mut self.inner)
    }

    fn set_text(&mut self, text: &String) {
        clipboard_set_text(&mut self.inner, text)
    }

    fn set_image(&mut self, image: &ImageSnapshot) {
        clipboard_set_image(&mut self.inner, image)
    }
}

} // verus!
