//! Deterministic, in-memory implementations of the ports.
//!
//! They let the capture protocol be exercised without a desktop session:
//! the clipboard's future reads and the clock's elapsed-time readings are
//! written out in advance.  Each implementation is proved to follow the
//! pure model exactly, so the orchestrator's deterministic contract applies
//! to runs over them.

use vstd::prelude::*;
use crate::image::ImageSnapshot;
use crate::model::{
    clear_step, clock_tail, opt_image_model, opt_text_model, read_text_step, set_image_step,
    set_text_step, ClipTimeline,
};
use crate::ports::{ClipboardPort, ClockPort, TriggerError};

verus! {

/// An in-memory clipboard whose future text reads are scripted.
pub struct ScriptedClipboard {
    /// The text the clipboard holds now, if any.
    pub text: Option<String>,
    /// The image the clipboard holds now, if any.
    pub image: Option<ImageSnapshot>,
    /// What each future text read observes arriving while no text is held:
    /// `Some` is a landed copy, `None` is a read that finds nothing.
    pub arrivals: Vec<Option<String>>,
}

impl ScriptedClipboard {
    /// The mathematical value of the scripted arrivals.
    pub open spec fn arrivals_model(&self) -> Seq<Option<Seq<char>>> {
        self.arrivals@.map_values(|o: Option<String>| opt_text_model(o))
    }
}

impl ClipboardPort for ScriptedClipboard {
    open spec fn modeled() -> bool {
        true
    }

    open spec fn timeline(&self) -> ClipTimeline {
        ClipTimeline {
            text: opt_text_model(self.text),
            image: opt_image_model(self.image),
            arrivals: self.arrivals_model(),
        }
    }

    fn get_text(&mut self) -> (r: Option<String>) {
        match &self.text {
            Some(t) => Some(t.clone()),
            None => {
                if self.arrivals.len() > 0 {
                    let arrival = self.arrivals.remove(0);
                    proof {
                        assert(self.arrivals_model() =~= old(self).arrivals_model().skip(1));
                    }
                    match arrival {
                        Some(s) => {
                            let r = Some(s.clone());
                            self.text = Some(s);
                            proof {
                                assert(self.timeline() =~= read_text_step(
                                    old(self).timeline(),
                                ).0);
                            }
                            r
                        },
                        None => {
                            proof {
                                assert(self.timeline() =~= read_text_step(
                                    old(self).timeline(),
                                ).0);
                            }
                            None
                        },
                    }
                } else {
                    None
                }
            },
        }
    }

    fn get_image(&mut self) -> (r: Option<ImageSnapshot>) {
        match &self.image {
            Some(i) => Some(i.duplicate()),
            None => None,
        }
    }

    fn clear(&mut self) {
        self.text = None;
        self.image = None;
        proof {
            assert(self.timeline() =~= clear_step(old(self).timeline()));
        }
    }

    fn set_text(&mut self, text: &String) {
        self.text = Some(text.clone());
        self.image = None;
        proof {
            assert(self.timeline() =~= set_text_step(old(self).timeline(), text@));
        }
    }

    fn set_image(&mut self, image: &ImageSnapshot) {
        self.image = Some(image.duplicate());
        self.text = None;
        proof {
            assert(self.timeline() =~= set_image_step(old(self).timeline(), image.model()));
        }
    }
}

/// A clock whose elapsed-time readings are scripted; once the script runs
/// out it reads as the largest value, which ends any poll loop.
pub struct ScriptClock {
    /// The elapsed-time readings still to be handed out, in order.
    pub script: Vec<u64>,
}

impl ClockPort for ScriptClock {
    open spec fn modeled() -> bool {
        true
    }

    open spec fn readings(&self) -> Seq<u64> {
        self.script@
    }

    fn elapsed_ms(&mut self) -> (e: u64) {
        if self.script.len() > 0 {
            let e = self.script.remove(0);
            proof {
                assert(self.script@ =~= clock_tail(old(self).script@));
            }
            e
        } else {
            u64::MAX
        }
    }
}

/// A trigger that issues no gesture and always succeeds: on a scripted
/// clipboard the copied selection, if any, is already written into the
/// arrivals.
pub fn script_trigger() -> (r: Result<(), TriggerError>)
    ensures
        r is Ok,
{
    Ok(())
}

} // verus!
