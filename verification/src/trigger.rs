//! The copy trigger: the platform-appropriate synthetic "copy" chord.
//!
//! Two interchangeable strategies exist.  On the platform whose convention
//! uses the Command modifier, the standard keyboard-simulation library has
//! two known defects — injected events carry extra scheduling latency, and
//! they can be dropped or corrupted by concurrent real input — so the
//! trigger must post low-level events directly to the OS input-event
//! system; `low_level_copy_events` states that event sequence.  Everywhere
//! else the generic keyboard-simulation capability suffices;
//! `generic_copy_steps` states its chord, and `copy` issues it.

use vstd::prelude::*;
use enigo::Keyboard;
use crate::ports::TriggerError;

verus! {

/// Low-level virtual key code of the letter "c" on the platform that posts
/// events directly.
pub const LETTER_C_KEY_CODE: u16 = 0x08;

/// Low-level virtual key code of the Command modifier key on that platform.
pub const COMMAND_KEY_CODE: u16 = 0x37;

/// A key as the generic keyboard-simulation strategy names it.
#[derive(Clone, Copy, Debug, PartialEq, Eq, Structural)]
pub enum TriggerKey {
    /// The Control modifier.
    Control,
    /// A character key.
    Character(char),
}

/// What is done with a key.
#[derive(Clone, Copy, Debug, PartialEq, Eq, Structural)]
pub enum KeyMotion {
    Press,
    Click,
    Release,
}

/// One step of the generic strategy's chord.
#[derive(Clone, Copy, Debug, PartialEq, Eq, Structural)]
pub struct KeyStep {
    pub key: TriggerKey,
    pub motion: KeyMotion,
}

/// How a directly posted event sets the modifier-flag bitmask.
#[derive(Clone, Copy, Debug, PartialEq, Eq, Structural)]
pub enum FlagSetting {
    /// Set the Command flag on the event.
    SetCommand,
    /// Reset the event's flags to none.
    ClearAll,
    /// Post the event without touching its flags.
    LeaveUnset,
}

/// One low-level keyboard event: a key code, whether the key goes down,
/// and how the event's modifier flags are set.
#[derive(Clone, Copy, Debug, PartialEq, Eq, Structural)]
pub struct LowLevelKeyEvent {
    pub key_code: u16,
    pub key_down: bool,
    pub flags: FlagSetting,
}

/// A host platform, as far as the copy trigger cares: the one whose
/// convention uses the Command modifier, and every other.
#[derive(Clone, Copy, Debug, PartialEq, Eq, Structural)]
pub enum Platform {
    /// The platform whose copy chord is Command+C and whose standard
    /// keyboard-simulation library has the two known defects.
    CommandConvention,
    /// Every platform whose copy chord is Control+C.
    ControlConvention,
}

/// One of the two interchangeable ways of issuing the copy gesture.
#[derive(Clone, Copy, Debug, PartialEq, Eq, Structural)]
pub enum TriggerStrategy {
    /// Post low-level events directly to the OS input-event system.
    LowLevelEvents,
    /// Use the generic keyboard-simulation capability.
    GenericSimulation,
}

/// The strategy a platform calls for.
pub open spec fn spec_strategy_for(platform: Platform) -> TriggerStrategy {
    match platform {
        Platform::CommandConvention => TriggerStrategy::LowLevelEvents,
        Platform::ControlConvention => TriggerStrategy::GenericSimulation,
    }
}

/// Select the trigger strategy for a platform: direct low-level event
/// posting where the Command convention (and the simulation library's
/// defects) hold, the generic simulation capability everywhere else.
/// Adding a platform means adding an arm here; the orchestrator never
/// branches on platforms itself.
pub fn strategy_for(platform: Platform) -> (s: TriggerStrategy)
    ensures
        s == spec_strategy_for(platform),
{
    match platform {
        Platform::CommandConvention => TriggerStrategy::LowLevelEvents,
        Platform::ControlConvention => TriggerStrategy::GenericSimulation,
    }
}

/// The chord of the generic strategy: press Control, click the letter "c"
/// while Control is held, release Control.
pub fn generic_copy_steps() -> (steps: Vec<KeyStep>)
    ensures
        steps@.len() == 3,
        steps@[0] == (KeyStep { key: TriggerKey::Control, motion: KeyMotion::Press }),
        steps@[1] == (KeyStep { key: TriggerKey::Character('c'), motion: KeyMotion::Click }),
        steps@[2] == (KeyStep { key: TriggerKey::Control, motion: KeyMotion::Release }),
{
    let mut steps: Vec<KeyStep> = Vec::new();
    steps.push(KeyStep { key: TriggerKey::Control, motion: KeyMotion::Press });
    steps.push(KeyStep { key: TriggerKey::Character('c'), motion: KeyMotion::Click });
    steps.push(KeyStep { key: TriggerKey::Control, motion: KeyMotion::Release });
    steps
}

/// The event sequence of the low-level strategy: the "c" key goes down
/// with the Command flag set, comes up with the flags reset, and a
/// Command key-up is posted afterwards for robustness (possibly redundant,
/// kept defensively).
pub fn low_level_copy_events() -> (events: Vec<LowLevelKeyEvent>)
    ensures
        events@.len() == 3,
        events@[0] == (LowLevelKeyEvent {
            key_code: LETTER_C_KEY_CODE,
            key_down: true,
            flags: FlagSetting::SetCommand,
        }),
        events@[1] == (LowLevelKeyEvent {
            key_code: LETTER_C_KEY_CODE,
            key_down: false,
            flags: FlagSetting::ClearAll,
        }),
        events@[2] == (LowLevelKeyEvent {
            key_code: COMMAND_KEY_CODE,
            key_down: false,
            flags: FlagSetting::LeaveUnset,
        }),
{
    let mut events: Vec<LowLevelKeyEvent> = Vec::new();
    events.push(LowLevelKeyEvent {
        key_code: LETTER_C_KEY_CODE,
        key_down: true,
        flags: FlagSetting::SetCommand,
    });
    events.push(LowLevelKeyEvent {
        key_code: LETTER_C_KEY_CODE,
        key_down: false,
        flags: FlagSetting::ClearAll,
    });
    events.push(LowLevelKeyEvent {
        key_code: COMMAND_KEY_CODE,
        key_down: false,
        flags: FlagSetting::LeaveUnset,
    });
    events
}

#[verifier::external_type_specification]
#[verifier::external_body]
pub struct ExEnigo(enigo::Enigo);

#[verifier::external_type_specification]
#[verifier::external_body]
pub struct ExSettings(enigo::Settings);

/// Relies on enigo::Settings::default: the simulation library's default
/// connection settings.
#[verifier::external_body]
fn enigo_default_settings() -> enigo::Settings {
    enigo::Settings::default()
}

/// Relies on enigo::Enigo::new: acquires a handle to the OS input-injection
/// service, which fails where the host cannot support input injection.
#[verifier::external_body]
fn enigo_new(settings: &enigo::Settings) -> (r: Result<enigo::Enigo, TriggerError>) {
    match enigo::Enigo::new(settings) {
        Ok(handle) => Ok(handle),
        Err(_) => Err(TriggerError::HandleUnavailable),
    }
}

/// Relies on enigo::Keyboard::key: posts one synthetic keyboard event for
/// the given key and motion to the focused application.
#[verifier::external_body]
fn enigo_key(handle: &mut enigo::Enigo, step: &KeyStep) -> (r: Result<(), TriggerError>) {
    let key = match step.key {
        TriggerKey::Control => enigo::Key::Control,
        TriggerKey::Character(c) => enigo::Key::Unicode(c),
    };
    let direction = match step.motion {
        KeyMotion::Press => enigo::Direction::Press,
        KeyMotion::Click => enigo::Direction::Click,
        KeyMotion::Release => enigo::Direction::Release,
    };
    match handle.key(key, direction) {
        Ok(()) => Ok(()),
        Err(_) => Err(TriggerError::EventFailed),
    }
}

/// Simulate the copy chord — Control held around a click of "c" — through
/// the generic keyboard-simulation capability, asking the focused
/// application to copy its selection to the clipboard.
///
/// Exposed on its own for callers implementing custom save-and-restore
/// logic around the copy.  Any failure to obtain the input-injection
/// handle or to post an event is returned as the fatal error it is:
/// without the gesture there is nothing to wait for.
pub fn copy() -> (r: Result<(), TriggerError>) {
    let settings = enigo_default_settings();
    let mut handle = match enigo_new(&settings) {
        Ok(h) => h,
        Err(e) => {
            return Err(e);
        },
    };
    let steps = generic_copy_steps();
    let mut i: usize = 0;
    while i < steps.len()
        decreases steps@.len() - i,
    {
        match enigo_key(&mut handle, &steps[i]) {
            Ok(()) => {},
            Err(e) => {
                return Err(e);
            },
        }
        i = i + 1;
    }
    Ok(())
}

} // verus!
