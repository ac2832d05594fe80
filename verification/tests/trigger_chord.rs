//! Tests of the copy-trigger strategies: the generic chord, the low-level
//! event sequence, and the per-platform selection.

use selection_text::trigger::{
    generic_copy_steps, low_level_copy_events, strategy_for, FlagSetting, KeyMotion, KeyStep,
    LowLevelKeyEvent, Platform, TriggerKey, TriggerStrategy, COMMAND_KEY_CODE, LETTER_C_KEY_CODE,
};

#[test]
fn generic_chord_brackets_c_with_control() {
    let steps = generic_copy_steps();
    assert_eq!(
        steps,
        vec![
            KeyStep { key: TriggerKey::Control, motion: KeyMotion::Press },
            KeyStep { key: TriggerKey::Character('c'), motion: KeyMotion::Click },
            KeyStep { key: TriggerKey::Control, motion: KeyMotion::Release },
        ]
    );
}

#[test]
fn low_level_events_set_and_clear_the_command_flag() {
    let events = low_level_copy_events();
    assert_eq!(
        events,
        vec![
            LowLevelKeyEvent {
                key_code: LETTER_C_KEY_CODE,
                key_down: true,
                flags: FlagSetting::SetCommand,
            },
            LowLevelKeyEvent {
                key_code: LETTER_C_KEY_CODE,
                key_down: false,
                flags: FlagSetting::ClearAll,
            },
            LowLevelKeyEvent {
                key_code: COMMAND_KEY_CODE,
                key_down: false,
                flags: FlagSetting::LeaveUnset,
            },
        ]
    );
}

#[test]
fn key_codes_match_the_platform_headers() {
    assert_eq!(LETTER_C_KEY_CODE, 0x08);
    assert_eq!(COMMAND_KEY_CODE, 0x37);
}

#[test]
fn strategy_follows_the_platform_convention() {
    assert_eq!(strategy_for(Platform::CommandConvention), TriggerStrategy::LowLevelEvents);
    assert_eq!(strategy_for(Platform::ControlConvention), TriggerStrategy::GenericSimulation);
}
