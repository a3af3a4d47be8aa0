use enpitsu::engine::EngineCommand;
use enpitsu::engine::EngineState::{Composing, Converting, Direct};
use enpitsu::key_mapping::{
    is_character_key, map_key, should_commit_before_passthrough, should_consume_key,
    CtrlKeyConfig, KeybindPreset, Modifiers, VK_0, VK_9, VK_A, VK_B, VK_BACK, VK_D, VK_DELETE,
    VK_DOWN, VK_ESCAPE, VK_F, VK_F1, VK_F7, VK_G, VK_H, VK_J, VK_LEFT, VK_M, VK_N, VK_OEM_COMMA,
    VK_OEM_MINUS, VK_OEM_PERIOD, VK_P, VK_RETURN, VK_RIGHT, VK_SPACE, VK_UP, VK_Z,
};
// === Presets ===

#[test]
fn preset_none_all_disabled() {
    let config = CtrlKeyConfig::from_preset(&KeybindPreset::Disabled);
    assert_eq!(config.ctrl_j, None);
    assert_eq!(config.ctrl_g, None);
    assert_eq!(config.ctrl_n, None);
    assert_eq!(config.ctrl_p, None);
    assert_eq!(config.ctrl_h, None);
    assert_eq!(config.ctrl_m, None);
}

#[test]
fn preset_minimal_only_safe_keys() {
    let config = CtrlKeyConfig::from_preset(&KeybindPreset::Minimal);
    assert_eq!(config.ctrl_j, Some(EngineCommand::Commit));
    assert_eq!(config.ctrl_g, Some(EngineCommand::Cancel));
    assert_eq!(config.ctrl_m, Some(EngineCommand::Commit));
    // keys that clash easily stay unbound
    assert_eq!(config.ctrl_n, None);
    assert_eq!(config.ctrl_p, None);
    assert_eq!(config.ctrl_h, None);
}

#[test]
fn preset_emacs_all_enabled() {
    let config = CtrlKeyConfig::from_preset(&KeybindPreset::Emacs);
    assert_eq!(config.ctrl_j, Some(EngineCommand::Commit));
    assert_eq!(config.ctrl_g, Some(EngineCommand::Cancel));
    assert_eq!(config.ctrl_n, Some(EngineCommand::NextCandidate));
    assert_eq!(config.ctrl_p, Some(EngineCommand::PrevCandidate));
    assert_eq!(config.ctrl_h, Some(EngineCommand::Backspace));
    assert_eq!(config.ctrl_m, Some(EngineCommand::Commit));
}

#[test]
fn default_is_none_preset() {
    let default = CtrlKeyConfig::default();
    let none = CtrlKeyConfig::from_preset(&KeybindPreset::Disabled);
    assert_eq!(default, none);
}

// === map_key: Emacs preset ===

#[test]
fn emacs_ctrl_j_commits() {
    let config = CtrlKeyConfig::from_preset(&KeybindPreset::Emacs);
    let cmd = map_key(VK_J, &Modifiers::ctrl(), true, &config);
    assert_eq!(cmd, Some(EngineCommand::Commit));
}

#[test]
fn emacs_ctrl_g_cancels() {
    let config = CtrlKeyConfig::from_preset(&KeybindPreset::Emacs);
    let cmd = map_key(VK_G, &Modifiers::ctrl(), true, &config);
    assert_eq!(cmd, Some(EngineCommand::Cancel));
}

#[test]
fn emacs_ctrl_n_next_candidate() {
    let config = CtrlKeyConfig::from_preset(&KeybindPreset::Emacs);
    let cmd = map_key(VK_N, &Modifiers::ctrl(), true, &config);
    assert_eq!(cmd, Some(EngineCommand::NextCandidate));
}

#[test]
fn emacs_ctrl_p_prev_candidate() {
    let config = CtrlKeyConfig::from_preset(&KeybindPreset::Emacs);
    let cmd = map_key(VK_P, &Modifiers::ctrl(), true, &config);
    assert_eq!(cmd, Some(EngineCommand::PrevCandidate));
}

#[test]
fn emacs_ctrl_h_backspace() {
    let config = CtrlKeyConfig::from_preset(&KeybindPreset::Emacs);
    let cmd = map_key(VK_H, &Modifiers::ctrl(), true, &config);
    assert_eq!(cmd, Some(EngineCommand::Backspace));
}

#[test]
fn emacs_ctrl_m_commits() {
    let config = CtrlKeyConfig::from_preset(&KeybindPreset::Emacs);
    let cmd = map_key(VK_M, &Modifiers::ctrl(), true, &config);
    assert_eq!(cmd, Some(EngineCommand::Commit));
}

// === map_key: Minimal preset ===

#[test]
fn minimal_ctrl_j_commits() {
    let config = CtrlKeyConfig::from_preset(&KeybindPreset::Minimal);
    let cmd = map_key(VK_J, &Modifiers::ctrl(), true, &config);
    assert_eq!(cmd, Some(EngineCommand::Commit));
}

#[test]
fn minimal_ctrl_n_returns_none() {
    let config = CtrlKeyConfig::from_preset(&KeybindPreset::Minimal);
    let cmd = map_key(VK_N, &Modifiers::ctrl(), true, &config);
    assert_eq!(cmd, None);
}

#[test]
fn minimal_ctrl_p_returns_none() {
    let config = CtrlKeyConfig::from_preset(&KeybindPreset::Minimal);
    let cmd = map_key(VK_P, &Modifiers::ctrl(), true, &config);
    assert_eq!(cmd, None);
}

#[test]
fn minimal_ctrl_h_returns_none() {
    let config = CtrlKeyConfig::from_preset(&KeybindPreset::Minimal);
    let cmd = map_key(VK_H, &Modifiers::ctrl(), true, &config);
    assert_eq!(cmd, None);
}

// === map_key: Disabled preset ===

#[test]
fn none_preset_ctrl_j_returns_none() {
    let config = CtrlKeyConfig::from_preset(&KeybindPreset::Disabled);
    let cmd = map_key(VK_J, &Modifiers::ctrl(), true, &config);
    assert_eq!(cmd, None);
}

// === map_key: common ===

#[test]
fn ctrl_other_returns_none() {
    let config = CtrlKeyConfig::from_preset(&KeybindPreset::Emacs);
    let cmd = map_key(VK_A, &Modifiers::ctrl(), true, &config);
    assert_eq!(cmd, None);
}

#[test]
fn ctrl_alt_returns_none() {
    let config = CtrlKeyConfig::from_preset(&KeybindPreset::Emacs);
    let cmd = map_key(VK_J, &Modifiers::ctrl_alt(), true, &config);
    assert_eq!(cmd, None);
}

// === Custom settings (a preset with single keys overridden) ===

#[test]
fn emacs_override_ctrl_n_none() {
    let mut config = CtrlKeyConfig::from_preset(&KeybindPreset::Emacs);
    config.ctrl_n = None;
    let cmd = map_key(VK_N, &Modifiers::ctrl(), true, &config);
    assert_eq!(cmd, None);
    // the other keys are unaffected
    let cmd = map_key(VK_J, &Modifiers::ctrl(), true, &config);
    assert_eq!(cmd, Some(EngineCommand::Commit));
}

#[test]
fn none_override_ctrl_j_commit() {
    let mut config = CtrlKeyConfig::from_preset(&KeybindPreset::Disabled);
    config.ctrl_j = Some(EngineCommand::Commit);
    let cmd = map_key(VK_J, &Modifiers::ctrl(), true, &config);
    assert_eq!(cmd, Some(EngineCommand::Commit));
    // the others stay unbound
    let cmd = map_key(VK_G, &Modifiers::ctrl(), true, &config);
    assert_eq!(cmd, None);
}

#[test]
fn minimal_override_ctrl_h_backspace() {
    let mut config = CtrlKeyConfig::from_preset(&KeybindPreset::Minimal);
    config.ctrl_h = Some(EngineCommand::Backspace);
    let cmd = map_key(VK_H, &Modifiers::ctrl(), true, &config);
    assert_eq!(cmd, Some(EngineCommand::Backspace));
}

// === Letter keys ===

#[test]
fn alphabet_key_lowercase() {
    let config = CtrlKeyConfig::default();
    let cmd = map_key(VK_A, &Modifiers::none(), true, &config);
    assert_eq!(cmd, Some(EngineCommand::InsertChar('a')));
}

#[test]
fn alphabet_key_all_letters() {
    let config = CtrlKeyConfig::default();
    for vk in VK_A..=VK_Z {
        let cmd = map_key(vk, &Modifiers::none(), true, &config);
        let expected_char = (b'a' + (vk - VK_A) as u8) as char;
        assert_eq!(cmd, Some(EngineCommand::InsertChar(expected_char)));
    }
}

// === Special keys ===

#[test]
fn space_key_converts() {
    let config = CtrlKeyConfig::default();
    let cmd = map_key(VK_SPACE, &Modifiers::none(), true, &config);
    assert_eq!(cmd, Some(EngineCommand::Convert));
}

#[test]
fn enter_key_commits() {
    let config = CtrlKeyConfig::default();
    let cmd = map_key(VK_RETURN, &Modifiers::none(), true, &config);
    assert_eq!(cmd, Some(EngineCommand::Commit));
}

#[test]
fn escape_key_cancels() {
    let config = CtrlKeyConfig::default();
    let cmd = map_key(VK_ESCAPE, &Modifiers::none(), true, &config);
    assert_eq!(cmd, Some(EngineCommand::Cancel));
}

#[test]
fn f7_key_converts_katakana() {
    let config = CtrlKeyConfig::default();
    let cmd = map_key(VK_F7, &Modifiers::none(), true, &config);
    assert_eq!(cmd, Some(EngineCommand::ConvertKatakana));
}

#[test]
fn f7_key_ime_off_returns_none() {
    let config = CtrlKeyConfig::default();
    let cmd = map_key(VK_F7, &Modifiers::none(), false, &config);
    assert_eq!(cmd, None);
}

#[test]
fn backspace_key() {
    let config = CtrlKeyConfig::default();
    let cmd = map_key(VK_BACK, &Modifiers::none(), true, &config);
    assert_eq!(cmd, Some(EngineCommand::Backspace));
}

#[test]
fn down_arrow_next_candidate() {
    let config = CtrlKeyConfig::default();
    let cmd = map_key(VK_DOWN, &Modifiers::none(), true, &config);
    assert_eq!(cmd, Some(EngineCommand::NextCandidate));
}

#[test]
fn up_arrow_prev_candidate() {
    let config = CtrlKeyConfig::default();
    let cmd = map_key(VK_UP, &Modifiers::none(), true, &config);
    assert_eq!(cmd, Some(EngineCommand::PrevCandidate));
}

// === IME off ===

#[test]
fn ime_off_returns_none() {
    let config = CtrlKeyConfig::default();
    let cmd = map_key(VK_A, &Modifiers::none(), false, &config);
    assert_eq!(cmd, None);
}

#[test]
fn ime_off_space_returns_none() {
    let config = CtrlKeyConfig::default();
    let cmd = map_key(VK_SPACE, &Modifiers::none(), false, &config);
    assert_eq!(cmd, None);
}

// === Modifier keys ===

#[test]
fn ctrl_key_with_default_returns_none() {
    // with the default (Disabled preset) Ctrl+A maps to nothing
    let config = CtrlKeyConfig::default();
    let cmd = map_key(VK_A, &Modifiers::ctrl(), true, &config);
    assert_eq!(cmd, None);
}

#[test]
fn alt_key_returns_none() {
    let config = CtrlKeyConfig::default();
    let cmd = map_key(VK_A, &Modifiers::alt(), true, &config);
    assert_eq!(cmd, None);
}

#[test]
fn shift_alphabet_uppercase() {
    let config = CtrlKeyConfig::default();
    let cmd = map_key(VK_A, &Modifiers::shift(), true, &config);
    assert_eq!(cmd, Some(EngineCommand::InsertChar('A')));
}

// === Ctrl+Shift goes to the operating system ===

#[test]
fn ctrl_shift_n_returns_none() {
    // browsers use Ctrl+Shift+N for a new private window
    let config = CtrlKeyConfig::from_preset(&KeybindPreset::Emacs);
    let mods = Modifiers {
        shift: true,
        ctrl: true,
        alt: false,
    };
    let cmd = map_key(VK_N, &mods, true, &config);
    assert_eq!(cmd, None);
}

#[test]
fn ctrl_shift_j_returns_none() {
    // browsers use Ctrl+Shift+J for their developer tools
    let config = CtrlKeyConfig::from_preset(&KeybindPreset::Emacs);
    let mods = Modifiers {
        shift: true,
        ctrl: true,
        alt: false,
    };
    let cmd = map_key(VK_J, &mods, true, &config);
    assert_eq!(cmd, None);
}

#[test]
fn ctrl_shift_p_returns_none() {
    let config = CtrlKeyConfig::from_preset(&KeybindPreset::Emacs);
    let mods = Modifiers {
        shift: true,
        ctrl: true,
        alt: false,
    };
    let cmd = map_key(VK_P, &mods, true, &config);
    assert_eq!(cmd, None);
}

// === Keys left alone ===

#[test]
fn function_keys_return_none() {
    let config = CtrlKeyConfig::default();
    let cmd = map_key(VK_F1, &Modifiers::none(), true, &config);
    assert_eq!(cmd, None);
}

// === Digit keys ===

#[test]
fn number_key_0() {
    let config = CtrlKeyConfig::default();
    let cmd = map_key(VK_0, &Modifiers::none(), true, &config);
    assert_eq!(cmd, Some(EngineCommand::InsertChar('0')));
}

#[test]
fn number_key_9() {
    let config = CtrlKeyConfig::default();
    let cmd = map_key(VK_9, &Modifiers::none(), true, &config);
    assert_eq!(cmd, Some(EngineCommand::InsertChar('9')));
}

#[test]
fn number_keys_all() {
    let config = CtrlKeyConfig::default();
    for vk in VK_0..=VK_9 {
        let cmd = map_key(vk, &Modifiers::none(), true, &config);
        let expected_char = (b'0' + (vk - VK_0) as u8) as char;
        assert_eq!(cmd, Some(EngineCommand::InsertChar(expected_char)));
    }
}

#[test]
fn number_key_with_shift_returns_none() {
    // Shift+digit is left to the system (! @ # and so on)
    let config = CtrlKeyConfig::default();
    let cmd = map_key(VK_0, &Modifiers::shift(), true, &config);
    assert_eq!(cmd, None);
}

// === Punctuation ===

#[test]
fn minus_key_inserts_minus() {
    let config = CtrlKeyConfig::default();
    let cmd = map_key(VK_OEM_MINUS, &Modifiers::none(), true, &config);
    assert_eq!(cmd, Some(EngineCommand::InsertChar('-')));
}

#[test]
fn period_key_inserts_period() {
    let config = CtrlKeyConfig::default();
    let cmd = map_key(VK_OEM_PERIOD, &Modifiers::none(), true, &config);
    assert_eq!(cmd, Some(EngineCommand::InsertChar('.')));
}

#[test]
fn comma_key_inserts_comma() {
    let config = CtrlKeyConfig::default();
    let cmd = map_key(VK_OEM_COMMA, &Modifiers::none(), true, &config);
    assert_eq!(cmd, Some(EngineCommand::InsertChar(',')));
}

// === Cursor movement and Delete ===

#[test]
fn left_arrow_cursor_left() {
    let config = CtrlKeyConfig::default();
    let cmd = map_key(VK_LEFT, &Modifiers::none(), true, &config);
    assert_eq!(cmd, Some(EngineCommand::CursorLeft));
}

#[test]
fn right_arrow_cursor_right() {
    let config = CtrlKeyConfig::default();
    let cmd = map_key(VK_RIGHT, &Modifiers::none(), true, &config);
    assert_eq!(cmd, Some(EngineCommand::CursorRight));
}

#[test]
fn delete_key_delete() {
    let config = CtrlKeyConfig::default();
    let cmd = map_key(VK_DELETE, &Modifiers::none(), true, &config);
    assert_eq!(cmd, Some(EngineCommand::Delete));
}

#[test]
fn emacs_ctrl_b_cursor_left() {
    let config = CtrlKeyConfig::from_preset(&KeybindPreset::Emacs);
    let cmd = map_key(VK_B, &Modifiers::ctrl(), true, &config);
    assert_eq!(cmd, Some(EngineCommand::CursorLeft));
}

#[test]
fn emacs_ctrl_f_cursor_right() {
    let config = CtrlKeyConfig::from_preset(&KeybindPreset::Emacs);
    let cmd = map_key(VK_F, &Modifiers::ctrl(), true, &config);
    assert_eq!(cmd, Some(EngineCommand::CursorRight));
}

#[test]
fn emacs_ctrl_d_delete() {
    let config = CtrlKeyConfig::from_preset(&KeybindPreset::Emacs);
    let cmd = map_key(VK_D, &Modifiers::ctrl(), true, &config);
    assert_eq!(cmd, Some(EngineCommand::Delete));
}

#[test]
fn minimal_ctrl_b_returns_none() {
    let config = CtrlKeyConfig::from_preset(&KeybindPreset::Minimal);
    let cmd = map_key(VK_B, &Modifiers::ctrl(), true, &config);
    assert_eq!(cmd, None);
}

#[test]
fn minimal_ctrl_f_returns_none() {
    let config = CtrlKeyConfig::from_preset(&KeybindPreset::Minimal);
    let cmd = map_key(VK_F, &Modifiers::ctrl(), true, &config);
    assert_eq!(cmd, None);
}

#[test]
fn minimal_ctrl_d_returns_none() {
    let config = CtrlKeyConfig::from_preset(&KeybindPreset::Minimal);
    let cmd = map_key(VK_D, &Modifiers::ctrl(), true, &config);
    assert_eq!(cmd, None);
}

// === is_character_key ===

#[test]
fn is_character_key_alphabet() {
    assert!(is_character_key(VK_A, &Modifiers::none()));
    assert!(is_character_key(VK_Z, &Modifiers::none()));
    // Shift+letter is a character key too (upper case)
    assert!(is_character_key(VK_A, &Modifiers::shift()));
}

#[test]
fn is_character_key_digits() {
    assert!(is_character_key(VK_0, &Modifiers::none()));
    assert!(is_character_key(VK_9, &Modifiers::none()));
    // Shift+digit types a symbol and is no character key
    assert!(!is_character_key(VK_0, &Modifiers::shift()));
}

#[test]
fn is_character_key_punctuation() {
    assert!(is_character_key(VK_OEM_MINUS, &Modifiers::none()));
    assert!(is_character_key(VK_OEM_PERIOD, &Modifiers::none()));
    assert!(is_character_key(VK_OEM_COMMA, &Modifiers::none()));
}

#[test]
fn is_character_key_non_character_keys() {
    assert!(!is_character_key(VK_SPACE, &Modifiers::none()));
    assert!(!is_character_key(VK_RETURN, &Modifiers::none()));
    assert!(!is_character_key(VK_BACK, &Modifiers::none()));
    assert!(!is_character_key(VK_LEFT, &Modifiers::none()));
    assert!(!is_character_key(VK_RIGHT, &Modifiers::none()));
    assert!(!is_character_key(VK_UP, &Modifiers::none()));
    assert!(!is_character_key(VK_DOWN, &Modifiers::none()));
    assert!(!is_character_key(VK_ESCAPE, &Modifiers::none()));
    assert!(!is_character_key(VK_DELETE, &Modifiers::none()));
}

#[test]
fn is_character_key_with_ctrl_or_alt() {
    // with Ctrl or Alt held no key is a character key
    assert!(!is_character_key(VK_A, &Modifiers::ctrl()));
    assert!(!is_character_key(VK_A, &Modifiers::alt()));
}

// === should_consume_key: consuming keys by engine state ===


// an unmapped key (None) is not consumed
#[test]
fn consume_none_command_is_false() {
    assert!(!should_consume_key(
        Direct,
        VK_F1,
        &Modifiers::none(),
        &None
    ));
    assert!(!should_consume_key(
        Composing,
        VK_F1,
        &Modifiers::none(),
        &None
    ));
    assert!(!should_consume_key(
        Converting,
        VK_F1,
        &Modifiers::none(),
        &None
    ));
}

// Direct: only character keys are consumed
#[test]
fn consume_direct_character_key_is_true() {
    assert!(should_consume_key(
        Direct,
        VK_A,
        &Modifiers::none(),
        &Some(EngineCommand::InsertChar('a'))
    ));
}

#[test]
fn consume_direct_arrow_is_false() {
    assert!(!should_consume_key(
        Direct,
        VK_LEFT,
        &Modifiers::none(),
        &Some(EngineCommand::CursorLeft)
    ));
}

#[test]
fn consume_direct_enter_is_false() {
    assert!(!should_consume_key(
        Direct,
        VK_RETURN,
        &Modifiers::none(),
        &Some(EngineCommand::Commit)
    ));
}

// Composing: the up and down arrows (candidate navigation) are not consumed
#[test]
fn consume_composing_next_candidate_is_false() {
    assert!(!should_consume_key(
        Composing,
        VK_DOWN,
        &Modifiers::none(),
        &Some(EngineCommand::NextCandidate)
    ));
}

#[test]
fn consume_composing_prev_candidate_is_false() {
    assert!(!should_consume_key(
        Composing,
        VK_UP,
        &Modifiers::none(),
        &Some(EngineCommand::PrevCandidate)
    ));
}

#[test]
fn consume_composing_cursor_and_char_is_true() {
    assert!(should_consume_key(
        Composing,
        VK_LEFT,
        &Modifiers::none(),
        &Some(EngineCommand::CursorLeft)
    ));
    assert!(should_consume_key(
        Composing,
        VK_A,
        &Modifiers::none(),
        &Some(EngineCommand::InsertChar('a'))
    ));
}

// Converting: cursor movement and Delete are not consumed
#[test]
fn consume_converting_cursor_left_is_false() {
    assert!(!should_consume_key(
        Converting,
        VK_LEFT,
        &Modifiers::none(),
        &Some(EngineCommand::CursorLeft)
    ));
}

#[test]
fn consume_converting_cursor_right_is_false() {
    assert!(!should_consume_key(
        Converting,
        VK_RIGHT,
        &Modifiers::none(),
        &Some(EngineCommand::CursorRight)
    ));
}

#[test]
fn consume_converting_delete_is_false() {
    assert!(!should_consume_key(
        Converting,
        VK_DELETE,
        &Modifiers::none(),
        &Some(EngineCommand::Delete)
    ));
}

#[test]
fn consume_converting_candidate_nav_is_true() {
    assert!(should_consume_key(
        Converting,
        VK_DOWN,
        &Modifiers::none(),
        &Some(EngineCommand::NextCandidate)
    ));
    assert!(should_consume_key(
        Converting,
        VK_RETURN,
        &Modifiers::none(),
        &Some(EngineCommand::Commit)
    ));
}

// === should_commit_before_passthrough: committing before a key passes ===

#[test]
fn commit_before_passthrough_none_is_false() {
    assert!(!should_commit_before_passthrough(Direct, &None));
    assert!(!should_commit_before_passthrough(Composing, &None));
    assert!(!should_commit_before_passthrough(Converting, &None));
}

#[test]
fn commit_before_passthrough_converting_cursor_and_delete() {
    assert!(should_commit_before_passthrough(
        Converting,
        &Some(EngineCommand::CursorLeft)
    ));
    assert!(should_commit_before_passthrough(
        Converting,
        &Some(EngineCommand::CursorRight)
    ));
    assert!(should_commit_before_passthrough(
        Converting,
        &Some(EngineCommand::Delete)
    ));
}

#[test]
fn commit_before_passthrough_composing_candidate_nav() {
    assert!(should_commit_before_passthrough(
        Composing,
        &Some(EngineCommand::NextCandidate)
    ));
    assert!(should_commit_before_passthrough(
        Composing,
        &Some(EngineCommand::PrevCandidate)
    ));
}

#[test]
fn commit_before_passthrough_consumed_keys_are_false() {
    // consumed keys, and the Direct state (no composition), commit nothing
    assert!(!should_commit_before_passthrough(
        Converting,
        &Some(EngineCommand::NextCandidate)
    ));
    assert!(!should_commit_before_passthrough(
        Composing,
        &Some(EngineCommand::CursorLeft)
    ));
    assert!(!should_commit_before_passthrough(
        Direct,
        &Some(EngineCommand::CursorLeft)
    ));
}

// invariant: a key that commits first is never consumed
#[test]
fn commit_before_passthrough_implies_not_consumed() {
    // the (state, command, vk) combinations that commit first
    let cases = [
        (Composing, EngineCommand::NextCandidate, VK_DOWN),
        (Composing, EngineCommand::PrevCandidate, VK_UP),
        (Converting, EngineCommand::CursorLeft, VK_LEFT),
        (Converting, EngineCommand::CursorRight, VK_RIGHT),
        (Converting, EngineCommand::Delete, VK_DELETE),
    ];
    for (state, command, vk) in cases {
        let cmd = Some(command.clone());
        assert!(should_commit_before_passthrough(state, &cmd));
        assert!(
            !should_consume_key(state, vk, &Modifiers::none(), &cmd),
            "{:?}/{:?} commits first and must not be consumed",
            state,
            command
        );
    }
}
