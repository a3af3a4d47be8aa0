//! Mapping of Windows virtual-key codes to engine commands.
//!
//! A virtual-key code (`VK_*`) and the state of the modifier keys become the
//! `EngineCommand` that the conversion engine receives. Nothing here depends on
//! the platform.
use vstd::prelude::*;

use crate::engine::{EngineCommand, EngineState};

verus! {

// === Virtual-key codes ===
pub const VK_BACK: u16 = 0x08;

pub const VK_RETURN: u16 = 0x0D;

pub const VK_SHIFT: u16 = 0x10;

pub const VK_CONTROL: u16 = 0x11;

/// Alt.
pub const VK_MENU: u16 = 0x12;

pub const VK_ESCAPE: u16 = 0x1B;

pub const VK_SPACE: u16 = 0x20;

pub const VK_LEFT: u16 = 0x25;

pub const VK_UP: u16 = 0x26;

pub const VK_RIGHT: u16 = 0x27;

pub const VK_DOWN: u16 = 0x28;

pub const VK_DELETE: u16 = 0x2E;

pub const VK_0: u16 = 0x30;

pub const VK_9: u16 = 0x39;

pub const VK_A: u16 = 0x41;

pub const VK_B: u16 = 0x42;

pub const VK_D: u16 = 0x44;

pub const VK_F: u16 = 0x46;

pub const VK_G: u16 = 0x47;

pub const VK_H: u16 = 0x48;

pub const VK_J: u16 = 0x4A;

pub const VK_M: u16 = 0x4D;

pub const VK_N: u16 = 0x4E;

pub const VK_P: u16 = 0x50;

pub const VK_Z: u16 = 0x5A;

pub const VK_F1: u16 = 0x70;

pub const VK_F7: u16 = 0x76;

pub const VK_OEM_COMMA: u16 = 0xBC;

pub const VK_OEM_MINUS: u16 = 0xBD;

pub const VK_OEM_PERIOD: u16 = 0xBE;

pub const VK_KANJI: u16 = 0x19;

/// The backtick / tilde key.
pub const VK_OEM_3: u16 = 0xC0;

/// Sometimes sent by the hankaku/zenkaku key.
pub const VK_OEM_AUTO: u16 = 0xF3;

/// Sometimes sent by the hankaku/zenkaku key.
pub const VK_OEM_ENLW: u16 = 0xF4;

// === Modifier bits of TSF preserved keys (the values of msctf.h's TF_MOD_*) ===
pub const TF_MOD_ALT: u32 = 0x0001;

pub const TF_MOD_CONTROL: u32 = 0x0002;

pub const TF_MOD_SHIFT: u32 = 0x0004;

/// A key to be registered as a TSF preserved key, independent of the platform.
///
/// `modifiers` uses the bit values of msctf.h's `TF_MOD_*`.
#[derive(Debug, Clone, Copy, PartialEq, Eq, Structural)]
pub struct PreservedKeySpec {
    pub vk: u16,
    pub modifiers: u32,
}

/// The state of the modifier keys.
#[derive(Debug, Clone, Copy, PartialEq, Eq, Structural)]
pub struct Modifiers {
    pub shift: bool,
    pub ctrl: bool,
    pub alt: bool,
}

impl Modifiers {
    pub fn none() -> (m: Self)
        ensures
            !m.shift && !m.ctrl && !m.alt,
    {
        Self { shift: false, ctrl: false, alt: false }
    }

    pub fn shift() -> (m: Self)
        ensures
            m.shift && !m.ctrl && !m.alt,
    {
        Self { shift: true, ctrl: false, alt: false }
    }

    pub fn ctrl() -> (m: Self)
        ensures
            !m.shift && m.ctrl && !m.alt,
    {
        Self { shift: false, ctrl: true, alt: false }
    }

    pub fn alt() -> (m: Self)
        ensures
            !m.shift && !m.ctrl && m.alt,
    {
        Self { shift: false, ctrl: false, alt: true }
    }

    pub fn ctrl_alt() -> (m: Self)
        ensures
            !m.shift && m.ctrl && m.alt,
    {
        Self { shift: false, ctrl: true, alt: true }
    }
}

// === Keybinding presets ===
/// A preset of Ctrl+key bindings.
#[derive(Debug, Clone, Copy, PartialEq, Eq, Structural)]
pub enum KeybindPreset {
    /// No Ctrl+key binding (the default).
    Disabled,
    /// Only keys that rarely clash (Ctrl+J, Ctrl+G, Ctrl+M).
    Minimal,
    /// The full Emacs set (Ctrl+B/D/F/G/H/J/M/N/P).
    Emacs,
}

/// The Ctrl+key bindings.
///
/// A field that is `None` leaves that key to the operating system.
#[derive(Debug, Clone, Copy, PartialEq, Eq, Structural)]
pub struct CtrlKeyConfig {
    pub ctrl_b: Option<EngineCommand>,
    pub ctrl_d: Option<EngineCommand>,
    pub ctrl_f: Option<EngineCommand>,
    pub ctrl_g: Option<EngineCommand>,
    pub ctrl_h: Option<EngineCommand>,
    pub ctrl_j: Option<EngineCommand>,
    pub ctrl_m: Option<EngineCommand>,
    pub ctrl_n: Option<EngineCommand>,
    pub ctrl_p: Option<EngineCommand>,
}

/// The bindings that a preset gives.
pub open spec fn preset_config(preset: KeybindPreset) -> CtrlKeyConfig {
    match preset {
        KeybindPreset::Disabled => CtrlKeyConfig {
            ctrl_b: None,
            ctrl_d: None,
            ctrl_f: None,
            ctrl_g: None,
            ctrl_h: None,
            ctrl_j: None,
            ctrl_m: None,
            ctrl_n: None,
            ctrl_p: None,
        },
        KeybindPreset::Minimal => CtrlKeyConfig {
            ctrl_b: None,
            ctrl_d: None,
            ctrl_f: None,
            ctrl_g: Some(EngineCommand::Cancel),
            ctrl_h: None,
            ctrl_j: Some(EngineCommand::Commit),
            ctrl_m: Some(EngineCommand::Commit),
            ctrl_n: None,
            ctrl_p: None,
        },
        KeybindPreset::Emacs => CtrlKeyConfig {
            ctrl_b: Some(EngineCommand::CursorLeft),
            ctrl_d: Some(EngineCommand::Delete),
            ctrl_f: Some(EngineCommand::CursorRight),
            ctrl_g: Some(EngineCommand::Cancel),
            ctrl_h: Some(EngineCommand::Backspace),
            ctrl_j: Some(EngineCommand::Commit),
            ctrl_m: Some(EngineCommand::Commit),
            ctrl_n: Some(EngineCommand::NextCandidate),
            ctrl_p: Some(EngineCommand::PrevCandidate),
        },
    }
}

impl CtrlKeyConfig {
    /// Builds the bindings of a preset.
    pub fn from_preset(preset: &KeybindPreset) -> (config: Self)
        ensures
            config == preset_config(*preset),
    {
        match preset {
            KeybindPreset::Disabled => Self {
                ctrl_b: None,
                ctrl_d: None,
                ctrl_f: None,
                ctrl_g: None,
                ctrl_h: None,
                ctrl_j: None,
                ctrl_m: None,
                ctrl_n: None,
                ctrl_p: None,
            },
            KeybindPreset::Minimal => Self {
                ctrl_b: None,
                ctrl_d: None,
                ctrl_f: None,
                ctrl_g: Some(EngineCommand::Cancel),
                ctrl_h: None,
                ctrl_j: Some(EngineCommand::Commit),
                ctrl_m: Some(EngineCommand::Commit),
                ctrl_n: None,
                ctrl_p: None,
            },
            KeybindPreset::Emacs => Self {
                ctrl_b: Some(EngineCommand::CursorLeft),
                ctrl_d: Some(EngineCommand::Delete),
                ctrl_f: Some(EngineCommand::CursorRight),
                ctrl_g: Some(EngineCommand::Cancel),
                ctrl_h: Some(EngineCommand::Backspace),
                ctrl_j: Some(EngineCommand::Commit),
                ctrl_m: Some(EngineCommand::Commit),
                ctrl_n: Some(EngineCommand::NextCandidate),
                ctrl_p: Some(EngineCommand::PrevCandidate),
            },
        }
    }
}

impl Default for CtrlKeyConfig {
    /// The bindings of the `Disabled` preset.
    fn default() -> (config: Self)
        ensures
            config == preset_config(KeybindPreset::Disabled),
    {
        Self::from_preset(&KeybindPreset::Disabled)
    }
}

/// The binding of `vk` pressed together with Ctrl alone.
pub open spec fn ctrl_binding(vk: u16, config: CtrlKeyConfig) -> Option<EngineCommand> {
    if vk == VK_B {
        config.ctrl_b
    } else if vk == VK_D {
        config.ctrl_d
    } else if vk == VK_F {
        config.ctrl_f
    } else if vk == VK_G {
        config.ctrl_g
    } else if vk == VK_H {
        config.ctrl_h
    } else if vk == VK_J {
        config.ctrl_j
    } else if vk == VK_M {
        config.ctrl_m
    } else if vk == VK_N {
        config.ctrl_n
    } else if vk == VK_P {
        config.ctrl_p
    } else {
        None
    }
}

/// The letter key `vk` (one of `VK_A` to `VK_Z`) types: lower case, or upper case with Shift.
pub open spec fn letter_char(vk: u16, shift: bool) -> char
    recommends
        VK_A <= vk <= VK_Z,
{
    if shift {
        ('A' as int + (vk - VK_A)) as char
    } else {
        ('a' as int + (vk - VK_A)) as char
    }
}

/// The digit the key `vk` (one of `VK_0` to `VK_9`) types.
pub open spec fn digit_char(vk: u16) -> char
    recommends
        VK_0 <= vk <= VK_9,
{
    ('0' as int + (vk - VK_0)) as char
}

/// The command of a key pressed with neither Ctrl nor Alt.
pub open spec fn plain_key_command(vk: u16, shift: bool) -> Option<EngineCommand> {
    if VK_A <= vk <= VK_Z {
        Some(EngineCommand::InsertChar(letter_char(vk, shift)))
    } else if VK_0 <= vk <= VK_9 {
        if shift {
            None
        } else {
            Some(EngineCommand::InsertChar(digit_char(vk)))
        }
    } else if vk == VK_SPACE {
        Some(EngineCommand::Convert)
    } else if vk == VK_F7 {
        Some(EngineCommand::ConvertKatakana)
    } else if vk == VK_RETURN {
        Some(EngineCommand::Commit)
    } else if vk == VK_ESCAPE {
        Some(EngineCommand::Cancel)
    } else if vk == VK_BACK {
        Some(EngineCommand::Backspace)
    } else if vk == VK_LEFT {
        Some(EngineCommand::CursorLeft)
    } else if vk == VK_RIGHT {
        Some(EngineCommand::CursorRight)
    } else if vk == VK_DOWN {
        Some(EngineCommand::NextCandidate)
    } else if vk == VK_UP {
        Some(EngineCommand::PrevCandidate)
    } else if vk == VK_DELETE {
        Some(EngineCommand::Delete)
    } else if vk == VK_OEM_MINUS {
        Some(EngineCommand::InsertChar('-'))
    } else if vk == VK_OEM_PERIOD {
        Some(EngineCommand::InsertChar('.'))
    } else if vk == VK_OEM_COMMA {
        Some(EngineCommand::InsertChar(','))
    } else {
        None
    }
}

/// The command a key press becomes: nothing while the IME is off, with Alt, or
/// with Ctrl+Shift; the configured binding with Ctrl; the key's own command otherwise.
pub open spec fn key_command(
    vk: u16,
    modifiers: Modifiers,
    ime_on: bool,
    config: CtrlKeyConfig,
) -> Option<EngineCommand> {
    if !ime_on || modifiers.alt {
        None
    } else if modifiers.ctrl {
        if modifiers.shift {
            None
        } else {
            ctrl_binding(vk, config)
        }
    } else {
        plain_key_command(vk, modifiers.shift)
    }
}

/// Whether a key types a character: a letter, a digit without Shift, `-`, `.` or `,`,
/// pressed with neither Ctrl nor Alt.
pub open spec fn character_key(vk: u16, modifiers: Modifiers) -> bool {
    &&& !modifiers.ctrl
    &&& !modifiers.alt
    &&& {
        ||| VK_A <= vk <= VK_Z
        ||| (VK_0 <= vk <= VK_9 && !modifiers.shift)
        ||| vk == VK_OEM_MINUS
        ||| vk == VK_OEM_PERIOD
        ||| vk == VK_OEM_COMMA
    }
}

/// Whether the IME keeps a mapped key from the application in the given engine state.
pub open spec fn consumes(
    state: EngineState,
    vk: u16,
    modifiers: Modifiers,
    command: Option<EngineCommand>,
) -> bool {
    match command {
        None => false,
        Some(c) => match state {
            EngineState::Direct => character_key(vk, modifiers),
            EngineState::Composing => !(c is NextCandidate || c is PrevCandidate),
            EngineState::Converting => !(c is CursorLeft || c is CursorRight || c is Delete),
        },
    }
}

/// Whether the pending input is to be committed before a key goes on to the application.
pub open spec fn commits_before_passthrough(
    state: EngineState,
    command: Option<EngineCommand>,
) -> bool {
    match command {
        None => false,
        Some(c) => match state {
            EngineState::Direct => false,
            EngineState::Composing => c is NextCandidate || c is PrevCandidate,
            EngineState::Converting => c is CursorLeft || c is CursorRight || c is Delete,
        },
    }
}

/// Turns a virtual-key code and the modifier state into an engine command.
///
/// - `vk`: the Windows virtual-key code
/// - `modifiers`: the modifier state
/// - `ime_on`: whether the IME is on
/// - `ctrl_config`: the Ctrl+key bindings
///
/// Returns the command, or `None` for a key the IME leaves alone.
pub fn map_key(vk: u16, modifiers: &Modifiers, ime_on: bool, ctrl_config: &CtrlKeyConfig) -> (r:
    Option<EngineCommand>)
    ensures
        r == key_command(vk, *modifiers, ime_on, *ctrl_config),
{
    if !ime_on {
        return None;
    }
    // Alt always goes to the operating system.
    if modifiers.alt {
        return None;
    }
    // Ctrl+key follows the configuration; Ctrl+Shift goes to the operating system.
    if modifiers.ctrl {
        if modifiers.shift {
            return None;
        }
        return map_ctrl_key(vk, ctrl_config);
    }
    if VK_A <= vk && vk <= VK_Z {
        let offset = (vk - VK_A) as u8;
        let ch = if modifiers.shift {
            (65u8 + offset) as char
        } else {
            (97u8 + offset) as char
        };
        Some(EngineCommand::InsertChar(ch))
    } else if VK_0 <= vk && vk <= VK_9 {
        if modifiers.shift {
            None
        } else {
            let ch = (48u8 + (vk - VK_0) as u8) as char;
            Some(EngineCommand::InsertChar(ch))
        }
    } else if vk == VK_SPACE {
        Some(EngineCommand::Convert)
    } else if vk == VK_F7 {
        Some(EngineCommand::ConvertKatakana)
    } else if vk == VK_RETURN {
        Some(EngineCommand::Commit)
    } else if vk == VK_ESCAPE {
        Some(EngineCommand::Cancel)
    } else if vk == VK_BACK {
        Some(EngineCommand::Backspace)
    } else if vk == VK_LEFT {
        Some(EngineCommand::CursorLeft)
    } else if vk == VK_RIGHT {
        Some(EngineCommand::CursorRight)
    } else if vk == VK_DOWN {
        Some(EngineCommand::NextCandidate)
    } else if vk == VK_UP {
        Some(EngineCommand::PrevCandidate)
    } else if vk == VK_DELETE {
        Some(EngineCommand::Delete)
    } else if vk == VK_OEM_MINUS {
        Some(EngineCommand::InsertChar('-'))
    } else if vk == VK_OEM_PERIOD {
        Some(EngineCommand::InsertChar('.'))
    } else if vk == VK_OEM_COMMA {
        Some(EngineCommand::InsertChar(','))
    } else {
        None
    }
}

/// Whether a key produces text input (`InsertChar`).
///
/// Used to tell which keys to consume in the Direct state; the condition is that
/// of the branches of `map_key` that return `InsertChar`. A key pressed with Ctrl
/// or Alt is not a character key.
pub fn is_character_key(vk: u16, modifiers: &Modifiers) -> (r: bool)
    ensures
        r == character_key(vk, *modifiers),
{
    if modifiers.ctrl || modifiers.alt {
        return false;
    }
    if VK_A <= vk && vk <= VK_Z {
        true
    } else if VK_0 <= vk && vk <= VK_9 {
        !modifiers.shift
    } else {
        vk == VK_OEM_MINUS || vk == VK_OEM_PERIOD || vk == VK_OEM_COMMA
    }
}

/// Whether the IME consumes a mapped key, given the engine state.
///
/// A consumed key does not reach the application. A command that does nothing in
/// a state is not consumed, so that cursor movement, new lines and spaces keep
/// working in the application.
///
/// - Direct: only character keys are consumed; arrows, Backspace, Enter, Space,
///   Escape and Delete go to the application.
/// - Composing: candidate navigation (`NextCandidate`/`PrevCandidate`) is not
///   consumed, as there are no candidates yet.
/// - Converting: `CursorLeft`, `CursorRight` and `Delete` are not consumed.
pub fn should_consume_key(
    state: EngineState,
    vk: u16,
    modifiers: &Modifiers,
    command: &Option<EngineCommand>,
) -> (r: bool)
    ensures
        r == consumes(state, vk, *modifiers, *command),
{
    let command = match command {
        Some(c) => c,
        None => {
            return false;
        },
    };
    match state {
        EngineState::Direct => is_character_key(vk, modifiers),
        EngineState::Composing => !matches!(
            command,
            EngineCommand::NextCandidate | EngineCommand::PrevCandidate
        ),
        EngineState::Converting => !matches!(
            command,
            EngineCommand::CursorLeft | EngineCommand::CursorRight | EngineCommand::Delete
        ),
    }
}

/// Whether the pending input is to be committed before a key that is not consumed
/// goes on to the application.
///
/// Passing cursor movement, deletion or candidate navigation to the application
/// while a composition is active would leave the composition and the
/// application's caret apart, and the next consumed key would commit an old
/// candidate at the wrong place. So these keys commit first:
/// - the up and down arrows (`NextCandidate`/`PrevCandidate`) while Composing
/// - `CursorLeft`, `CursorRight` and `Delete` while Converting
///
/// The Direct state has no composition and needs no commit; unmapped keys commit nothing.
pub fn should_commit_before_passthrough(state: EngineState, command: &Option<EngineCommand>) -> (r:
    bool)
    ensures
        r == commits_before_passthrough(state, *command),
{
    let command = match command {
        Some(c) => c,
        None => {
            return false;
        },
    };
    match state {
        EngineState::Direct => false,
        EngineState::Composing => matches!(
            command,
            EngineCommand::NextCandidate | EngineCommand::PrevCandidate
        ),
        EngineState::Converting => matches!(
            command,
            EngineCommand::CursorLeft | EngineCommand::CursorRight | EngineCommand::Delete
        ),
    }
}

/// Turns Ctrl+key into a command according to the bindings.
fn map_ctrl_key(vk: u16, config: &CtrlKeyConfig) -> (r: Option<EngineCommand>)
    ensures
        r == ctrl_binding(vk, *config),
{
    if vk == VK_B {
        config.ctrl_b
    } else if vk == VK_D {
        config.ctrl_d
    } else if vk == VK_F {
        config.ctrl_f
    } else if vk == VK_G {
        config.ctrl_g
    } else if vk == VK_H {
        config.ctrl_h
    } else if vk == VK_J {
        config.ctrl_j
    } else if vk == VK_M {
        config.ctrl_m
    } else if vk == VK_N {
        config.ctrl_n
    } else if vk == VK_P {
        config.ctrl_p
    } else {
        None
    }
}

// === Laws ===
/// While the IME is off, with Alt held, or with Ctrl+Shift held, no key becomes a
/// command: such keys always go on to the operating system.
pub proof fn lemma_keys_left_to_system(
    vk: u16,
    modifiers: Modifiers,
    ime_on: bool,
    config: CtrlKeyConfig,
)
    requires
        !ime_on || modifiers.alt || (modifiers.ctrl && modifiers.shift),
    ensures
        key_command(vk, modifiers, ime_on, config) is None,
{
}

/// A key is a character key exactly when `map_key` turns it into `InsertChar`
/// (with the IME on), unless a Ctrl binding itself is an `InsertChar`.
pub proof fn lemma_character_key_iff_insert_char(
    vk: u16,
    modifiers: Modifiers,
    config: CtrlKeyConfig,
)
    requires
        !(modifiers.ctrl && !modifiers.alt && !modifiers.shift && ctrl_binding(vk, config) is Some
            && ctrl_binding(vk, config)->0 is InsertChar),
    ensures
        character_key(vk, modifiers) <==> (key_command(vk, modifiers, true, config) is Some
            && key_command(vk, modifiers, true, config)->0 is InsertChar),
{
}

/// A key whose pending input is committed before it passes is never a consumed key.
pub proof fn lemma_commit_implies_not_consumed(
    state: EngineState,
    vk: u16,
    modifiers: Modifiers,
    command: Option<EngineCommand>,
)
    requires
        commits_before_passthrough(state, command),
    ensures
        !consumes(state, vk, modifiers, command),
{
}

/// An unmapped key is neither consumed nor makes the pending input commit.
pub proof fn lemma_unmapped_key_untouched(state: EngineState, vk: u16, modifiers: Modifiers)
    ensures
        !consumes(state, vk, modifiers, None),
        !commits_before_passthrough(state, None),
{
}

/// In the Direct state a mapped key is consumed exactly when it is a character key.
pub proof fn lemma_direct_consumes_only_characters(
    vk: u16,
    modifiers: Modifiers,
    command: EngineCommand,
)
    ensures
        consumes(EngineState::Direct, vk, modifiers, Some(command)) == character_key(vk, modifiers),
{
}

/// With Shift a letter key types the upper-case form of the letter it types without Shift.
pub proof fn lemma_shift_upper_cases_letters(vk: u16, config: CtrlKeyConfig)
    requires
        VK_A <= vk <= VK_Z,
    ensures
        key_command(vk, Modifiers { shift: false, ctrl: false, alt: false }, true, config)
            == Some(EngineCommand::InsertChar(letter_char(vk, false))),
        key_command(vk, Modifiers { shift: true, ctrl: false, alt: false }, true, config)
            == Some(EngineCommand::InsertChar(letter_char(vk, true))),
        letter_char(vk, true) as int == letter_char(vk, false) as int - 32,
        'a' <= letter_char(vk, false) <= 'z',
        'A' <= letter_char(vk, true) <= 'Z',
{
}

/// The `Disabled` preset binds no key; every key the `Minimal` preset binds is
/// bound to the same command by the `Emacs` preset.
pub proof fn lemma_presets_nested(vk: u16)
    ensures
        ctrl_binding(vk, preset_config(KeybindPreset::Disabled)) is None,
        ctrl_binding(vk, preset_config(KeybindPreset::Minimal)) is Some ==> ctrl_binding(
            vk,
            preset_config(KeybindPreset::Emacs),
        ) == ctrl_binding(vk, preset_config(KeybindPreset::Minimal)),
{
}

/// While composing, every mapped command except candidate navigation is consumed
/// (Backspace, Delete and the cursor keys edit the composition; Enter commits it;
/// Escape cancels it; Space and F7 convert it; characters extend it), and the two
/// candidate commands are not. While converting, everything is consumed except the
/// cursor keys and Delete. In both states a mapped key is consumed exactly when it
/// does not commit before passing.
pub proof fn lemma_consumed_while_composing_or_converting(
    vk: u16,
    modifiers: Modifiers,
    c: EngineCommand,
    x: char,
)
    ensures
        consumes(EngineState::Composing, vk, modifiers, Some(EngineCommand::Backspace)),
        consumes(EngineState::Composing, vk, modifiers, Some(EngineCommand::Delete)),
        consumes(EngineState::Composing, vk, modifiers, Some(EngineCommand::CursorLeft)),
        consumes(EngineState::Composing, vk, modifiers, Some(EngineCommand::CursorRight)),
        consumes(EngineState::Composing, vk, modifiers, Some(EngineCommand::Commit)),
        consumes(EngineState::Composing, vk, modifiers, Some(EngineCommand::Cancel)),
        consumes(EngineState::Composing, vk, modifiers, Some(EngineCommand::Convert)),
        consumes(EngineState::Composing, vk, modifiers, Some(EngineCommand::ConvertKatakana)),
        consumes(EngineState::Composing, vk, modifiers, Some(EngineCommand::InsertChar(x))),
        !consumes(EngineState::Composing, vk, modifiers, Some(EngineCommand::NextCandidate)),
        !consumes(EngineState::Composing, vk, modifiers, Some(EngineCommand::PrevCandidate)),
        consumes(EngineState::Converting, vk, modifiers, Some(EngineCommand::NextCandidate)),
        consumes(EngineState::Converting, vk, modifiers, Some(EngineCommand::PrevCandidate)),
        consumes(EngineState::Converting, vk, modifiers, Some(EngineCommand::Backspace)),
        consumes(EngineState::Converting, vk, modifiers, Some(EngineCommand::Commit)),
        consumes(EngineState::Converting, vk, modifiers, Some(EngineCommand::Cancel)),
        consumes(EngineState::Converting, vk, modifiers, Some(EngineCommand::Convert)),
        consumes(EngineState::Converting, vk, modifiers, Some(EngineCommand::ConvertKatakana)),
        consumes(EngineState::Converting, vk, modifiers, Some(EngineCommand::InsertChar(x))),
        !consumes(EngineState::Converting, vk, modifiers, Some(EngineCommand::CursorLeft)),
        !consumes(EngineState::Converting, vk, modifiers, Some(EngineCommand::CursorRight)),
        !consumes(EngineState::Converting, vk, modifiers, Some(EngineCommand::Delete)),
        consumes(EngineState::Composing, vk, modifiers, Some(c)) <==> !commits_before_passthrough(
            EngineState::Composing,
            Some(c),
        ),
        consumes(EngineState::Converting, vk, modifiers, Some(c)) <==> !commits_before_passthrough(
            EngineState::Converting,
            Some(c),
        ),
        !commits_before_passthrough(EngineState::Direct, Some(c)),
{
}

/// A digit key types its digit, `0` to `9` in key order, and only without Shift:
/// with Shift it maps to nothing and is no character key, so the system types the
/// symbol (`!`, `@`, `#`, ...).
pub proof fn lemma_digit_keys(vk: u16, config: CtrlKeyConfig)
    requires
        VK_0 <= vk <= VK_9,
    ensures
        key_command(vk, Modifiers { shift: true, ctrl: false, alt: false }, true, config) is None,
        !character_key(vk, Modifiers { shift: true, ctrl: false, alt: false }),
        character_key(vk, Modifiers { shift: false, ctrl: false, alt: false }),
        key_command(vk, Modifiers { shift: false, ctrl: false, alt: false }, true, config)
            == Some(EngineCommand::InsertChar(digit_char(vk))),
        digit_char(vk) as int == 48 + (vk - 0x30),
        '0' <= digit_char(vk) <= '9',
{
}

/// Letters type their letter: key `A` + i types the i-th letter, `a` to `z`
/// without Shift and `A` to `Z` with it; both are character keys.
pub proof fn lemma_letter_keys(vk: u16, config: CtrlKeyConfig)
    requires
        VK_A <= vk <= VK_Z,
    ensures
        letter_char(vk, false) as int == 97 + (vk - 0x41),
        letter_char(vk, true) as int == 65 + (vk - 0x41),
        character_key(vk, Modifiers { shift: false, ctrl: false, alt: false }),
        character_key(vk, Modifiers { shift: true, ctrl: false, alt: false }),
{
}

/// The keys of the engine's commands without modifiers: Space converts, F7 converts
/// to katakana, Enter commits, Escape cancels, Backspace and Delete delete, the
/// arrows move the cursor (left, right) and the candidate (down: next, up:
/// previous), and `-` `.` `,` type themselves. None of the non-character keys is a
/// character key.
pub proof fn lemma_special_keys(config: CtrlKeyConfig)
    ensures
        ({
            let m = Modifiers { shift: false, ctrl: false, alt: false };
            &&& key_command(0x20, m, true, config) == Some(EngineCommand::Convert)
            &&& key_command(0x76, m, true, config) == Some(EngineCommand::ConvertKatakana)
            &&& key_command(0x0D, m, true, config) == Some(EngineCommand::Commit)
            &&& key_command(0x1B, m, true, config) == Some(EngineCommand::Cancel)
            &&& key_command(0x08, m, true, config) == Some(EngineCommand::Backspace)
            &&& key_command(0x2E, m, true, config) == Some(EngineCommand::Delete)
            &&& key_command(0x25, m, true, config) == Some(EngineCommand::CursorLeft)
            &&& key_command(0x27, m, true, config) == Some(EngineCommand::CursorRight)
            &&& key_command(0x28, m, true, config) == Some(EngineCommand::NextCandidate)
            &&& key_command(0x26, m, true, config) == Some(EngineCommand::PrevCandidate)
            &&& key_command(0xBD, m, true, config) == Some(EngineCommand::InsertChar('-'))
            &&& key_command(0xBE, m, true, config) == Some(EngineCommand::InsertChar('.'))
            &&& key_command(0xBC, m, true, config) == Some(EngineCommand::InsertChar(','))
            &&& !character_key(0x20, m) && !character_key(0x0D, m) && !character_key(0x08, m)
            &&& !character_key(0x1B, m) && !character_key(0x2E, m) && !character_key(0x25, m)
            &&& !character_key(0x26, m) && !character_key(0x27, m) && !character_key(0x28, m)
            &&& character_key(0xBD, m) && character_key(0xBE, m) && character_key(0xBC, m)
        }),
{
}

/// With Ctrl alone a key gives exactly its configured binding (Ctrl+B, D, F, G, H,
/// J, M, N, P) and any other key gives nothing; the presets bind as documented:
/// Minimal binds Ctrl+G to Cancel and Ctrl+J, Ctrl+M to Commit, Emacs adds
/// Ctrl+B/F (cursor), Ctrl+D (Delete), Ctrl+H (Backspace), Ctrl+N/P (candidates).
pub proof fn lemma_ctrl_bindings(vk: u16, config: CtrlKeyConfig)
    ensures
        ({
            let m = Modifiers { shift: false, ctrl: true, alt: false };
            &&& key_command(0x42, m, true, config) == config.ctrl_b
            &&& key_command(0x44, m, true, config) == config.ctrl_d
            &&& key_command(0x46, m, true, config) == config.ctrl_f
            &&& key_command(0x47, m, true, config) == config.ctrl_g
            &&& key_command(0x48, m, true, config) == config.ctrl_h
            &&& key_command(0x4A, m, true, config) == config.ctrl_j
            &&& key_command(0x4D, m, true, config) == config.ctrl_m
            &&& key_command(0x4E, m, true, config) == config.ctrl_n
            &&& key_command(0x50, m, true, config) == config.ctrl_p
            &&& (vk != 0x42 && vk != 0x44 && vk != 0x46 && vk != 0x47 && vk != 0x48 && vk != 0x4A
                && vk != 0x4D && vk != 0x4E && vk != 0x50) ==> key_command(vk, m, true, config)
                is None
        }),
        ({
            let mini = preset_config(KeybindPreset::Minimal);
            let emacs = preset_config(KeybindPreset::Emacs);
            &&& mini.ctrl_g == Some(EngineCommand::Cancel) && mini.ctrl_j == Some(
                EngineCommand::Commit,
            ) && mini.ctrl_m == Some(EngineCommand::Commit)
            &&& mini.ctrl_b is None && mini.ctrl_d is None && mini.ctrl_f is None
                && mini.ctrl_h is None && mini.ctrl_n is None && mini.ctrl_p is None
            &&& emacs.ctrl_b == Some(EngineCommand::CursorLeft) && emacs.ctrl_f == Some(
                EngineCommand::CursorRight,
            ) && emacs.ctrl_d == Some(EngineCommand::Delete)
            &&& emacs.ctrl_h == Some(EngineCommand::Backspace) && emacs.ctrl_n == Some(
                EngineCommand::NextCandidate,
            ) && emacs.ctrl_p == Some(EngineCommand::PrevCandidate)
            &&& emacs.ctrl_g == mini.ctrl_g && emacs.ctrl_j == mini.ctrl_j && emacs.ctrl_m
                == mini.ctrl_m
        }),
{
}

} // verus!
