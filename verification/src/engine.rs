//! Commands and states of the conversion engine that key handling talks about.
use vstd::prelude::*;

verus! {

/// The state of the conversion engine.
#[derive(Clone, Copy, Debug, PartialEq, Eq, Structural)]
pub enum EngineState {
    /// No text is being composed.
    Direct,
    /// Romaji is being typed and shown as unconverted kana.
    Composing,
    /// Candidates for the composed reading are being chosen.
    Converting,
}

/// A command handed to the conversion engine.
#[derive(Clone, Copy, Debug, PartialEq, Eq, Structural)]
pub enum EngineCommand {
    /// Insert one typed character.
    InsertChar(char),
    /// Start conversion (or move to the next candidate).
    Convert,
    /// Convert the reading to katakana.
    ConvertKatakana,
    /// Select the next candidate.
    NextCandidate,
    /// Select the previous candidate.
    PrevCandidate,
    /// Commit the current text.
    Commit,
    /// Cancel the current composition or conversion.
    Cancel,
    /// Delete the character before the cursor.
    Backspace,
    /// Move the cursor one character to the left.
    CursorLeft,
    /// Move the cursor one character to the right.
    CursorRight,
    /// Delete the character after the cursor.
    Delete,
}

/// What the engine reports after a command: the text it committed, the text to
/// show in the composition, and the cursor position in that text (in characters).
#[derive(Debug, Clone)]
pub struct EngineOutput {
    pub committed: String,
    pub display: String,
    pub cursor_pos: usize,
}

} // verus!
