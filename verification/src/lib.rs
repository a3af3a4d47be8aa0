//! Enpitsu: the verified core of a Japanese input method.
//!
//! - `key_mapping`: virtual-key codes and modifier state to engine commands, and
//!   which keys the IME keeps from the application
//! - `input_state`: romaji typed one character at a time, turned into hiragana
//! - `text_service`: what the TSF text service does with key events and engine output
//! - `registry`: the registry form of GUIDs and the keys of the COM server
//! - `paths`: default locations of the configuration and dictionaries
//! - `cli`: option values and dictionary choice of the command-line tool
//! - `engine`: the commands, states and output of the conversion engine
use vstd::prelude::*;

pub mod cli;
pub mod engine;
pub mod input_state;
pub mod key_mapping;
pub mod paths;
pub mod registry;
mod strings;
pub mod text_service;
