use enpitsu::input_state::{Conversion, InputState};

/// A small romaji converter for the tests: it knows the syllables the tests type,
/// the doubled consonant (っ), `n` before a consonant (ん), and keeps an unfinished
/// syllable pending.
fn romaji_convert(input: &str) -> Conversion {
    const TABLE: &[(&str, &str)] = &[
        ("kyo", "きょ"),
        ("chi", "ち"),
        ("tsu", "つ"),
        ("ka", "か"),
        ("ki", "き"),
        ("ku", "く"),
        ("ke", "け"),
        ("ko", "こ"),
        ("ta", "た"),
        ("te", "て"),
        ("to", "と"),
        ("na", "な"),
        ("ni", "に"),
        ("nu", "ぬ"),
        ("ne", "ね"),
        ("no", "の"),
        ("wa", "わ"),
        ("a", "あ"),
        ("i", "い"),
        ("u", "う"),
        ("e", "え"),
        ("o", "お"),
    ];
    let chars: Vec<char> = input.chars().collect();
    let mut output = String::new();
    let mut i = 0;
    while i < chars.len() {
        let rest: String = chars[i..].iter().collect();
        if let Some((romaji, kana)) = TABLE.iter().find(|(r, _)| rest.starts_with(r)) {
            output.push_str(kana);
            i += romaji.chars().count();
            continue;
        }
        let c = chars[i];
        if let Some(&next) = chars.get(i + 1) {
            if c == 'n' && !"aiueoy".contains(next) {
                output.push('ん');
                i += 1;
                continue;
            }
            if c == next && !"aiueon".contains(c) {
                output.push('っ');
                i += 1;
                continue;
            }
        }
        if TABLE.iter().any(|(r, _)| r.starts_with(rest.as_str())) {
            return Conversion { output, pending: rest };
        }
        output.push(c);
        i += 1;
    }
    Conversion { output, pending: String::new() }
}

// === Typing one character at a time ===

#[test]
fn feed_single_vowel() {
    let mut state = InputState::new();
    state.feed_char('a', &romaji_convert);
    assert_eq!(state.output(), "あ");
    assert_eq!(state.pending(), "");
}

#[test]
fn feed_consonant_then_vowel() {
    let mut state = InputState::new();
    state.feed_char('k', &romaji_convert);
    assert_eq!(state.output(), "");
    assert_eq!(state.pending(), "k");
    state.feed_char('a', &romaji_convert);
    assert_eq!(state.output(), "か");
    assert_eq!(state.pending(), "");
}

#[test]
fn feed_sequence_aiueo() {
    let mut state = InputState::new();
    for ch in "aiueo".chars() {
        state.feed_char(ch, &romaji_convert);
    }
    assert_eq!(state.output(), "あいうえお");
    assert_eq!(state.pending(), "");
}

// === Doubled consonant ===

#[test]
fn feed_sokuon() {
    let mut state = InputState::new();
    for ch in "kakko".chars() {
        state.feed_char(ch, &romaji_convert);
    }
    assert_eq!(state.output(), "かっこ");
}

// === ん ===

#[test]
fn feed_nn() {
    let mut state = InputState::new();
    state.feed_char('n', &romaji_convert);
    state.feed_char('n', &romaji_convert);
    assert_eq!(state.output(), "ん");
    assert_eq!(state.pending(), "n");
}

#[test]
fn feed_n_before_consonant() {
    let mut state = InputState::new();
    for ch in "kanta".chars() {
        state.feed_char(ch, &romaji_convert);
    }
    assert_eq!(state.output(), "かんた");
}

// === flush ===

#[test]
fn flush_trailing_n() {
    let mut state = InputState::new();
    for ch in "kan".chars() {
        state.feed_char(ch, &romaji_convert);
    }
    assert_eq!(state.output(), "か");
    assert_eq!(state.pending(), "n");
    state.flush();
    assert_eq!(state.output(), "かん");
    assert_eq!(state.pending(), "");
}

#[test]
fn flush_empty_pending() {
    let mut state = InputState::new();
    for ch in "ka".chars() {
        state.feed_char(ch, &romaji_convert);
    }
    state.flush();
    assert_eq!(state.output(), "か");
    assert_eq!(state.pending(), "");
}

// === reset ===

#[test]
fn reset_clears_all() {
    let mut state = InputState::new();
    for ch in "ka".chars() {
        state.feed_char(ch, &romaji_convert);
    }
    state.reset();
    assert_eq!(state.output(), "");
    assert_eq!(state.pending(), "");
}

// === Agreement with converting the whole input at once ===

#[test]
fn matches_batch_convert() {
    let input = "konnichiwa";
    let batch = romaji_convert(input);

    let mut state = InputState::new();
    for ch in input.chars() {
        state.feed_char(ch, &romaji_convert);
    }
    state.flush();

    // after a flush the output is the batch conversion's output
    assert_eq!(state.output(), batch.output);
}

#[test]
fn matches_batch_convert_toukyou() {
    let input = "toukyou";
    let batch = romaji_convert(input);

    let mut state = InputState::new();
    for ch in input.chars() {
        state.feed_char(ch, &romaji_convert);
    }
    state.flush();

    assert_eq!(state.output(), batch.output);
}

// === backspace ===

#[test]
fn backspace_removes_pending() {
    let mut state = InputState::new();
    state.feed_char('k', &romaji_convert);
    assert_eq!(state.pending(), "k");
    state.backspace();
    assert_eq!(state.pending(), "");
    assert_eq!(state.output(), "");
}

#[test]
fn backspace_removes_output_char() {
    let mut state = InputState::new();
    state.feed_char('k', &romaji_convert);
    state.feed_char('a', &romaji_convert);
    assert_eq!(state.output(), "か");
    assert_eq!(state.pending(), "");
    state.backspace();
    assert_eq!(state.output(), "");
    assert_eq!(state.pending(), "");
}

#[test]
fn backspace_on_empty_does_nothing() {
    let mut state = InputState::new();
    state.backspace();
    assert_eq!(state.output(), "");
    assert_eq!(state.pending(), "");
}

#[test]
fn backspace_multi_char_output() {
    let mut state = InputState::new();
    for ch in "ka".chars() {
        state.feed_char(ch, &romaji_convert);
    }
    for ch in "ki".chars() {
        state.feed_char(ch, &romaji_convert);
    }
    assert_eq!(state.output(), "かき");
    state.backspace();
    assert_eq!(state.output(), "か");
}

// === output_before / output_after / display ===

#[test]
fn output_before_equals_output_initially() {
    let mut state = InputState::new();
    for ch in "ka".chars() {
        state.feed_char(ch, &romaji_convert);
    }
    assert_eq!(state.output_before(), state.output());
}

#[test]
fn output_after_empty_initially() {
    let mut state = InputState::new();
    for ch in "ka".chars() {
        state.feed_char(ch, &romaji_convert);
    }
    assert_eq!(state.output_after(), "");
}

#[test]
fn display_equals_output_plus_pending() {
    let mut state = InputState::new();
    for ch in "kak".chars() {
        state.feed_char(ch, &romaji_convert);
    }
    let expected = format!("{}{}", state.output(), state.pending());
    assert_eq!(state.display(), expected);
}

// === is_empty ===

#[test]
fn is_empty_after_input() {
    let mut state = InputState::new();
    assert!(state.is_empty());
    state.feed_char('k', &romaji_convert);
    assert!(!state.is_empty());
}

// === Further cases ===

#[test]
fn flush_commits_other_pending_as_is() {
    let mut state = InputState::new();
    state.feed_char('k', &romaji_convert);
    state.flush();
    assert_eq!(state.output(), "k");
    assert_eq!(state.pending(), "");
    // a second flush changes nothing
    state.flush();
    assert_eq!(state.output(), "k");
}

#[test]
fn default_is_empty_and_reset_empties() {
    let mut state = InputState::default();
    assert!(state.is_empty());
    state.feed_char('a', &romaji_convert);
    state.feed_char('k', &romaji_convert);
    assert_eq!(state.display(), "あk");
    state.reset();
    assert!(state.is_empty());
    assert_eq!(state.display(), "");
}

#[test]
fn feed_char_hands_whole_pending_to_converter() {
    // a converter that records what it sees and finishes nothing
    let seen = std::cell::RefCell::new(Vec::new());
    let keep = |s: &str| {
        seen.borrow_mut().push(s.to_string());
        Conversion { output: String::new(), pending: s.to_string() }
    };
    let mut state = InputState::new();
    state.feed_char('x', &keep);
    state.feed_char('y', &keep);
    assert_eq!(*seen.borrow(), vec!["x".to_string(), "xy".to_string()]);
    assert_eq!(state.pending(), "xy");
    assert_eq!(state.output(), "");
}
