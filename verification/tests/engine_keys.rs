//! Composition keys of the input engine, and its laws on concrete events.

use karukan_tsf::engine::{
    EngineAction, EngineConfig, InputMethodEngine, InputMode, InputState, KeyEvent, KeyModifiers,
    KeybindingProfile, Keysym,
};

fn press(c: char) -> KeyEvent {
    KeyEvent::press(c as u32, KeyModifiers::none())
}

fn key(keysym: u32) -> KeyEvent {
    KeyEvent::press(keysym, KeyModifiers::none())
}

fn type_str(engine: &mut InputMethodEngine, s: &str) {
    for c in s.chars() {
        assert!(engine.process_key(&press(c)).consumed);
    }
}

fn commits(actions: &[EngineAction]) -> Vec<String> {
    actions
        .iter()
        .filter_map(|a| match a {
            EngineAction::Commit(t) => Some(t.clone()),
            _ => None,
        })
        .collect()
}

fn skk_engine() -> InputMethodEngine {
    InputMethodEngine::with_config(EngineConfig { keybinding_profile: KeybindingProfile::Skk })
}

#[test]
fn return_commits_the_reading() {
    let mut engine = InputMethodEngine::new();
    type_str(&mut engine, "kyou");
    match engine.state() {
        InputState::Composing { preedit } => {
            assert_eq!(preedit.text(), "きょう");
            assert_eq!(preedit.caret(), 3);
        }
        _ => panic!("expected composing"),
    }
    let result = engine.process_key(&key(Keysym::RETURN));
    assert!(result.consumed);
    assert_eq!(commits(&result.actions), vec!["きょう".to_string()]);
    assert!(matches!(result.actions.last(), Some(EngineAction::HideCandidates)));
    assert!(matches!(engine.state(), InputState::Empty));
    assert_eq!(engine.input_buf.text, "");
    assert_eq!(engine.input_buf.cursor_pos, 0);
}

#[test]
fn return_flushes_pending_n() {
    let mut engine = InputMethodEngine::new();
    type_str(&mut engine, "hon");
    let result = engine.process_key(&key(Keysym::RETURN));
    assert_eq!(commits(&result.actions), vec!["ほん".to_string()]);
}

#[test]
fn katakana_mode_shows_and_commits_katakana() {
    let mut engine = InputMethodEngine::new();
    engine.input_mode = InputMode::Katakana;
    let result = engine.process_key(&press('k'));
    assert!(result.consumed);
    let result = engine.process_key(&press('a'));
    match &result.actions[0] {
        EngineAction::UpdatePreedit(p) => assert_eq!(p.text(), "カ"),
        _ => panic!("expected a preedit update"),
    }
    assert_eq!(engine.input_buf.text, "か");
    let result = engine.process_key(&key(Keysym::RETURN));
    assert_eq!(commits(&result.actions), vec!["カ".to_string()]);
}

#[test]
fn halfwidth_mode_commits_halfwidth() {
    let mut engine = InputMethodEngine::new();
    engine.input_mode = InputMode::HalfWidthKatakana;
    type_str(&mut engine, "ga");
    let result = engine.process_key(&key(Keysym::RETURN));
    assert_eq!(commits(&result.actions), vec!["ｶﾞ".to_string()]);
}

#[test]
fn backspace_removes_then_ends_composition() {
    let mut engine = InputMethodEngine::new();
    type_str(&mut engine, "kak");
    let result = engine.process_key(&key(Keysym::BACKSPACE));
    assert!(result.consumed);
    match &result.actions[0] {
        EngineAction::UpdatePreedit(p) => assert_eq!(p.text(), "か"),
        _ => panic!("expected a preedit update"),
    }
    let result = engine.process_key(&key(Keysym::BACKSPACE));
    assert!(result.consumed);
    assert!(matches!(engine.state(), InputState::Empty));
    assert!(result.actions.iter().any(|a| matches!(a, EngineAction::HideCandidates)));
}

#[test]
fn escape_cancels_composition() {
    let mut engine = InputMethodEngine::new();
    type_str(&mut engine, "ai");
    let result = engine.process_key(&key(Keysym::ESCAPE));
    assert!(result.consumed);
    assert!(commits(&result.actions).is_empty());
    assert!(matches!(engine.state(), InputState::Empty));
    assert_eq!(engine.input_buf.text, "");
}

#[test]
fn key_release_is_ignored() {
    let mut engine = skk_engine();
    type_str(&mut engine, "a");
    let result = engine.process_key(&KeyEvent::release(Keysym::RETURN, KeyModifiers::none()));
    assert!(!result.consumed);
    assert!(result.actions.is_empty());
    assert!(matches!(engine.state(), InputState::Composing { .. }));
    let result = engine.process_key(&KeyEvent::release(Keysym::KEY_J, KeyModifiers::control()));
    assert!(!result.consumed);
    assert_eq!(engine.input_mode, InputMode::Hiragana);
}

#[test]
fn unused_keys_change_nothing() {
    let mut engine = InputMethodEngine::new();
    let result = engine.process_key(&key(Keysym::SPACE));
    assert!(!result.consumed);
    let result = engine.process_key(&key(Keysym::RETURN));
    assert!(!result.consumed);
    let result = engine.process_key(&KeyEvent::press(0x63, KeyModifiers::control()));
    assert!(!result.consumed);
    assert!(matches!(engine.state(), InputState::Empty));
    assert_eq!(engine.input_mode, InputMode::Hiragana);
}

#[test]
fn default_profile_toggles_direct_input_only() {
    let mut engine = InputMethodEngine::new();
    let result = engine.process_key(&KeyEvent::press(Keysym::KEY_J, KeyModifiers::control()));
    assert!(!result.consumed);
    assert!(!engine.process_key(&key(Keysym::HENKAN)).consumed);
    assert_eq!(engine.input_mode, InputMode::Hiragana);

    let result = engine.process_key(&key(Keysym::ZENKAKU_HANKAKU));
    assert!(result.consumed);
    assert_eq!(engine.input_mode, InputMode::Alphabet);
    assert!(!engine.process_key(&press('a')).consumed);
    let result = engine.process_key(&KeyEvent::press(Keysym::SPACE, KeyModifiers::control()));
    assert!(result.consumed);
    assert_eq!(engine.input_mode, InputMode::Hiragana);
}

#[test]
fn ctrl_space_commits_and_toggles() {
    let mut engine = InputMethodEngine::new();
    type_str(&mut engine, "ne");
    let result = engine.process_key(&KeyEvent::press(Keysym::SPACE, KeyModifiers::control()));
    assert!(result.consumed);
    assert_eq!(commits(&result.actions), vec!["ね".to_string()]);
    assert_eq!(engine.input_mode, InputMode::Alphabet);
    assert!(matches!(engine.state(), InputState::Empty));
}

#[test]
fn ctrl_k_while_composing_selects_katakana() {
    let mut engine = InputMethodEngine::new();
    type_str(&mut engine, "sakur");
    let result = engine.process_key(&KeyEvent::press(Keysym::KEY_K, KeyModifiers::control()));
    assert!(result.consumed);
    assert_eq!(engine.input_mode, InputMode::Katakana);
    match &result.actions[0] {
        EngineAction::UpdatePreedit(p) => assert_eq!(p.text(), "サクr"),
        _ => panic!("expected a preedit update"),
    }
    type_str(&mut engine, "a");
    let result = engine.process_key(&key(Keysym::RETURN));
    assert_eq!(commits(&result.actions), vec!["サクラ".to_string()]);
}

#[test]
fn ctrl_k_outside_composition_is_not_used() {
    let mut engine = InputMethodEngine::new();
    let result = engine.process_key(&KeyEvent::press(Keysym::KEY_K, KeyModifiers::control()));
    assert!(!result.consumed);
    assert_eq!(engine.input_mode, InputMode::Hiragana);
}

#[test]
fn zenkaku_hankaku_twice_returns() {
    let mut engine = skk_engine();
    engine.process_key(&key(Keysym::ZENKAKU_HANKAKU));
    assert_eq!(engine.input_mode, InputMode::Alphabet);
    engine.process_key(&key(Keysym::ZENKAKU_HANKAKU));
    assert_eq!(engine.input_mode, InputMode::Hiragana);
    assert!(matches!(engine.state(), InputState::Empty));
}

#[test]
fn q_twice_returns_to_hiragana() {
    let mut engine = skk_engine();
    engine.process_key(&press('q'));
    engine.process_key(&press('q'));
    assert_eq!(engine.input_mode, InputMode::Hiragana);
}

#[test]
fn q_in_katakana_composing_commits_hiragana() {
    let mut engine = skk_engine();
    engine.input_mode = InputMode::Katakana;
    type_str(&mut engine, "ka");
    let result = engine.process_key(&press('q'));
    assert_eq!(commits(&result.actions), vec!["か".to_string()]);
    assert_eq!(engine.input_mode, InputMode::Katakana);
}

#[test]
fn alphabet_mode_letters_pass_through() {
    let mut engine = skk_engine();
    engine.input_mode = InputMode::Alphabet;
    for c in ['a', 'l', 'q', 'z'] {
        assert!(!engine.process_key(&press(c)).consumed);
    }
    assert!(engine.process_key(&key(Keysym::MUHENKAN)).consumed);
    assert_eq!(engine.input_mode, InputMode::Alphabet);
}

#[test]
fn reset_keeps_mode_and_drops_composition() {
    let mut engine = skk_engine();
    engine.input_mode = InputMode::Katakana;
    type_str(&mut engine, "ka");
    engine.reset();
    assert!(matches!(engine.state(), InputState::Empty));
    assert_eq!(engine.input_mode, InputMode::Katakana);
    assert_eq!(engine.input_buf.text, "");
}

fn ctrl_shift(keysym: u32) -> KeyEvent {
    KeyEvent::press(keysym, KeyModifiers { shift: true, control: true, alt: false, super_key: false })
}

#[test]
fn ctrl_shift_l_toggles_live_conversion() {
    let mut engine = InputMethodEngine::new();
    assert!(!engine.live_conversion);
    let result = engine.process_key(&ctrl_shift(0x4c));
    assert!(result.consumed);
    assert!(result.actions.is_empty());
    assert!(engine.live_conversion);
    assert!(matches!(engine.state(), InputState::Empty));
    let result = engine.process_key(&ctrl_shift(0x6c));
    assert!(result.consumed);
    assert!(!engine.live_conversion);
}

#[test]
fn ctrl_shift_l_keeps_the_composition() {
    let mut engine = InputMethodEngine::new();
    type_str(&mut engine, "ka");
    assert!(engine.process_key(&ctrl_shift(0x4c)).consumed);
    assert!(engine.live_conversion);
    assert_eq!(engine.input_buf.text, "か");
}

#[test]
fn default_profile_commits_unmatched_letter_at_once() {
    let mut engine = InputMethodEngine::new();
    let result = engine.process_key(&press('q'));
    assert!(result.consumed);
    assert_eq!(commits(&result.actions), vec!["q".to_string()]);
    assert!(matches!(engine.state(), InputState::Empty));
    let result = engine.process_key(&press('1'));
    assert!(result.consumed);
    assert_eq!(commits(&result.actions), vec!["1".to_string()]);
    assert!(matches!(engine.state(), InputState::Empty));
}

#[test]
fn default_profile_composes_syllable_letters() {
    let mut engine = InputMethodEngine::new();
    let result = engine.process_key(&press('k'));
    assert!(result.consumed);
    assert!(commits(&result.actions).is_empty());
    assert!(matches!(engine.state(), InputState::Composing { .. }));
}

fn candidates(reading: &str, texts: &[&str]) -> Vec<karukan_tsf::engine::Candidate> {
    texts
        .iter()
        .enumerate()
        .map(|(i, &t)| karukan_tsf::engine::Candidate::with_reading(t, reading).with_index(i))
        .collect()
}

fn selected_text(engine: &InputMethodEngine) -> Option<(String, usize)> {
    match engine.state() {
        InputState::Conversion { preedit, candidates } => Some((preedit.text().to_string(), candidates.selected_index())),
        _ => None,
    }
}

#[test]
fn conversion_begins_with_first_candidate() {
    let mut engine = InputMethodEngine::new();
    type_str(&mut engine, "kyoun");
    let result = engine.begin_conversion(candidates("きょうん", &["今日ん", "京ん"]));
    assert!(result.consumed);
    assert_eq!(engine.input_buf.text, "きょうん");
    assert!(engine.pending.is_empty());
    assert_eq!(selected_text(&engine), Some(("今日ん".to_string(), 0)));
    assert!(matches!(&result.actions[0], EngineAction::UpdatePreedit(p) if p.text() == "今日ん"));
    assert!(matches!(&result.actions[1], EngineAction::ShowCandidates(l) if l.len() == 2));
}

#[test]
fn conversion_needs_composition_and_candidates() {
    let mut engine = InputMethodEngine::new();
    assert!(!engine.begin_conversion(candidates("", &["x"])).consumed);
    assert!(matches!(engine.state(), InputState::Empty));
    type_str(&mut engine, "ka");
    assert!(!engine.begin_conversion(Vec::new()).consumed);
    assert_eq!(engine.input_buf.text, "か");
}

#[test]
fn space_and_arrows_move_the_selection() {
    let mut engine = InputMethodEngine::new();
    type_str(&mut engine, "kyou");
    engine.begin_conversion(candidates("きょう", &["今日", "京", "恭"]));
    let result = engine.process_key(&key(Keysym::SPACE));
    assert!(result.consumed);
    assert_eq!(selected_text(&engine), Some(("京".to_string(), 1)));
    engine.process_key(&key(Keysym::DOWN));
    assert_eq!(selected_text(&engine), Some(("恭".to_string(), 2)));
    engine.process_key(&key(Keysym::SPACE));
    assert_eq!(selected_text(&engine), Some(("今日".to_string(), 0)));
    engine.process_key(&key(Keysym::UP));
    assert_eq!(selected_text(&engine), Some(("恭".to_string(), 2)));
    let result = engine.process_key(&key(Keysym::RETURN));
    assert_eq!(commits(&result.actions), vec!["恭".to_string()]);
    assert!(matches!(engine.state(), InputState::Empty));
}
