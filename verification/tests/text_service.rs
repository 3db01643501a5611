//! Virtual keys to key events, the text service's key round trip and its lifecycle.

use karukan_tsf::bridge::{
    decode_to_unicode, keysym_of_vk, modifiers_from_key_states, EngineBridge, LearnedConversion, VOID_SYMBOL,
};
use karukan_tsf::engine::{
    Candidate, CandidateList, EngineAction, InputMode, InputState, KeybindingProfile, Preedit,
};
use karukan_tsf::service::{TextServiceState, TF_INVALID_COOKIE};

#[test]
fn virtual_keys_to_keysyms() {
    assert_eq!(keysym_of_vk(0x41, Some('a'), false, false), 0x61);
    assert_eq!(keysym_of_vk(0x41, Some('A'), true, false), 0x41);
    assert_eq!(keysym_of_vk(0x4a, Some('\n'), false, true), 0x6a);
    assert_eq!(keysym_of_vk(0x4a, None, true, false), 0x4a);
    assert_eq!(keysym_of_vk(0x31, Some('1'), false, false), 0x31);
    assert_eq!(keysym_of_vk(0x0d, Some('\r'), false, false), 0xff0d);
    assert_eq!(keysym_of_vk(0x08, None, false, false), 0xff08);
    assert_eq!(keysym_of_vk(0xf3, None, false, false), 0xff2a);
    assert_eq!(keysym_of_vk(0x1c, None, false, false), 0xff23);
    assert_eq!(keysym_of_vk(0x1d, None, false, false), 0xff22);
    assert_eq!(keysym_of_vk(0x70, None, false, false), VOID_SYMBOL);
}

#[test]
fn to_unicode_results() {
    assert_eq!(decode_to_unicode(1, 0x61), Some('a'));
    assert_eq!(decode_to_unicode(1, 0x3042), Some('あ'));
    assert_eq!(decode_to_unicode(1, 0xd800), None);
    assert_eq!(decode_to_unicode(0, 0x61), None);
    assert_eq!(decode_to_unicode(2, 0x61), None);
    assert_eq!(decode_to_unicode(-1, 0x5e), None);
}

#[test]
fn key_states_to_modifiers() {
    let m = modifiers_from_key_states(-128, 0, 1, 0, -127);
    assert!(m.shift);
    assert!(!m.control);
    assert!(!m.alt);
    assert!(m.super_key);
    let m = modifiers_from_key_states(0, -1, -1, -1, 0);
    assert!(!m.shift && m.control && m.alt && m.super_key);
}

#[test]
fn bridge_handles_skk_ctrl_j() {
    let mut bridge = EngineBridge::with_profile(KeybindingProfile::Skk);
    bridge.engine.input_mode = InputMode::Katakana;
    let result = bridge.process_key(0x4a, Some('\n'), false, true, false, false, true);
    assert!(result.consumed);
    assert_eq!(bridge.engine.input_mode, InputMode::Hiragana);
}

#[test]
fn bridge_types_romaji() {
    let mut bridge = EngineBridge::new();
    bridge.process_key(0x4b, Some('k'), false, false, false, false, true);
    let result = bridge.process_key(0x41, Some('a'), false, false, false, false, true);
    assert!(result.consumed);
    assert_eq!(bridge.engine.input_buf.text, "か");
    bridge.reset();
    assert!(matches!(bridge.engine.state(), InputState::Empty));
}

#[test]
fn tested_key_is_applied_when_delivered() {
    let mut service: TextServiceState<u8, u8> = TextServiceState::new();
    let eaten = service.on_test_key_down(0x41, Some('a'), false, false, false, false);
    assert!(eaten);
    assert!(service.cached_result.is_some());
    let down = service.on_key_down(true);
    assert!(down.eaten);
    let actions = down.apply.expect("actions to apply");
    assert!(matches!(actions[0], EngineAction::UpdatePreedit(_)));
    assert!(service.cached_result.is_none());
    let again = service.on_key_down(true);
    assert!(!again.eaten);
    assert!(again.apply.is_none());
}

#[test]
fn tested_key_without_context_is_eaten_but_not_applied() {
    let mut service: TextServiceState<u8, u8> = TextServiceState::new();
    assert!(service.on_test_key_down(0x41, Some('a'), false, false, false, false));
    let down = service.on_key_down(false);
    assert!(down.eaten);
    assert!(down.apply.is_none());
}

#[test]
fn unused_key_is_not_eaten() {
    let mut service: TextServiceState<u8, u8> = TextServiceState::new();
    assert!(!service.on_test_key_down(0x20, Some(' '), false, false, false, false));
    let down = service.on_key_down(true);
    assert!(!down.eaten);
    assert!(down.apply.is_none());
}

#[test]
fn key_down_without_test_is_not_eaten() {
    let mut service: TextServiceState<u8, u8> = TextServiceState::new();
    let down = service.on_key_down(true);
    assert!(!down.eaten);
    assert!(down.apply.is_none());
}

#[test]
fn deactivation_undoes_activation() {
    let mut service: TextServiceState<&str, &str> = TextServiceState::new();
    service.begin_activation("thread manager", 7);
    service.key_sink_advised();
    service.thread_mgr_sink_advised(42);
    service.composition = Some("composition");
    service.on_test_key_down(0x41, Some('a'), false, false, false, false);
    let d = service.deactivate();
    assert_eq!(d.thread_mgr, Some("thread manager"));
    assert_eq!(d.unadvise_key_sink, Some(7));
    assert_eq!(d.unadvise_thread_mgr_sink, Some(42));
    assert_eq!(d.end_composition, Some("composition"));
    assert!(service.thread_mgr.is_none());
    assert_eq!(service.client_id, 0);
    assert_eq!(service.thread_mgr_sink_cookie, TF_INVALID_COOKIE);
    assert!(!service.keystroke_mgr_cookie);
    assert!(matches!(service.engine.engine.state(), InputState::Empty));

    let second = service.deactivate();
    assert!(second.thread_mgr.is_none());
    assert!(second.unadvise_key_sink.is_none());
    assert!(second.unadvise_thread_mgr_sink.is_none());
    assert!(second.end_composition.is_none());
}

#[test]
fn deactivation_without_thread_manager_unadvises_nothing() {
    let mut service: TextServiceState<u8, u8> = TextServiceState::new();
    service.key_sink_advised();
    service.thread_mgr_sink_advised(3);
    let d = service.deactivate();
    assert!(d.unadvise_key_sink.is_none());
    assert!(d.unadvise_thread_mgr_sink.is_none());
    assert!(!service.keystroke_mgr_cookie);
    assert_eq!(service.thread_mgr_sink_cookie, TF_INVALID_COOKIE);
}

#[test]
fn focus_change_drops_composition_and_kept_result() {
    let mut service: TextServiceState<u8, u8> = TextServiceState::new();
    service.on_test_key_down(0x41, Some('a'), false, false, false, false);
    service.on_set_focus();
    assert!(service.cached_result.is_none());
    assert!(matches!(service.engine.engine.state(), InputState::Empty));
}

fn enter_conversion(bridge: &mut EngineBridge, reading: &str, candidates: &[&str]) {
    bridge.engine.input_buf.text = reading.to_string();
    bridge.engine.input_buf.cursor_pos = reading.chars().count();
    let list = CandidateList::new(
        candidates.iter().enumerate().map(|(i, &t)| Candidate::with_reading(t, reading).with_index(i)).collect(),
    );
    bridge.engine.state = InputState::Conversion { preedit: Preedit::with_text(candidates[0]), candidates: list };
}

#[test]
fn committed_conversion_is_learned() {
    let mut bridge = EngineBridge::new();
    enter_conversion(&mut bridge, "きょう", &["今日", "京"]);
    let result = bridge.process_key(0x0d, Some('\r'), false, false, false, false, true);
    assert!(result.consumed);
    assert!(result.actions.iter().any(|a| matches!(a, EngineAction::Commit(t) if t == "今日")));
    assert_eq!(bridge.learned.len(), 1);
    assert_eq!(bridge.learned[0].reading, "きょう");
    assert_eq!(bridge.learned[0].text, "今日");
}

#[test]
fn typing_teaches_nothing() {
    let mut bridge = EngineBridge::new();
    bridge.process_key(0x4b, Some('k'), false, false, false, false, true);
    bridge.process_key(0x41, Some('a'), false, false, false, false, true);
    bridge.process_key(0x0d, Some('\r'), false, false, false, false, true);
    assert!(bridge.learned.is_empty());
}

#[test]
fn deactivation_saves_learning_before_reset() {
    let mut service: TextServiceState<u8, u8> = TextServiceState::new();
    service.restore_learning(vec![LearnedConversion { reading: "あめ".to_string(), text: "雨".to_string() }]);
    enter_conversion(&mut service.engine, "きょう", &["京", "今日"]);
    assert!(service.on_test_key_down(0x0d, Some('\r'), false, false, false, false));
    let d = service.deactivate();
    assert_eq!(d.save_learning.len(), 2);
    assert_eq!(d.save_learning[0].reading, "あめ");
    assert_eq!(d.save_learning[0].text, "雨");
    assert_eq!(d.save_learning[1].reading, "きょう");
    assert_eq!(d.save_learning[1].text, "京");
    assert_eq!(service.engine.learned.len(), 2);
    let second = service.deactivate();
    assert_eq!(second.save_learning.len(), 2);
}

#[test]
fn skk_profile_service() {
    let mut service: TextServiceState<u8, u8> = TextServiceState::with_profile(KeybindingProfile::Skk);
    assert!(service.on_test_key_down(0x4c, Some('l'), false, false, false, false));
    assert_eq!(service.engine.engine.input_mode, InputMode::Alphabet);
}

#[test]
fn learned_choice_is_offered_first() {
    let mut bridge = EngineBridge::new();
    enter_conversion(&mut bridge, "きょう", &["京", "今日"]);
    bridge.process_key(0x20, Some(' '), false, false, false, false, true);
    let result = bridge.process_key(0x0d, Some('\r'), false, false, false, false, true);
    assert!(result.actions.iter().any(|a| matches!(a, EngineAction::Commit(t) if t == "今日")));
    assert_eq!(bridge.learned.len(), 1);

    for (vk, c) in [(0x4b, 'k'), (0x59, 'y'), (0x4f, 'o'), (0x55, 'u')] {
        bridge.process_key(vk, Some(c), false, false, false, false, true);
    }
    let offered = vec![
        Candidate::with_reading("京", "きょう").with_index(0),
        Candidate::with_reading("今日", "きょう").with_index(1),
        Candidate::with_reading("教", "きょう").with_index(2),
    ];
    let result = bridge.begin_conversion(offered);
    assert!(result.consumed);
    match bridge.engine.state() {
        InputState::Conversion { preedit, candidates } => {
            assert_eq!(preedit.text(), "今日");
            assert_eq!(candidates.selected_index(), 0);
            assert_eq!(candidates.text_at(0), "今日");
            assert_eq!(candidates.text_at(1), "京");
            assert_eq!(candidates.text_at(2), "教");
        }
        _ => panic!("expected a conversion"),
    }
}

#[test]
fn unlearned_reading_keeps_converter_order() {
    let mut bridge = EngineBridge::new();
    bridge.restore_learning(vec![LearnedConversion { reading: "あめ".to_string(), text: "雨".to_string() }]);
    bridge.process_key(0x4b, Some('k'), false, false, false, false, true);
    bridge.process_key(0x41, Some('a'), false, false, false, false, true);
    let offered = vec![Candidate::with_reading("蚊", "か"), Candidate::with_reading("課", "か")];
    bridge.begin_conversion(offered);
    match bridge.engine.state() {
        InputState::Conversion { candidates, .. } => {
            assert_eq!(candidates.text_at(0), "蚊");
            assert_eq!(candidates.text_at(1), "課");
        }
        _ => panic!("expected a conversion"),
    }
}
