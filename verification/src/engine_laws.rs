//! Laws of the input engine's key handling.

use vstd::prelude::*;
use crate::engine::{
    cleared, commit_text, is_live_conversion_toggle, is_passthrough, convert_for_mode, empty_preedit, initial_engine, mode_commit_mode,
    input_letter, mode_key, mode_key_acts, preedit_of, select_step, spec_process_key, well_formed, ActionView, EngineView,
    InputMode, KeyEvent, KeybindingProfile, ModeKey, StateView,
};
use crate::kana::{to_halfwidth, to_katakana};
use crate::romaji::flush;

verus! {

/// A key release is never used and changes nothing.
pub proof fn lemma_release_ignored(e: EngineView, k: KeyEvent)
    requires
        !k.is_press,
    ensures
        spec_process_key(e, k).0 == e,
        !spec_process_key(e, k).1.consumed,
        spec_process_key(e, k).1.actions.len() == 0,
{
}

/// A key the engine does not use leaves it exactly as it was and asks for
/// nothing: the application gets the key.
pub proof fn lemma_unused_key_changes_nothing(e: EngineView, k: KeyEvent)
    requires
        !spec_process_key(e, k).1.consumed,
    ensures
        spec_process_key(e, k).0 == e,
        spec_process_key(e, k).1.actions.len() == 0,
{
}

/// The keybinding profile never changes.
pub proof fn lemma_profile_kept(e: EngineView, k: KeyEvent)
    ensures
        spec_process_key(e, k).0.profile == e.profile,
{
}

/// With the default key bindings the input mode changes only through
/// Zenkaku/Hankaku or Ctrl+Space (which toggle direct input) and Ctrl+k while
/// composing (which selects katakana).
pub proof fn lemma_default_profile_mode_keys(e: EngineView, k: KeyEvent)
    requires
        e.profile == KeybindingProfile::Default,
        mode_key(k) != Some(ModeKey::ZenkakuHankaku),
        mode_key(k) != Some(ModeKey::CtrlSpace),
        !(e.state is Composing && k.modifiers.control && !k.modifiers.alt && k.keysym == 0x6b),
    ensures
        spec_process_key(e, k).0.mode == e.mode,
{
}

/// Ctrl+Shift+L is always used, in every profile, mode and state, and only
/// switches live conversion on or off; pressing it twice restores the engine.
pub proof fn lemma_live_conversion_toggle(e: EngineView, k: KeyEvent)
    requires
        k.is_press,
        is_live_conversion_toggle(k),
    ensures
        spec_process_key(e, k).1.consumed,
        spec_process_key(e, k).1.actions.len() == 0,
        spec_process_key(e, k).0 == (EngineView { live_conversion: !e.live_conversion, ..e }),
        spec_process_key(spec_process_key(e, k).0, k).0 == e,
{
}

/// A letter that neither makes nor starts a romaji syllable (such as `q` or
/// a digit), typed in a kana mode with nothing composed, is committed at once
/// and the engine stays as it was.
pub proof fn lemma_passthrough_letter_commits(e: EngineView, k: KeyEvent, c: char)
    requires
        e.state is Empty,
        e.mode != InputMode::Alphabet,
        k.is_press,
        !is_live_conversion_toggle(k),
        mode_key(k) is None,
        crate::engine::input_letter(k) == Some(c),
        is_passthrough(c),
    ensures
        spec_process_key(e, k).0 == e,
        spec_process_key(e, k).1.consumed,
        spec_process_key(e, k).1.actions == seq![ActionView::Commit(seq![c])],
{
}

/// Ctrl+k while composing selects Katakana mode and keeps composing the same
/// reading, now shown in katakana.
pub proof fn lemma_ctrl_k_composes_katakana(e: EngineView, k: KeyEvent)
    requires
        e.state is Composing,
        k.is_press,
        k.modifiers.control,
        !k.modifiers.alt,
        k.keysym == 0x6b,
    ensures
        spec_process_key(e, k).1.consumed,
        spec_process_key(e, k).0.mode == InputMode::Katakana,
        spec_process_key(e, k).0.text == e.text,
        spec_process_key(e, k).0.pending == e.pending,
        spec_process_key(e, k).0.state == (StateView::Composing {
            preedit: preedit_of(to_katakana(e.text + e.pending)),
        }),
{
    assert(mode_key(k) is None);
}

/// SKK: Ctrl+j switches to Hiragana from any mode and any state; it is
/// always used and leaves nothing composed.
pub proof fn lemma_skk_ctrl_j_enters_hiragana(e: EngineView, k: KeyEvent)
    requires
        e.profile == KeybindingProfile::Skk,
        k.is_press,
        k.modifiers.control,
        !k.modifiers.alt,
        k.keysym == 0x6a,
    ensures
        spec_process_key(e, k).1.consumed,
        spec_process_key(e, k).0 == cleared(e, InputMode::Hiragana),
{
    assert(mode_key(k) == Some(ModeKey::CtrlJ));
}

/// A mode key that acts commits what was being composed (written in the
/// key's commit mode) or the selected candidate, leaves nothing composed,
/// and always hides the candidates last.
pub proof fn lemma_mode_key_commits(e: EngineView, k: KeyEvent, key: ModeKey)
    requires
        k.is_press,
        mode_key(k) == Some(key),
        mode_key_acts(e.profile, e.mode, key),
    ensures
        spec_process_key(e, k).1.consumed,
        spec_process_key(e, k).0.state is Empty,
        spec_process_key(e, k).0.text.len() == 0,
        spec_process_key(e, k).0.pending.len() == 0,
        spec_process_key(e, k).1.actions.last() == ActionView::HideCandidates,
        !(e.state is Empty) ==> spec_process_key(e, k).1.actions == seq![
            ActionView::UpdatePreedit(empty_preedit()),
            ActionView::Commit(commit_text(e, mode_commit_mode(key, e.mode))),
            ActionView::HideCandidates,
        ],
        e.state is Empty ==> spec_process_key(e, k).1.actions == seq![ActionView::HideCandidates],
{
}

/// SKK: in Alphabet mode with nothing composed, a key press is used exactly
/// when it is Ctrl+j, Zenkaku/Hankaku, Ctrl+Space, Henkan, Muhenkan or the
/// live-conversion switch Ctrl+Shift+L; every other key reaches the
/// application.
pub proof fn lemma_skk_alphabet_passes_keys(e: EngineView, k: KeyEvent)
    requires
        e.profile == KeybindingProfile::Skk,
        e.mode == InputMode::Alphabet,
        e.state is Empty,
        k.is_press,
    ensures
        spec_process_key(e, k).1.consumed <==> (
            mode_key(k) == Some(ModeKey::CtrlJ) || mode_key(k) == Some(ModeKey::ZenkakuHankaku)
            || mode_key(k) == Some(ModeKey::CtrlSpace) || mode_key(k) == Some(ModeKey::Henkan)
            || mode_key(k) == Some(ModeKey::Muhenkan) || is_live_conversion_toggle(k)),
{
}

/// SKK: `l` in a kana mode switches to Alphabet.
pub proof fn lemma_skk_l_enters_alphabet(e: EngineView, k: KeyEvent)
    requires
        e.profile == KeybindingProfile::Skk,
        e.mode != InputMode::Alphabet,
        k.is_press,
        mode_key(k) == Some(ModeKey::L),
    ensures
        spec_process_key(e, k).1.consumed,
        spec_process_key(e, k).0.mode == InputMode::Alphabet,
{
}

/// SKK: with nothing composed, `q` toggles between Hiragana and Katakana;
/// pressing it twice returns to where it started.
pub proof fn lemma_skk_q_toggles(e: EngineView, k: KeyEvent)
    requires
        e.profile == KeybindingProfile::Skk,
        e.mode == InputMode::Hiragana || e.mode == InputMode::Katakana,
        e.state is Empty,
        k.is_press,
        mode_key(k) == Some(ModeKey::Q),
    ensures
        spec_process_key(e, k).0.mode == (if e.mode == InputMode::Hiragana {
            InputMode::Katakana
        } else {
            InputMode::Hiragana
        }),
        spec_process_key(spec_process_key(e, k).0, k).0.mode == e.mode,
{
}

/// SKK: with nothing composed, Ctrl+q switches a kana mode to half-width
/// katakana.
pub proof fn lemma_skk_ctrl_q_enters_halfwidth(e: EngineView, k: KeyEvent)
    requires
        e.profile == KeybindingProfile::Skk,
        e.mode != InputMode::Alphabet,
        e.state is Empty,
        k.is_press,
        mode_key(k) == Some(ModeKey::CtrlQ),
    ensures
        spec_process_key(e, k).1.consumed,
        spec_process_key(e, k).0.mode == InputMode::HalfWidthKatakana,
{
}

/// A fresh engine is well formed, and every key event keeps it so: in
/// particular, whenever the engine is composing, its preedit shows the
/// reading and the pending romaji in the current mode.
pub proof fn lemma_well_formed_kept(e: EngineView, k: KeyEvent, profile: KeybindingProfile)
    ensures
        well_formed(initial_engine(profile)),
        well_formed(e) ==> well_formed(spec_process_key(e, k).0),
{
}

/// Zenkaku/Hankaku toggles between Hiragana and Alphabet with either
/// profile; pressing it twice with nothing composed returns to where it
/// started.
pub proof fn lemma_zenkaku_hankaku_round_trip(e: EngineView, k: KeyEvent)
    requires
        e.mode == InputMode::Hiragana || e.mode == InputMode::Alphabet,
        e.state is Empty,
        well_formed(e),
        k.is_press,
        k.keysym == 0xff2a,
    ensures
        spec_process_key(e, k).0.mode != e.mode,
        spec_process_key(spec_process_key(e, k).0, k).0 == e,
{
    assert(mode_key(k) == Some(ModeKey::ZenkakuHankaku));
    assert(e.text =~= Seq::<char>::empty());
    assert(e.pending =~= Seq::<char>::empty());
}

/// Return while composing commits the reading, with any pending romaji
/// flushed, written in the current mode; the mode stays and nothing is left
/// composed.
pub proof fn lemma_return_commits_reading(e: EngineView, k: KeyEvent)
    requires
        e.state is Composing,
        k.is_press,
        k.keysym == 0xff0d,
    ensures
        spec_process_key(e, k).1.consumed,
        spec_process_key(e, k).0 == cleared(e, e.mode),
        spec_process_key(e, k).1.actions == seq![
            ActionView::UpdatePreedit(empty_preedit()),
            ActionView::Commit(convert_for_mode(e.mode, e.text + flush(e.pending))),
            ActionView::HideCandidates,
        ],
{
}

/// Return commits exactly what the preedit showed, unless the pending romaji
/// is a lone `n` (which the preedit shows as typed and the commit writes as
/// ん).
pub proof fn lemma_return_commits_what_is_shown(e: EngineView, k: KeyEvent, shown: crate::engine::PreeditView)
    requires
        well_formed(e),
        e.state == (StateView::Composing { preedit: shown }),
        !(e.pending =~= seq!['n']),
        k.is_press,
        k.keysym == 0xff0d,
    ensures
        spec_process_key(e, k).1.actions[1] == ActionView::Commit(shown.text),
{
}

/// Katakana conversion keeps length and works piece by piece.
pub proof fn lemma_katakana_concat(a: Seq<char>, b: Seq<char>)
    ensures
        to_katakana(a + b) == to_katakana(a) + to_katakana(b),
        to_katakana(a).len() == a.len(),
{
    assert(to_katakana(a + b) =~= to_katakana(a) + to_katakana(b));
}

/// Half-width conversion works piece by piece.
pub proof fn lemma_halfwidth_concat(a: Seq<char>, b: Seq<char>)
    ensures
        to_halfwidth(a + b) == to_halfwidth(a) + to_halfwidth(b),
    decreases b.len(),
{
    if b.len() == 0 {
        assert(a + b =~= a);
        assert(to_halfwidth(b) =~= Seq::<char>::empty());
        assert(to_halfwidth(a) + to_halfwidth(b) =~= to_halfwidth(a));
    } else {
        lemma_halfwidth_concat(a, b.drop_last());
        assert((a + b).drop_last() =~= a + b.drop_last());
        assert((a + b).last() == b.last());
        assert(to_halfwidth(a) + to_halfwidth(b) =~= to_halfwidth(a) + to_halfwidth(b.drop_last())
            + crate::kana::halfwidth_char(b.last()));
    }
}

/// Moving the selection forward and then back returns to the candidate
/// selected before, with the same list, showing that candidate.
pub proof fn lemma_selection_round_trip(e: EngineView)
    requires
        e.state matches StateView::Conversion { candidates, .. } && candidates.selected
            < candidates.candidates.len(),
    ensures
        ({
            let e2 = select_step(select_step(e, true).0, false).0;
            &&& e2.state matches StateView::Conversion { preedit, candidates }
            &&& e.state matches StateView::Conversion { candidates: c0, .. }
            &&& candidates == c0
            &&& preedit == preedit_of(c0.candidates[c0.selected as int].text)
            &&& (EngineView { state: e.state, ..e2 }) == e
        }),
{
}

/// Moving the selection through all candidates, one at a time, comes back to
/// the first one: from the last candidate, forward selects the first.
pub proof fn lemma_selection_wraps(e: EngineView)
    requires
        e.state matches StateView::Conversion { candidates, .. } && candidates.candidates.len() > 0
            && candidates.selected == candidates.candidates.len() - 1,
    ensures
        select_step(e, true).0.state matches StateView::Conversion { candidates, .. }
            && candidates.selected == 0,
        select_step(select_step(e, true).0, false).0.state matches StateView::Conversion {
            candidates,
            ..
        } && candidates.selected == candidates.candidates.len() - 1,
{
}

/// Zenkaku/Hankaku and Ctrl+Space switch the input method on and off, with
/// every profile and whatever is being composed: from each kana mode
/// (hiragana, katakana, half-width katakana) they turn it off (Alphabet, in
/// which a typed letter reaches the application), and from Alphabet they
/// turn it on in Hiragana.
pub proof fn lemma_ime_on_off(e: EngineView, k: KeyEvent, letter: KeyEvent)
    requires
        k.is_press,
        k.keysym == 0xff2a || (k.modifiers.control && !k.modifiers.alt && k.keysym == 0x20),
        letter.is_press,
        input_letter(letter) is Some,
    ensures
        spec_process_key(e, k).1.consumed,
        spec_process_key(e, k).0.state is Empty,
        e.mode == InputMode::Hiragana ==> spec_process_key(e, k).0.mode == InputMode::Alphabet,
        e.mode == InputMode::Katakana ==> spec_process_key(e, k).0.mode == InputMode::Alphabet,
        e.mode == InputMode::HalfWidthKatakana ==> spec_process_key(e, k).0.mode == InputMode::Alphabet,
        e.mode == InputMode::Alphabet ==> spec_process_key(e, k).0.mode == InputMode::Hiragana,
        e.mode != InputMode::Alphabet ==> !spec_process_key(spec_process_key(e, k).0, letter).1.consumed,
{
    assert(!is_live_conversion_toggle(k));
    assert(mode_key(k) == Some(ModeKey::ZenkakuHankaku) || mode_key(k) == Some(ModeKey::CtrlSpace));
    let e2 = spec_process_key(e, k).0;
    assert(!is_live_conversion_toggle(letter));
}

} // verus!
