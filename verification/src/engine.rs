//! The input engine: input modes, the composition state, and how each key
//! event changes them and what it asks the application to do.
//!
//! Printable letters are composed into a hiragana reading through romaji.
//! Return commits the reading, BackSpace deletes from it and Escape cancels
//! it; Ctrl+k while composing switches to katakana. Zenkaku/Hankaku and
//! Ctrl+Space toggle direct (Alphabet) input. With the SKK keybinding
//! profile, Ctrl+j, `l`, `q`, Ctrl+q, Henkan and Muhenkan switch the input
//! mode too. A mode switch first commits whatever is being composed or
//! converted.

use vstd::prelude::*;
use crate::kana::{halfwidth_of, katakana_of, to_halfwidth, to_katakana};
use crate::romaji::{feed, feed_of, flush, flush_of, is_prefix, is_prefix_of, syllable, syllable_of};
use crate::text::{chars_of, string_from_chars};

verus! {

/// The kind of characters that typed letters produce.
#[derive(Clone, Copy, Debug, PartialEq, Eq, Structural)]
pub enum InputMode {
    Hiragana,
    Katakana,
    HalfWidthKatakana,
    Alphabet,
}

/// Which set of key bindings the engine follows.
#[derive(Clone, Copy, Debug, PartialEq, Eq, Structural)]
pub enum KeybindingProfile {
    Default,
    Skk,
}

/// Engine settings.
#[derive(Clone, Copy, Debug)]
pub struct EngineConfig {
    pub keybinding_profile: KeybindingProfile,
}

impl Default for EngineConfig {
    fn default() -> (c: EngineConfig)
        ensures
            c.keybinding_profile == KeybindingProfile::Default,
    {
        EngineConfig { keybinding_profile: KeybindingProfile::Default }
    }
}

/// Named X11-style key symbols. A key symbol is a `u32`; printable ASCII
/// keys carry their character code.
pub struct Keysym;

impl Keysym {
    pub const KEY_J: u32 = 0x6a;
    pub const KEY_K: u32 = 0x6b;
    pub const KEY_L: u32 = 0x6c;
    pub const KEY_Q: u32 = 0x71;
    pub const SPACE: u32 = 0x20;
    pub const BACKSPACE: u32 = 0xff08;
    pub const RETURN: u32 = 0xff0d;
    pub const ESCAPE: u32 = 0xff1b;
    pub const MUHENKAN: u32 = 0xff22;
    pub const HENKAN: u32 = 0xff23;
    pub const ZENKAKU_HANKAKU: u32 = 0xff2a;
    pub const UP: u32 = 0xff52;
    pub const DOWN: u32 = 0xff54;
}

/// Modifier keys held during a key event.
#[derive(Clone, Copy, Debug, PartialEq, Eq, Structural)]
pub struct KeyModifiers {
    pub shift: bool,
    pub control: bool,
    pub alt: bool,
    pub super_key: bool,
}

impl KeyModifiers {
    /// No modifier held.
    pub fn none() -> (m: KeyModifiers)
        ensures
            !m.shift && !m.control && !m.alt && !m.super_key,
    {
        KeyModifiers { shift: false, control: false, alt: false, super_key: false }
    }

    /// Only Control held.
    pub fn control() -> (m: KeyModifiers)
        ensures
            !m.shift && m.control && !m.alt && !m.super_key,
    {
        KeyModifiers { shift: false, control: true, alt: false, super_key: false }
    }
}

/// A key press or release.
#[derive(Clone, Copy, Debug, PartialEq, Eq, Structural)]
pub struct KeyEvent {
    pub keysym: u32,
    pub modifiers: KeyModifiers,
    pub is_press: bool,
}

impl KeyEvent {
    /// A key press with the given modifiers.
    pub fn press(keysym: u32, modifiers: KeyModifiers) -> (k: KeyEvent)
        ensures
            k.keysym == keysym,
            k.modifiers == modifiers,
            k.is_press,
    {
        KeyEvent { keysym, modifiers, is_press: true }
    }

    /// A key release with the given modifiers.
    pub fn release(keysym: u32, modifiers: KeyModifiers) -> (k: KeyEvent)
        ensures
            k.keysym == keysym,
            k.modifiers == modifiers,
            !k.is_press,
    {
        KeyEvent { keysym, modifiers, is_press: false }
    }
}

/// The text being composed as the application shows it, with the caret
/// position in characters.
#[derive(Debug)]
pub struct Preedit {
    pub text: String,
    pub caret: usize,
}

/// The model of a [`Preedit`].
pub struct PreeditView {
    pub text: Seq<char>,
    pub caret: nat,
}

impl View for Preedit {
    type V = PreeditView;

    open spec fn view(&self) -> PreeditView {
        PreeditView { text: self.text@, caret: self.caret as nat }
    }
}

/// A preedit showing `text` with the caret after its last character.
pub open spec fn preedit_of(text: Seq<char>) -> PreeditView {
    PreeditView { text, caret: text.len() }
}

/// The preedit that shows nothing.
pub open spec fn empty_preedit() -> PreeditView {
    preedit_of(Seq::empty())
}

impl Preedit {
    /// A preedit showing nothing.
    pub fn new() -> (p: Preedit)
        ensures
            p@ == empty_preedit(),
    {
        Preedit { text: String::new(), caret: 0 }
    }

    /// A preedit showing `text`, caret at its end.
    pub fn with_text(text: &str) -> (p: Preedit)
        ensures
            p@ == preedit_of(text@),
    {
        let chars = chars_of(text);
        Preedit { text: string_from_chars(&chars), caret: chars.len() }
    }

    /// A preedit showing the given characters, caret at the end.
    fn of_chars(chars: &Vec<char>) -> (p: Preedit)
        ensures
            p@ == preedit_of(chars@),
    {
        Preedit { text: string_from_chars(chars), caret: chars.len() }
    }

    /// The text shown.
    pub fn text(&self) -> (t: &str)
        ensures
            t@ == self@.text,
    {
        self.text.as_str()
    }

    /// The caret position, in characters.
    pub fn caret(&self) -> (c: usize)
        ensures
            c == self@.caret,
    {
        self.caret
    }

    /// A copy of this preedit.
    pub fn duplicate(&self) -> (p: Preedit)
        ensures
            p@ == self@,
    {
        Preedit { text: self.text.clone(), caret: self.caret }
    }
}

/// One conversion candidate: its text, the reading it converts, and its
/// position in the list.
#[derive(Debug)]
pub struct Candidate {
    pub text: String,
    pub reading: String,
    pub index: usize,
}

/// The model of a [`Candidate`].
pub struct CandidateView {
    pub text: Seq<char>,
    pub reading: Seq<char>,
    pub index: nat,
}

impl View for Candidate {
    type V = CandidateView;

    open spec fn view(&self) -> CandidateView {
        CandidateView { text: self.text@, reading: self.reading@, index: self.index as nat }
    }
}

impl Candidate {
    /// A candidate `text` for `reading`, at position 0.
    pub fn with_reading(text: &str, reading: &str) -> (c: Candidate)
        ensures
            c@ == (CandidateView { text: text@, reading: reading@, index: 0 }),
    {
        Candidate {
            text: string_from_chars(&chars_of(text)),
            reading: string_from_chars(&chars_of(reading)),
            index: 0,
        }
    }

    /// A copy of this candidate.
    pub fn duplicate(&self) -> (c: Candidate)
        ensures
            c@ == self@,
    {
        Candidate { text: self.text.clone(), reading: self.reading.clone(), index: self.index }
    }

    /// The same candidate at position `index`.
    pub fn with_index(self, index: usize) -> (c: Candidate)
        ensures
            c@ == (CandidateView { index: index as nat, ..self@ }),
    {
        Candidate { index, ..self }
    }
}

/// Conversion candidates and which of them is selected.
#[derive(Debug)]
pub struct CandidateList {
    pub candidates: Vec<Candidate>,
    pub selected: usize,
}

/// The model of a [`CandidateList`].
pub struct CandidateListView {
    pub candidates: Seq<CandidateView>,
    pub selected: nat,
}

impl View for CandidateList {
    type V = CandidateListView;

    open spec fn view(&self) -> CandidateListView {
        CandidateListView {
            candidates: self.candidates@.map_values(|c: Candidate| c@),
            selected: self.selected as nat,
        }
    }
}

impl CandidateList {
    /// The list of `candidates` with the first one selected.
    pub fn new(candidates: Vec<Candidate>) -> (l: CandidateList)
        ensures
            l@.candidates == candidates@.map_values(|c: Candidate| c@),
            l@.selected == 0,
    {
        CandidateList { candidates, selected: 0 }
    }

    /// A copy of this list.
    pub fn duplicate(&self) -> (l: CandidateList)
        ensures
            l@ == self@,
    {
        let n = self.candidates.len();
        let mut v: Vec<Candidate> = Vec::new();
        let mut i: usize = 0;
        while i < n
            invariant
                n == self.candidates@.len(),
                i <= n,
                v@.len() == i,
                forall|j: int| 0 <= j < i ==> #[trigger] v@[j]@ == self.candidates@[j]@,
            decreases n - i,
        {
            let c = self.candidates[i].duplicate();
            v.push(c);
            i = i + 1;
        }
        let l = CandidateList { candidates: v, selected: self.selected };
        assert(l@.candidates =~= self@.candidates);
        l
    }

    /// The number of candidates.
    pub fn len(&self) -> (n: usize)
        ensures
            n == self@.candidates.len(),
    {
        self.candidates.len()
    }

    /// The index of the selected candidate.
    pub fn selected_index(&self) -> (i: usize)
        ensures
            i == self@.selected,
    {
        self.selected
    }

    /// The text of the candidate at `i`.
    pub fn text_at(&self, i: usize) -> (t: &str)
        requires
            i < self@.candidates.len(),
        ensures
            t@ == self@.candidates[i as int].text,
    {
        self.candidates[i].text.as_str()
    }
}

/// What the engine is doing with the keys it receives.
#[derive(Debug)]
pub enum InputState {
    /// Nothing is being composed.
    Empty,
    /// A reading is being typed.
    Composing { preedit: Preedit },
    /// Candidates for the reading are offered.
    Conversion { preedit: Preedit, candidates: CandidateList },
}

/// The model of an [`InputState`].
pub enum StateView {
    Empty,
    Composing { preedit: PreeditView },
    Conversion { preedit: PreeditView, candidates: CandidateListView },
}

impl View for InputState {
    type V = StateView;

    open spec fn view(&self) -> StateView {
        match self {
            InputState::Empty => StateView::Empty,
            InputState::Composing { preedit } => StateView::Composing { preedit: preedit@ },
            InputState::Conversion { preedit, candidates } => StateView::Conversion {
                preedit: preedit@,
                candidates: candidates@,
            },
        }
    }
}

/// What the engine asks the application to do.
#[derive(Debug)]
pub enum EngineAction {
    UpdatePreedit(Preedit),
    Commit(String),
    ShowCandidates(CandidateList),
    HideCandidates,
    UpdateAuxText(String),
    HideAuxText,
}

/// The model of an [`EngineAction`].
pub enum ActionView {
    UpdatePreedit(PreeditView),
    Commit(Seq<char>),
    ShowCandidates(CandidateListView),
    HideCandidates,
    UpdateAuxText(Seq<char>),
    HideAuxText,
}

impl View for EngineAction {
    type V = ActionView;

    open spec fn view(&self) -> ActionView {
        match self {
            EngineAction::UpdatePreedit(p) => ActionView::UpdatePreedit(p@),
            EngineAction::Commit(t) => ActionView::Commit(t@),
            EngineAction::ShowCandidates(l) => ActionView::ShowCandidates(l@),
            EngineAction::HideCandidates => ActionView::HideCandidates,
            EngineAction::UpdateAuxText(t) => ActionView::UpdateAuxText(t@),
            EngineAction::HideAuxText => ActionView::HideAuxText,
        }
    }
}

/// The models of a list of actions.
pub open spec fn actions_view(actions: Seq<EngineAction>) -> Seq<ActionView> {
    actions.map_values(|a: EngineAction| a@)
}

/// The outcome of one key event: whether the engine used the key (else the
/// application receives it), and the actions to apply.
#[derive(Debug)]
pub struct EngineResult {
    pub consumed: bool,
    pub actions: Vec<EngineAction>,
}

/// The model of an [`EngineResult`].
pub struct ResultView {
    pub consumed: bool,
    pub actions: Seq<ActionView>,
}

impl View for EngineResult {
    type V = ResultView;

    open spec fn view(&self) -> ResultView {
        ResultView { consumed: self.consumed, actions: actions_view(self.actions@) }
    }
}

/// The hiragana reading typed so far, and the caret position in it.
#[derive(Debug)]
pub struct InputBuffer {
    pub text: String,
    pub cursor_pos: usize,
}

/// The input method engine.
#[derive(Debug)]
pub struct InputMethodEngine {
    pub input_mode: InputMode,
    pub state: InputState,
    pub input_buf: InputBuffer,
    pub config: EngineConfig,
    /// Romaji letters typed that do not make a syllable yet.
    pub pending: Vec<char>,
    /// Whether live conversion is on (Ctrl+Shift+L toggles it).
    pub live_conversion: bool,
}

/// The model of an [`InputMethodEngine`].
pub struct EngineView {
    pub mode: InputMode,
    pub profile: KeybindingProfile,
    pub state: StateView,
    /// The hiragana reading.
    pub text: Seq<char>,
    pub cursor: nat,
    /// Romaji letters not yet turned into kana.
    pub pending: Seq<char>,
    pub live_conversion: bool,
}

impl View for InputMethodEngine {
    type V = EngineView;

    open spec fn view(&self) -> EngineView {
        EngineView {
            mode: self.input_mode,
            profile: self.config.keybinding_profile,
            state: self.state@,
            text: self.input_buf.text@,
            cursor: self.input_buf.cursor_pos as nat,
            pending: self.pending@,
            live_conversion: self.live_conversion,
        }
    }
}

// ---------------------------------------------------------------------------
// The meaning of a key event.
// ---------------------------------------------------------------------------

/// A reading as shown or committed in mode `m`.
pub open spec fn convert_for_mode(m: InputMode, s: Seq<char>) -> Seq<char> {
    match m {
        InputMode::Katakana => to_katakana(s),
        InputMode::HalfWidthKatakana => to_halfwidth(s),
        _ => s,
    }
}

/// What the preedit shows while composing: the reading with the pending
/// romaji after it, in the current mode.
pub open spec fn display_text(e: EngineView) -> Seq<char> {
    convert_for_mode(e.mode, e.text + e.pending)
}

/// The reading as it is committed: pending romaji flushed onto it.
pub open spec fn committed_reading(e: EngineView) -> Seq<char> {
    e.text + flush(e.pending)
}

/// The text a conversion commits: the selected candidate, or the preedit
/// when nothing valid is selected.
pub open spec fn candidate_commit_text(p: PreeditView, l: CandidateListView) -> Seq<char> {
    if l.selected < l.candidates.len() {
        l.candidates[l.selected as int].text
    } else {
        p.text
    }
}

/// The text that committing the current state produces, composing text being
/// written in mode `m`.
pub open spec fn commit_text(e: EngineView, m: InputMode) -> Seq<char> {
    match e.state {
        StateView::Empty => Seq::empty(),
        StateView::Composing { .. } => convert_for_mode(m, committed_reading(e)),
        StateView::Conversion { preedit, candidates } => candidate_commit_text(preedit, candidates),
    }
}

/// The engine with nothing composed, in mode `m`.
pub open spec fn cleared(e: EngineView, m: InputMode) -> EngineView {
    EngineView { mode: m, state: StateView::Empty, text: Seq::empty(), cursor: 0, pending: Seq::empty(), ..e }
}

/// The engine composing the reading `text` with `pending` romaji.
pub open spec fn composing_with(e: EngineView, text: Seq<char>, pending: Seq<char>) -> EngineView {
    let e2 = EngineView { text, cursor: text.len(), pending, ..e };
    EngineView { state: StateView::Composing { preedit: preedit_of(display_text(e2)) }, ..e2 }
}

/// The key is not used: nothing changes and the application gets the key.
pub open spec fn passed(e: EngineView) -> (EngineView, ResultView) {
    (e, ResultView { consumed: false, actions: Seq::empty() })
}

/// The key is used and has no effect.
pub open spec fn swallowed(e: EngineView) -> (EngineView, ResultView) {
    (e, ResultView { consumed: true, actions: Seq::empty() })
}

/// The keys that switch the input mode. Zenkaku/Hankaku and Ctrl+Space
/// toggle direct (Alphabet) input with every profile; the others are the SKK
/// profile's.
#[derive(Clone, Copy, Debug, PartialEq, Eq, Structural)]
pub enum ModeKey {
    CtrlJ,
    CtrlQ,
    L,
    Q,
    ZenkakuHankaku,
    CtrlSpace,
    Henkan,
    Muhenkan,
}

/// Whether neither Control, Alt nor Super is held.
pub open spec fn unmodified(k: KeyEvent) -> bool {
    !k.modifiers.control && !k.modifiers.alt && !k.modifiers.super_key
}

/// The mode key that `k` is, if any.
pub open spec fn mode_key(k: KeyEvent) -> Option<ModeKey> {
    let code = k.keysym;
    if code == 0xff2a {
        Some(ModeKey::ZenkakuHankaku)
    } else if k.modifiers.control && !k.modifiers.alt && code == 0x20 {
        Some(ModeKey::CtrlSpace)
    } else if code == 0xff23 {
        Some(ModeKey::Henkan)
    } else if code == 0xff22 {
        Some(ModeKey::Muhenkan)
    } else if k.modifiers.control && !k.modifiers.alt && code == 0x6a {
        Some(ModeKey::CtrlJ)
    } else if k.modifiers.control && !k.modifiers.alt && code == 0x71 {
        Some(ModeKey::CtrlQ)
    } else if unmodified(k) && code == 0x6c {
        Some(ModeKey::L)
    } else if unmodified(k) && code == 0x71 {
        Some(ModeKey::Q)
    } else {
        None
    }
}

/// Whether a mode key acts with `profile` in mode `m`. Zenkaku/Hankaku and
/// Ctrl+Space always act. The other keys act only with the SKK profile, and
/// `l`, `q` and Ctrl+q only in the kana modes (in Alphabet mode they reach
/// the application).
pub open spec fn mode_key_acts(profile: KeybindingProfile, m: InputMode, key: ModeKey) -> bool {
    match key {
        ModeKey::ZenkakuHankaku | ModeKey::CtrlSpace => true,
        ModeKey::L | ModeKey::Q | ModeKey::CtrlQ => profile == KeybindingProfile::Skk && m != InputMode::Alphabet,
        _ => profile == KeybindingProfile::Skk,
    }
}

/// Hiragana and katakana swapped; half-width katakana goes to hiragana.
pub open spec fn toggled_kana(m: InputMode) -> InputMode {
    match m {
        InputMode::Hiragana => InputMode::Katakana,
        _ => InputMode::Hiragana,
    }
}

/// The mode in which a mode key writes the committed composing text: `q`
/// writes the other kana, Ctrl+q half-width katakana, the others the
/// current mode.
pub open spec fn mode_commit_mode(key: ModeKey, m: InputMode) -> InputMode {
    match key {
        ModeKey::Q => toggled_kana(m),
        ModeKey::CtrlQ => InputMode::HalfWidthKatakana,
        _ => m,
    }
}

/// The mode a mode key leaves the engine in. Ctrl+j and Henkan select
/// Hiragana; `l` and Muhenkan select Alphabet; Zenkaku/Hankaku and
/// Ctrl+Space leave Alphabet for Hiragana and any kana mode for Alphabet.
/// `q` switches to the other kana when nothing is composed and otherwise
/// keeps the mode. Ctrl+q selects half-width katakana, except that after
/// committing a composition it returns to Hiragana.
pub open spec fn mode_target_mode(key: ModeKey, m: InputMode, s: StateView) -> InputMode {
    match key {
        ModeKey::CtrlJ | ModeKey::Henkan => InputMode::Hiragana,
        ModeKey::L | ModeKey::Muhenkan => InputMode::Alphabet,
        ModeKey::ZenkakuHankaku | ModeKey::CtrlSpace => if m == InputMode::Alphabet {
            InputMode::Hiragana
        } else {
            InputMode::Alphabet
        },
        ModeKey::Q => if s is Empty {
            toggled_kana(m)
        } else {
            m
        },
        ModeKey::CtrlQ => if s is Composing {
            InputMode::Hiragana
        } else {
            InputMode::HalfWidthKatakana
        },
    }
}

/// A mode key that acts: commits what is composed or converted, clears the
/// composition, hides the candidates and switches the mode.
pub open spec fn mode_key_step(e: EngineView, key: ModeKey) -> (EngineView, ResultView) {
    let actions = if e.state is Empty {
        seq![ActionView::HideCandidates]
    } else {
        seq![
            ActionView::UpdatePreedit(empty_preedit()),
            ActionView::Commit(commit_text(e, mode_commit_mode(key, e.mode))),
            ActionView::HideCandidates,
        ]
    };
    (cleared(e, mode_target_mode(key, e.mode, e.state)), ResultView { consumed: true, actions })
}

/// The letter a key types: printable ASCII other than space, with no
/// Control, Alt or Super held.
pub open spec fn input_letter(k: KeyEvent) -> Option<char> {
    if unmodified(k) && 0x21 <= k.keysym <= 0x7e {
        Some((k.keysym as u8) as char)
    } else {
        None
    }
}

/// Typing the letter `c`: it goes through the romaji rules into the reading.
pub open spec fn type_letter(e: EngineView, c: char) -> (EngineView, ResultView) {
    let fed = feed(e.pending, c);
    let e2 = composing_with(e, e.text + fed.0, fed.1);
    (e2, ResultView { consumed: true, actions: seq![ActionView::UpdatePreedit(preedit_of(display_text(e2)))] })
}

/// Return: commit the composition (or the selected candidate) as it stands.
pub open spec fn commit_step(e: EngineView) -> (EngineView, ResultView) {
    (
        cleared(e, e.mode),
        ResultView {
            consumed: true,
            actions: seq![
                ActionView::UpdatePreedit(empty_preedit()),
                ActionView::Commit(commit_text(e, e.mode)),
                ActionView::HideCandidates,
            ],
        },
    )
}

/// Escape while composing: drop the composition.
pub open spec fn cancel_step(e: EngineView) -> (EngineView, ResultView) {
    (
        cleared(e, e.mode),
        ResultView {
            consumed: true,
            actions: seq![ActionView::UpdatePreedit(empty_preedit()), ActionView::HideCandidates],
        },
    )
}

/// BackSpace while composing: remove the last pending romaji letter, or else
/// the last kana; the composition ends when nothing is left.
pub open spec fn backspace_step(e: EngineView) -> (EngineView, ResultView) {
    let text = if e.pending.len() == 0 && e.text.len() > 0 { e.text.drop_last() } else { e.text };
    let pending = if e.pending.len() > 0 { e.pending.drop_last() } else { e.pending };
    if text.len() + pending.len() == 0 {
        cancel_step(e)
    } else {
        let e2 = composing_with(e, text, pending);
        (e2, ResultView { consumed: true, actions: seq![ActionView::UpdatePreedit(preedit_of(display_text(e2)))] })
    }
}

/// Escape while converting: back to composing the reading.
pub open spec fn unconvert_step(e: EngineView) -> (EngineView, ResultView) {
    let e2 = composing_with(e, e.text, e.pending);
    (
        e2,
        ResultView {
            consumed: true,
            actions: seq![ActionView::UpdatePreedit(preedit_of(display_text(e2))), ActionView::HideCandidates],
        },
    )
}

/// Ctrl+k while composing: Katakana mode; the composition goes on, shown in
/// katakana.
pub open spec fn katakana_step(e: EngineView) -> (EngineView, ResultView) {
    let e2 = composing_with(EngineView { mode: InputMode::Katakana, ..e }, e.text, e.pending);
    (e2, ResultView { consumed: true, actions: seq![ActionView::UpdatePreedit(preedit_of(display_text(e2)))] })
}

/// The candidate selected after moving forward (to the next candidate,
/// from the last back to the first) or backward (to the previous one, from
/// the first to the last). A selection outside the list moves to the first
/// candidate forward and to the last backward.
pub open spec fn moved_selection(l: CandidateListView, forward: bool) -> nat {
    let n = l.candidates.len();
    if n == 0 {
        l.selected
    } else if forward {
        if l.selected + 1 < n {
            l.selected + 1
        } else {
            0
        }
    } else if 0 < l.selected && l.selected <= n {
        (l.selected - 1) as nat
    } else {
        (n - 1) as nat
    }
}

/// Space or Down (forward), or Up (backward), while converting: another
/// candidate is selected and shown in the preedit.
pub open spec fn select_step(e: EngineView, forward: bool) -> (EngineView, ResultView) {
    match e.state {
        StateView::Conversion { preedit, candidates } => {
            let l2 = CandidateListView { selected: moved_selection(candidates, forward), ..candidates };
            let p2 = preedit_of(candidate_commit_text(preedit, l2));
            (
                EngineView { state: StateView::Conversion { preedit: p2, candidates: l2 }, ..e },
                ResultView {
                    consumed: true,
                    actions: seq![ActionView::UpdatePreedit(p2), ActionView::ShowCandidates(l2)],
                },
            )
        },
        _ => swallowed(e),
    }
}

/// The models of a list of candidates.
pub open spec fn candidate_views(v: Seq<Candidate>) -> Seq<CandidateView> {
    v.map_values(|c: Candidate| c@)
}

/// A conversion starts with the candidates a converter offers for the
/// reading being composed: the pending romaji is flushed into the reading,
/// the first candidate is selected and shown in the preedit, and the list is
/// shown. Outside composing, or without candidates, nothing happens.
pub open spec fn conversion_begun(e: EngineView, cands: Seq<CandidateView>) -> (EngineView, ResultView) {
    if e.state is Composing && cands.len() > 0 {
        let reading = committed_reading(e);
        let l = CandidateListView { candidates: cands, selected: 0 };
        let p = preedit_of(cands[0].text);
        (
            EngineView {
                state: StateView::Conversion { preedit: p, candidates: l },
                text: reading,
                cursor: reading.len(),
                pending: Seq::empty(),
                ..e
            },
            ResultView {
                consumed: true,
                actions: seq![ActionView::UpdatePreedit(p), ActionView::ShowCandidates(l)],
            },
        )
    } else {
        passed(e)
    }
}

/// Whether `k` is Ctrl+Shift+L, the live-conversion switch.
pub open spec fn is_live_conversion_toggle(k: KeyEvent) -> bool {
    k.modifiers.control && k.modifiers.shift && !k.modifiers.alt && (k.keysym == 0x4c || k.keysym
        == 0x6c)
}

/// Ctrl+Shift+L: live conversion is switched on or off; nothing else
/// changes.
pub open spec fn toggle_live_conversion_step(e: EngineView) -> (EngineView, ResultView) {
    (EngineView { live_conversion: !e.live_conversion, ..e }, ResultView { consumed: true, actions: Seq::empty() })
}

/// Whether the letter `c` neither makes nor starts a romaji syllable, so
/// that it is written as it is.
pub open spec fn is_passthrough(c: char) -> bool {
    syllable(seq![c]) is None && !is_prefix(seq![c])
}

/// A letter that is written as it is, typed with nothing composed: it is
/// committed at once.
pub open spec fn commit_letter_step(e: EngineView, c: char) -> (EngineView, ResultView) {
    (e, ResultView { consumed: true, actions: seq![ActionView::Commit(seq![c])] })
}

/// Key handling outside the mode keys.
pub open spec fn general_step(e: EngineView, k: KeyEvent) -> (EngineView, ResultView) {
    match e.state {
        StateView::Empty => if e.mode == InputMode::Alphabet {
            passed(e)
        } else {
            match input_letter(k) {
                Some(c) => if is_passthrough(c) {
                    commit_letter_step(e, c)
                } else {
                    type_letter(e, c)
                },
                None => passed(e),
            }
        },
        StateView::Composing { .. } => match input_letter(k) {
            Some(c) => type_letter(e, c),
            None => if k.modifiers.control && !k.modifiers.alt && k.keysym == 0x6b {
                katakana_step(e)
            } else if k.keysym == 0xff0d {
                commit_step(e)
            } else if k.keysym == 0xff08 {
                backspace_step(e)
            } else if k.keysym == 0xff1b {
                cancel_step(e)
            } else {
                swallowed(e)
            },
        },
        StateView::Conversion { .. } => if k.keysym == 0xff0d {
            commit_step(e)
        } else if k.keysym == 0xff1b {
            unconvert_step(e)
        } else if k.keysym == 0x20 || k.keysym == 0xff54 {
            select_step(e, true)
        } else if k.keysym == 0xff52 {
            select_step(e, false)
        } else {
            swallowed(e)
        },
    }
}

/// The engine after key event `k`, and the result reported for it. Key
/// releases are never used.
pub open spec fn spec_process_key(e: EngineView, k: KeyEvent) -> (EngineView, ResultView) {
    if !k.is_press {
        passed(e)
    } else if is_live_conversion_toggle(k) {
        toggle_live_conversion_step(e)
    } else {
        match mode_key(k) {
            Some(key) => if mode_key_acts(e.profile, e.mode, key) {
                mode_key_step(e, key)
            } else {
                general_step(e, k)
            },
            None => general_step(e, k),
        }
    }
}


/// The engine's invariant. Nothing is held back when nothing is composed:
/// in the Empty state the reading and the pending romaji are empty. While
/// composing, the preedit shows the reading and the pending romaji in the
/// current mode, with the caret at the end, and the cursor is at the end of
/// the reading.
pub open spec fn well_formed(e: EngineView) -> bool {
    &&& e.state is Empty ==> e.text.len() == 0 && e.pending.len() == 0 && e.cursor == 0
    &&& e.state is Composing ==> e.state == (StateView::Composing { preedit: preedit_of(display_text(e)) })
        && e.cursor == e.text.len()
}

/// A fresh engine with the given keybinding profile.
pub open spec fn initial_engine(profile: KeybindingProfile) -> EngineView {
    EngineView {
        mode: InputMode::Hiragana,
        profile,
        state: StateView::Empty,
        text: Seq::empty(),
        cursor: 0,
        pending: Seq::empty(),
        live_conversion: false,
    }
}

// ---------------------------------------------------------------------------
// The engine.
// ---------------------------------------------------------------------------

/// A reading in mode `m`.
fn convert_chars(m: InputMode, s: &Vec<char>) -> (r: Vec<char>)
    ensures
        r@ == convert_for_mode(m, s@),
{
    match m {
        InputMode::Katakana => katakana_of(s),
        InputMode::HalfWidthKatakana => halfwidth_of(s),
        _ => {
            let r = s.clone();
            assert(r@ =~= s@);
            r
        },
    }
}

/// `a` followed by `b`.
/// The reading followed by the flushed pending romaji.
pub fn concat_reading(a: &Vec<char>, b: &Vec<char>) -> (r: Vec<char>)
    ensures
        r@ == a@ + b@,
{
    concat_chars(a, b)
}

fn concat_chars(a: &Vec<char>, b: &Vec<char>) -> (r: Vec<char>)
    ensures
        r@ == a@ + b@,
{
    let mut r = a.clone();
    assert(r@ =~= a@);
    let n = b.len();
    let mut i: usize = 0;
    while i < n
        invariant
            n == b@.len(),
            i <= n,
            r@ == a@ + b@.take(i as int),
        decreases n - i,
    {
        r.push(b[i]);
        assert(a@ + b@.take(i as int) + seq![b@[i as int]] =~= a@ + b@.take(i + 1));
        i = i + 1;
    }
    assert(b@.take(n as int) =~= b@);
    r
}

/// The mode key that `k` is, if any.
pub fn mode_key_of(k: &KeyEvent) -> (r: Option<ModeKey>)
    ensures
        r == mode_key(*k),
{
    let code = k.keysym;
    let m = k.modifiers;
    if code == Keysym::ZENKAKU_HANKAKU {
        Some(ModeKey::ZenkakuHankaku)
    } else if m.control && !m.alt && code == Keysym::SPACE {
        Some(ModeKey::CtrlSpace)
    } else if code == Keysym::HENKAN {
        Some(ModeKey::Henkan)
    } else if code == Keysym::MUHENKAN {
        Some(ModeKey::Muhenkan)
    } else if m.control && !m.alt && code == Keysym::KEY_J {
        Some(ModeKey::CtrlJ)
    } else if m.control && !m.alt && code == Keysym::KEY_Q {
        Some(ModeKey::CtrlQ)
    } else if !m.control && !m.alt && !m.super_key && code == Keysym::KEY_L {
        Some(ModeKey::L)
    } else if !m.control && !m.alt && !m.super_key && code == Keysym::KEY_Q {
        Some(ModeKey::Q)
    } else {
        None
    }
}

/// The letter a key types, if it types one.
pub fn input_letter_of(k: &KeyEvent) -> (r: Option<char>)
    ensures
        r == input_letter(*k),
{
    let m = k.modifiers;
    if !m.control && !m.alt && !m.super_key && 0x21 <= k.keysym && k.keysym <= 0x7e {
        Some((k.keysym as u8) as char)
    } else {
        None
    }
}

/// Whether the letter `c` neither makes nor starts a romaji syllable.
pub fn is_passthrough_letter(c: char) -> (b: bool)
    ensures
        b == is_passthrough(c),
{
    let single = vec![c];
    assert(single@ =~= seq![c]);
    syllable_of(&single).is_none() && !is_prefix_of(&single)
}

fn toggled_kana_of(m: InputMode) -> (r: InputMode)
    ensures
        r == toggled_kana(m),
{
    match m {
        InputMode::Hiragana => InputMode::Katakana,
        _ => InputMode::Hiragana,
    }
}

impl InputMethodEngine {
    /// A fresh engine with the default key bindings, in Hiragana mode.
    pub fn new() -> (e: InputMethodEngine)
        ensures
            e@ == initial_engine(KeybindingProfile::Default),
    {
        InputMethodEngine::with_config(EngineConfig::default())
    }

    /// A fresh engine with the given settings, in Hiragana mode.
    pub fn with_config(config: EngineConfig) -> (e: InputMethodEngine)
        ensures
            e@ == initial_engine(config.keybinding_profile),
    {
        InputMethodEngine {
            input_mode: InputMode::Hiragana,
            state: InputState::Empty,
            input_buf: InputBuffer { text: String::new(), cursor_pos: 0 },
            config,
            pending: Vec::new(),
            live_conversion: false,
        }
    }

    /// The current input state.
    pub fn state(&self) -> (s: &InputState)
        ensures
            s@ == self@.state,
    {
        &self.state
    }

    /// Drops any composition; the input mode stays.
    pub fn reset(&mut self)
        ensures
            final(self)@ == cleared(old(self)@, old(self)@.mode),
    {
        let m = self.input_mode;
        self.clear(m);
    }

    fn clear(&mut self, m: InputMode)
        ensures
            final(self)@ == cleared(old(self)@, m),
    {
        self.input_mode = m;
        self.state = InputState::Empty;
        self.input_buf.text = String::new();
        self.input_buf.cursor_pos = 0;
        self.pending = Vec::new();
        assert(self.pending@ =~= Seq::<char>::empty());
    }

    /// Composes the reading `text` with `pending` romaji; returns the preedit
    /// now shown.
    fn compose(&mut self, text: Vec<char>, pending: Vec<char>) -> (p: Preedit)
        ensures
            final(self)@ == composing_with(old(self)@, text@, pending@),
            p@ == preedit_of(display_text(final(self)@)),
    {
        let whole = concat_chars(&text, &pending);
        let shown = convert_chars(self.input_mode, &whole);
        let p = Preedit::of_chars(&shown);
        self.input_buf.text = string_from_chars(&text);
        self.input_buf.cursor_pos = text.len();
        self.pending = pending;
        self.state = InputState::Composing { preedit: p.duplicate() };
        p
    }

    /// The text that committing now produces, composing text written in `m`.
    fn commit_string(&self, m: InputMode) -> (t: String)
        ensures
            t@ == commit_text(self@, m),
    {
        match &self.state {
            InputState::Empty => String::new(),
            InputState::Composing { .. } => {
                let reading = concat_chars(&chars_of(self.input_buf.text.as_str()), &flush_of(&self.pending));
                string_from_chars(&convert_chars(m, &reading))
            },
            InputState::Conversion { preedit, candidates } => {
                if candidates.selected < candidates.candidates.len() {
                    candidates.candidates[candidates.selected].text.clone()
                } else {
                    preedit.text.clone()
                }
            },
        }
    }

    /// A mode key that acts in the current profile and mode.
    fn apply_mode_key(&mut self, key: ModeKey) -> (r: EngineResult)
        requires
            mode_key_acts(old(self)@.profile, old(self)@.mode, key),
        ensures
            (final(self)@, r@) == mode_key_step(old(self)@, key),
    {
        let m = self.input_mode;
        let commit_mode = match key {
            ModeKey::Q => toggled_kana_of(m),
            ModeKey::CtrlQ => InputMode::HalfWidthKatakana,
            _ => m,
        };
        let is_empty = match &self.state {
            InputState::Empty => true,
            _ => false,
        };
        let is_composing = match &self.state {
            InputState::Composing { .. } => true,
            _ => false,
        };
        let target = match key {
            ModeKey::CtrlJ | ModeKey::Henkan => InputMode::Hiragana,
            ModeKey::L | ModeKey::Muhenkan => InputMode::Alphabet,
            ModeKey::ZenkakuHankaku | ModeKey::CtrlSpace => if m == InputMode::Alphabet {
                InputMode::Hiragana
            } else {
                InputMode::Alphabet
            },
            ModeKey::Q => if is_empty {
                toggled_kana_of(m)
            } else {
                m
            },
            ModeKey::CtrlQ => if is_composing {
                InputMode::Hiragana
            } else {
                InputMode::HalfWidthKatakana
            },
        };
        assert(target == mode_target_mode(key, m, self@.state));
        let mut actions: Vec<EngineAction> = Vec::new();
        if !is_empty {
            let text = self.commit_string(commit_mode);
            actions.push(EngineAction::UpdatePreedit(Preedit::new()));
            actions.push(EngineAction::Commit(text));
        }
        actions.push(EngineAction::HideCandidates);
        let ghost before = self@;
        self.clear(target);
        let r = EngineResult { consumed: true, actions };
        assert(r@.actions =~= mode_key_step(before, key).1.actions);
        r
    }

    /// Types the letter `c` into the composition.
    fn type_letter(&mut self, c: char) -> (r: EngineResult)
        ensures
            (final(self)@, r@) == type_letter(old(self)@, c),
    {
        let (emitted, pending) = feed_of(&self.pending, c);
        let text = concat_chars(&chars_of(self.input_buf.text.as_str()), &emitted);
        let p = self.compose(text, pending);
        let r = EngineResult { consumed: true, actions: vec![EngineAction::UpdatePreedit(p)] };
        assert(r@.actions =~= type_letter(old(self)@, c).1.actions);
        r
    }

    /// Commits the composition or the selected candidate.
    fn commit(&mut self) -> (r: EngineResult)
        ensures
            (final(self)@, r@) == commit_step(old(self)@),
    {
        let m = self.input_mode;
        let text = self.commit_string(m);
        self.clear(m);
        let r = EngineResult {
            consumed: true,
            actions: vec![
                EngineAction::UpdatePreedit(Preedit::new()),
                EngineAction::Commit(text),
                EngineAction::HideCandidates,
            ],
        };
        assert(r@.actions =~= commit_step(old(self)@).1.actions);
        r
    }

    /// Drops the composition.
    fn cancel(&mut self) -> (r: EngineResult)
        ensures
            (final(self)@, r@) == cancel_step(old(self)@),
    {
        let m = self.input_mode;
        self.clear(m);
        let r = EngineResult {
            consumed: true,
            actions: vec![EngineAction::UpdatePreedit(Preedit::new()), EngineAction::HideCandidates],
        };
        assert(r@.actions =~= cancel_step(old(self)@).1.actions);
        r
    }

    /// Removes the last pending letter or the last kana.
    fn backspace(&mut self) -> (r: EngineResult)
        ensures
            (final(self)@, r@) == backspace_step(old(self)@),
    {
        let mut text = chars_of(self.input_buf.text.as_str());
        let mut pending = self.pending.clone();
        assert(pending@ =~= self.pending@);
        if pending.len() > 0 {
            pending.pop();
            assert(pending@ =~= old(self)@.pending.drop_last());
        } else if text.len() > 0 {
            text.pop();
            assert(text@ =~= old(self)@.text.drop_last());
        }
        if text.len() == 0 && pending.len() == 0 {
            self.cancel()
        } else {
            let p = self.compose(text, pending);
            let r = EngineResult { consumed: true, actions: vec![EngineAction::UpdatePreedit(p)] };
            assert(r@.actions =~= backspace_step(old(self)@).1.actions);
            r
        }
    }

    /// Switches to Katakana mode while composing.
    fn katakana_mode(&mut self) -> (r: EngineResult)
        ensures
            (final(self)@, r@) == katakana_step(old(self)@),
    {
        self.input_mode = InputMode::Katakana;
        let text = chars_of(self.input_buf.text.as_str());
        let pending = self.pending.clone();
        assert(pending@ =~= self.pending@);
        let p = self.compose(text, pending);
        let r = EngineResult { consumed: true, actions: vec![EngineAction::UpdatePreedit(p)] };
        assert(r@.actions =~= katakana_step(old(self)@).1.actions);
        r
    }

    /// Leaves the conversion for the composition of the reading.
    fn unconvert(&mut self) -> (r: EngineResult)
        ensures
            (final(self)@, r@) == unconvert_step(old(self)@),
    {
        let text = chars_of(self.input_buf.text.as_str());
        let pending = self.pending.clone();
        assert(pending@ =~= self.pending@);
        let p = self.compose(text, pending);
        let r = EngineResult {
            consumed: true,
            actions: vec![EngineAction::UpdatePreedit(p), EngineAction::HideCandidates],
        };
        assert(r@.actions =~= unconvert_step(old(self)@).1.actions);
        r
    }

    fn passed_result() -> (r: EngineResult)
        ensures
            r@ == (ResultView { consumed: false, actions: Seq::empty() }),
    {
        let r = EngineResult { consumed: false, actions: Vec::new() };
        assert(r@.actions =~= Seq::<ActionView>::empty());
        r
    }

    fn swallowed_result() -> (r: EngineResult)
        ensures
            r@ == (ResultView { consumed: true, actions: Seq::empty() }),
    {
        let r = EngineResult { consumed: true, actions: Vec::new() };
        assert(r@.actions =~= Seq::<ActionView>::empty());
        r
    }

    /// Starts converting the reading being composed, with the candidates a
    /// converter offers for it.
    pub fn begin_conversion(&mut self, candidates: Vec<Candidate>) -> (r: EngineResult)
        ensures
            (final(self)@, r@) == conversion_begun(old(self)@, candidate_views(candidates@)),
    {
        let composing = match &self.state {
            InputState::Composing { .. } => true,
            _ => false,
        };
        if !composing || candidates.len() == 0 {
            return Self::passed_result();
        }
        let reading = concat_chars(&chars_of(self.input_buf.text.as_str()), &flush_of(&self.pending));
        self.input_buf.text = string_from_chars(&reading);
        self.input_buf.cursor_pos = reading.len();
        self.pending = Vec::new();
        let p = Preedit::with_text(candidates[0].text.as_str());
        let list = CandidateList::new(candidates);
        let shown = list.duplicate();
        self.state = InputState::Conversion { preedit: p.duplicate(), candidates: list };
        let r = EngineResult {
            consumed: true,
            actions: vec![EngineAction::UpdatePreedit(p), EngineAction::ShowCandidates(shown)],
        };
        assert(self.pending@ =~= Seq::<char>::empty());
        assert(r@.actions =~= conversion_begun(old(self)@, candidate_views(candidates@)).1.actions);
        r
    }

    /// Moves the selection while converting.
    fn select_candidate(&mut self, forward: bool) -> (r: EngineResult)
        ensures
            (final(self)@, r@) == select_step(old(self)@, forward),
    {
        let mut st = InputState::Empty;
        std::mem::swap(&mut st, &mut self.state);
        match st {
            InputState::Conversion { preedit, mut candidates } => {
                let ghost l0 = candidates@;
                let n = candidates.candidates.len();
                let s = candidates.selected;
                let next = if n == 0 {
                    s
                } else if forward {
                    if s < n - 1 {
                        s + 1
                    } else {
                        0
                    }
                } else if 0 < s && s <= n {
                    s - 1
                } else {
                    n - 1
                };
                candidates.selected = next;
                assert(candidates@ == (CandidateListView { selected: moved_selection(l0, forward), ..l0 }));
                let p = if next < n {
                    Preedit::with_text(candidates.candidates[next].text.as_str())
                } else {
                    Preedit::with_text(preedit.text.as_str())
                };
                let shown = candidates.duplicate();
                self.state = InputState::Conversion { preedit: p.duplicate(), candidates };
                let r = EngineResult {
                    consumed: true,
                    actions: vec![EngineAction::UpdatePreedit(p), EngineAction::ShowCandidates(shown)],
                };
                assert(r@.actions =~= select_step(old(self)@, forward).1.actions);
                r
            },
            other => {
                self.state = other;
                Self::swallowed_result()
            },
        }
    }

    fn general_key(&mut self, k: &KeyEvent) -> (r: EngineResult)
        ensures
            (final(self)@, r@) == general_step(old(self)@, *k),
    {
        let letter = input_letter_of(k);
        match &self.state {
            InputState::Empty => {
                if self.input_mode == InputMode::Alphabet {
                    Self::passed_result()
                } else {
                    match letter {
                        Some(c) => if is_passthrough_letter(c) {
                            let single = vec![c];
                            assert(single@ =~= seq![c]);
                            let r = EngineResult {
                                consumed: true,
                                actions: vec![EngineAction::Commit(string_from_chars(&single))],
                            };
                            assert(r@.actions =~= commit_letter_step(self@, c).1.actions);
                            r
                        } else {
                            self.type_letter(c)
                        },
                        None => Self::passed_result(),
                    }
                }
            },
            InputState::Composing { .. } => match letter {
                Some(c) => self.type_letter(c),
                None => {
                    if k.modifiers.control && !k.modifiers.alt && k.keysym == Keysym::KEY_K {
                        self.katakana_mode()
                    } else if k.keysym == Keysym::RETURN {
                        self.commit()
                    } else if k.keysym == Keysym::BACKSPACE {
                        self.backspace()
                    } else if k.keysym == Keysym::ESCAPE {
                        self.cancel()
                    } else {
                        Self::swallowed_result()
                    }
                },
            },
            InputState::Conversion { .. } => {
                if k.keysym == Keysym::RETURN {
                    self.commit()
                } else if k.keysym == Keysym::ESCAPE {
                    self.unconvert()
                } else if k.keysym == Keysym::SPACE || k.keysym == Keysym::DOWN {
                    self.select_candidate(true)
                } else if k.keysym == Keysym::UP {
                    self.select_candidate(false)
                } else {
                    Self::swallowed_result()
                }
            },
        }
    }

    /// Handles one key event: updates the engine and reports whether the key
    /// was used and what the application should do.
    pub fn process_key(&mut self, key: &KeyEvent) -> (r: EngineResult)
        ensures
            (final(self)@, r@) == spec_process_key(old(self)@, *key),
    {
        if !key.is_press {
            return Self::passed_result();
        }
        let m = key.modifiers;
        if m.control && m.shift && !m.alt && (key.keysym == 0x4c || key.keysym == 0x6c) {
            self.live_conversion = !self.live_conversion;
            return Self::swallowed_result();
        }
        match mode_key_of(key) {
            Some(mk) => {
                let skk = self.config.keybinding_profile == KeybindingProfile::Skk;
                let acts = match mk {
                    ModeKey::ZenkakuHankaku | ModeKey::CtrlSpace => true,
                    ModeKey::L | ModeKey::Q | ModeKey::CtrlQ => skk && self.input_mode != InputMode::Alphabet,
                    _ => skk,
                };
                if acts {
                    self.apply_mode_key(mk)
                } else {
                    self.general_key(key)
                }
            },
            None => self.general_key(key),
        }
    }
}

} // verus!
