//! From Windows virtual-key input to engine key events, and the engine as the
//! text service holds it.

use vstd::prelude::*;
use crate::engine::{
    candidate_commit_text, candidate_views, cleared, committed_reading, conversion_begun,
    initial_engine, spec_process_key, Candidate, CandidateView, EngineResult, EngineView,
    InputMethodEngine, InputState, KeyEvent, KeyModifiers, KeybindingProfile, StateView,
};
use crate::romaji::flush_of;
use crate::text::{chars_of, string_from_chars};
use crate::text::{char_from_u32, is_scalar_value, lemma_char_from_code};

verus! {

/// The key symbol that carries no key (X11 `VoidSymbol`).
pub const VOID_SYMBOL: u32 = 0xffffff;

/// Named key symbols for the virtual keys that have no character: BackSpace,
/// Tab, Return, Escape, Henkan, Muhenkan, Zenkaku/Hankaku, the arrows and
/// Delete.
pub open spec fn special_keysym(vk: u32) -> Option<u32> {
    if vk == 0x08 {
        Some(0xff08u32)
    } else if vk == 0x09 {
        Some(0xff09u32)
    } else if vk == 0x0d {
        Some(0xff0du32)
    } else if vk == 0x1b {
        Some(0xff1bu32)
    } else if vk == 0x1c {
        Some(0xff23u32)
    } else if vk == 0x1d {
        Some(0xff22u32)
    } else if vk == 0x19 || vk == 0xf3 || vk == 0xf4 {
        Some(0xff2au32)
    } else if vk == 0x20 {
        Some(0x20u32)
    } else if vk == 0x25 {
        Some(0xff51u32)
    } else if vk == 0x26 {
        Some(0xff52u32)
    } else if vk == 0x27 {
        Some(0xff53u32)
    } else if vk == 0x28 {
        Some(0xff54u32)
    } else if vk == 0x2e {
        Some(0xffffu32)
    } else {
        None
    }
}

/// The key symbol for virtual key `vk`, given the character the keyboard
/// layout produces for it (if any) and the Shift and Control state.
///
/// Keys without a character have named symbols. A printable ASCII character
/// is its own symbol unless Control is held; letter keys otherwise give the
/// lower-case letter (upper-case with Shift and no Control). Anything else
/// carries no key.
pub open spec fn keysym_for_vk(vk: u32, unicode: Option<char>, shift: bool, control: bool) -> u32 {
    match special_keysym(vk) {
        Some(k) => k,
        None => {
            if !control && unicode is Some && 0x21 <= (unicode->0 as u32) <= 0x7e {
                unicode->0 as u32
            } else if 0x41 <= vk <= 0x5a {
                if shift && !control {
                    vk
                } else {
                    (vk + 0x20) as u32
                }
            } else {
                VOID_SYMBOL
            }
        },
    }
}

/// The engine key event for a Windows key event.
pub open spec fn key_event_for_vk(
    vk: u32,
    unicode: Option<char>,
    shift: bool,
    control: bool,
    alt: bool,
    win: bool,
    is_press: bool,
) -> KeyEvent {
    KeyEvent {
        keysym: keysym_for_vk(vk, unicode, shift, control),
        modifiers: KeyModifiers { shift, control, alt, super_key: win },
        is_press,
    }
}

fn special_keysym_of(vk: u32) -> (r: Option<u32>)
    ensures
        r == special_keysym(vk),
{
    if vk == 0x08 {
        Some(0xff08)
    } else if vk == 0x09 {
        Some(0xff09)
    } else if vk == 0x0d {
        Some(0xff0d)
    } else if vk == 0x1b {
        Some(0xff1b)
    } else if vk == 0x1c {
        Some(0xff23)
    } else if vk == 0x1d {
        Some(0xff22)
    } else if vk == 0x19 || vk == 0xf3 || vk == 0xf4 {
        Some(0xff2a)
    } else if vk == 0x20 {
        Some(0x20)
    } else if vk == 0x25 {
        Some(0xff51)
    } else if vk == 0x26 {
        Some(0xff52)
    } else if vk == 0x27 {
        Some(0xff53)
    } else if vk == 0x28 {
        Some(0xff54)
    } else if vk == 0x2e {
        Some(0xffff)
    } else {
        None
    }
}

/// The key symbol for a virtual key.
pub fn keysym_of_vk(vk: u32, unicode: Option<char>, shift: bool, control: bool) -> (k: u32)
    ensures
        k == keysym_for_vk(vk, unicode, shift, control),
{
    match special_keysym_of(vk) {
        Some(k) => k,
        None => {
            let printable = match unicode {
                Some(c) => !control && 0x21 <= (c as u32) && (c as u32) <= 0x7e,
                None => false,
            };
            if printable {
                match unicode {
                    Some(c) => c as u32,
                    None => VOID_SYMBOL,
                }
            } else if 0x41 <= vk && vk <= 0x5a {
                if shift && !control {
                    vk
                } else {
                    vk + 0x20
                }
            } else {
                VOID_SYMBOL
            }
        },
    }
}

/// The character that `ToUnicode` reported: only when it wrote exactly one
/// UTF-16 unit, and only when that unit is a character by itself.
pub open spec fn decoded_char(count: i32, unit: u16) -> Option<char> {
    if count == 1 && is_scalar_value(unit as int) {
        Some((unit as u32) as char)
    } else {
        None
    }
}

/// Interprets what `ToUnicode` returned (`count`) and wrote first (`unit`).
pub fn decode_to_unicode(count: i32, unit: u16) -> (r: Option<char>)
    ensures
        r == decoded_char(count, unit),
{
    if count == 1 {
        let code = unit as u32;
        match char_from_u32(code) {
            Some(c) => {
                proof {
                    lemma_char_from_code(c, code);
                }
                Some(c)
            },
            None => None,
        }
    } else {
        None
    }
}

/// Modifier state from `GetKeyState` results, which are negative while the
/// key is down: Shift, Control, Alt (Menu), and the left and right Windows
/// keys (either one counts).
pub fn modifiers_from_key_states(shift: i16, control: i16, alt: i16, lwin: i16, rwin: i16) -> (m:
    KeyModifiers)
    ensures
        m.shift == (shift < 0),
        m.control == (control < 0),
        m.alt == (alt < 0),
        m.super_key == (lwin < 0 || rwin < 0),
{
    KeyModifiers { shift: shift < 0, control: control < 0, alt: alt < 0, super_key: lwin < 0 || rwin < 0 }
}

/// A conversion the user chose: the reading and the candidate committed for
/// it.
#[derive(Debug)]
pub struct LearnedConversion {
    pub reading: String,
    pub text: String,
}

impl View for LearnedConversion {
    type V = (Seq<char>, Seq<char>);

    open spec fn view(&self) -> (Seq<char>, Seq<char>) {
        (self.reading@, self.text@)
    }
}

/// The models of a list of learned conversions.
pub open spec fn learned_view(v: Seq<LearnedConversion>) -> Seq<(Seq<char>, Seq<char>)> {
    v.map_values(|l: LearnedConversion| l@)
}

/// The text a conversion in progress commits (nothing outside a conversion).
pub open spec fn conversion_commit_text(e: EngineView) -> Seq<char> {
    match e.state {
        StateView::Conversion { preedit, candidates } => candidate_commit_text(preedit, candidates),
        _ => Seq::empty(),
    }
}

/// What a key event teaches: when it ends a conversion by committing (the
/// engine leaves the Conversion state for the Empty state), the reading and
/// the committed candidate.
pub open spec fn learned_by(before: EngineView, after: EngineView) -> Seq<(Seq<char>, Seq<char>)> {
    if before.state is Conversion && after.state is Empty {
        seq![(before.text, conversion_commit_text(before))]
    } else {
        Seq::empty()
    }
}

/// Copies of a list of learned conversions.
pub fn copy_learned(v: &Vec<LearnedConversion>) -> (c: Vec<LearnedConversion>)
    ensures
        learned_view(c@) == learned_view(v@),
{
    let n = v.len();
    let mut c: Vec<LearnedConversion> = Vec::new();
    let mut i: usize = 0;
    while i < n
        invariant
            n == v@.len(),
            i <= n,
            c@.len() == i,
            learned_view(c@) == learned_view(v@.take(i as int)),
        decreases n - i,
    {
        let item = LearnedConversion { reading: v[i].reading.clone(), text: v[i].text.clone() };
        let ghost before = c@;
        c.push(item);
        assert forall|j: int| 0 <= j < i implies #[trigger] learned_view(c@)[j] == learned_view(v@.take(i + 1))[j] by {
            assert(learned_view(before)[j] == learned_view(v@.take(i as int))[j]);
            assert(c@[j] == before[j]);
        }
        assert(learned_view(c@) =~= learned_view(v@.take(i + 1)));
        i = i + 1;
    }
    assert(v@.take(n as int) =~= v@);
    c
}

/// The text last chosen for `reading`, if it was ever converted.
pub open spec fn learned_choice(learned: Seq<(Seq<char>, Seq<char>)>, reading: Seq<char>) -> Option<
    Seq<char>,
>
    decreases learned.len(),
{
    if learned.len() == 0 {
        None
    } else if learned.last().0 == reading {
        Some(learned.last().1)
    } else {
        learned_choice(learned.drop_last(), reading)
    }
}

/// The position of the first candidate with text `t`.
pub open spec fn text_position(cands: Seq<CandidateView>, t: Seq<char>) -> Option<nat>
    decreases cands.len(),
{
    if cands.len() == 0 {
        None
    } else {
        match text_position(cands.drop_last(), t) {
            Some(j) => Some(j),
            None => if cands.last().text == t {
                Some((cands.len() - 1) as nat)
            } else {
                None
            },
        }
    }
}

/// The candidates as offered: the text last chosen for the reading, when the
/// converter offers it, comes first; the others keep their order.
pub open spec fn prioritized(
    cands: Seq<CandidateView>,
    reading: Seq<char>,
    learned: Seq<(Seq<char>, Seq<char>)>,
) -> Seq<CandidateView> {
    match learned_choice(learned, reading) {
        Some(t) => match text_position(cands, t) {
            Some(j) => seq![cands[j as int]] + cands.remove(j as int),
            None => cands,
        },
        None => cands,
    }
}

/// A position found in a prefix is the position in the whole list.
proof fn lemma_position_prefix(cands: Seq<CandidateView>, t: Seq<char>, k: int)
    requires
        0 <= k <= cands.len(),
        text_position(cands.take(k), t) is Some,
    ensures
        text_position(cands, t) == text_position(cands.take(k), t),
    decreases cands.len(),
{
    if k == cands.len() {
        assert(cands.take(k) =~= cands);
    } else {
        assert(cands.drop_last().take(k) =~= cands.take(k));
        lemma_position_prefix(cands.drop_last(), t, k);
    }
}

/// The position found holds a candidate with the text, and a candidate with
/// the text is always found.
proof fn lemma_position_found(cands: Seq<CandidateView>, t: Seq<char>)
    ensures
        text_position(cands, t) matches Some(j) ==> j < cands.len() && cands[j as int].text == t,
        (exists|i: int| 0 <= i < cands.len() && #[trigger] cands[i].text == t) ==> text_position(
            cands,
            t,
        ) is Some,
    decreases cands.len(),
{
    if cands.len() > 0 {
        lemma_position_found(cands.drop_last(), t);
        if exists|i: int| 0 <= i < cands.len() && #[trigger] cands[i].text == t {
            let i = choose|i: int| 0 <= i < cands.len() && #[trigger] cands[i].text == t;
            if i < cands.len() - 1 {
                assert(cands.drop_last()[i].text == t);
            }
        }
    }
}

/// The index of the latest learned conversion of `reading`.
fn learned_index(learned: &Vec<LearnedConversion>, reading: &String) -> (k: Option<usize>)
    ensures
        match k {
            Some(i) => i < learned@.len() && learned_choice(learned_view(learned@), reading@) == Some(
                learned@[i as int].text@,
            ),
            None => learned_choice(learned_view(learned@), reading@) is None,
        },
{
    let ghost lv = learned_view(learned@);
    let mut i: usize = learned.len();
    assert(lv.take(i as int) =~= lv);
    while i > 0
        invariant
            i <= learned@.len(),
            lv == learned_view(learned@),
            learned_choice(lv, reading@) == learned_choice(lv.take(i as int), reading@),
        decreases i,
    {
        assert(lv.take(i as int).last() == learned@[i - 1]@);
        if learned[i - 1].reading == *reading {
            return Some(i - 1);
        }
        assert(lv.take(i as int).drop_last() =~= lv.take(i - 1));
        i = i - 1;
    }
    assert(lv.take(0) =~= Seq::<(Seq<char>, Seq<char>)>::empty());
    None
}

/// The position of the first candidate with text `t`.
fn text_position_of(cands: &Vec<Candidate>, t: &String) -> (k: Option<usize>)
    ensures
        k matches Some(j) ==> text_position(candidate_views(cands@), t@) == Some(j as nat),
        k is None ==> text_position(candidate_views(cands@), t@) is None,
{
    let ghost cv = candidate_views(cands@);
    let n = cands.len();
    let mut i: usize = 0;
    assert(cv.take(0) =~= Seq::<CandidateView>::empty());
    while i < n
        invariant
            n == cands@.len(),
            cv == candidate_views(cands@),
            i <= n,
            text_position(cv.take(i as int), t@) is None,
        decreases n - i,
    {
        assert(cv.take(i + 1).drop_last() =~= cv.take(i as int));
        assert(cv.take(i + 1).last() == cands@[i as int]@);
        if cands[i].text == *t {
            proof {
                lemma_position_prefix(cv, t@, i + 1);
            }
            return Some(i);
        }
        i = i + 1;
    }
    assert(cv.take(n as int) =~= cv);
    None
}

/// The engine as the text service holds it: fed Windows key events, and
/// remembering the conversions the user chose.
#[derive(Debug)]
pub struct EngineBridge {
    pub engine: InputMethodEngine,
    /// Conversions committed so far, oldest first.
    pub learned: Vec<LearnedConversion>,
}

impl View for EngineBridge {
    type V = EngineView;

    open spec fn view(&self) -> EngineView {
        self.engine@
    }
}

impl EngineBridge {
    /// An engine with the default key bindings, in Hiragana mode, that has
    /// learned nothing.
    pub fn new() -> (b: EngineBridge)
        ensures
            b@ == initial_engine(KeybindingProfile::Default),
            b.learned@.len() == 0,
    {
        EngineBridge { engine: InputMethodEngine::new(), learned: Vec::new() }
    }

    /// An engine with the given key bindings, in Hiragana mode, that has
    /// learned nothing.
    pub fn with_profile(profile: KeybindingProfile) -> (b: EngineBridge)
        ensures
            b@ == initial_engine(profile),
            b.learned@.len() == 0,
    {
        EngineBridge {
            engine: InputMethodEngine::with_config(
                crate::engine::EngineConfig { keybinding_profile: profile },
            ),
            learned: Vec::new(),
        }
    }

    /// Handles a Windows key event; a conversion it commits is learned.
    pub fn process_key(
        &mut self,
        vk: u32,
        unicode: Option<char>,
        shift: bool,
        control: bool,
        alt: bool,
        win: bool,
        is_press: bool,
    ) -> (r: EngineResult)
        ensures
            (final(self)@, r@) == spec_process_key(
                old(self)@,
                key_event_for_vk(vk, unicode, shift, control, alt, win, is_press),
            ),
            learned_view(final(self).learned@) == learned_view(old(self).learned@) + learned_by(
                old(self)@,
                final(self)@,
            ),
    {
        let key = KeyEvent {
            keysym: keysym_of_vk(vk, unicode, shift, control),
            modifiers: KeyModifiers { shift, control, alt, super_key: win },
            is_press,
        };
        let entry = match &self.engine.state {
            InputState::Conversion { preedit, candidates } => {
                let text = if candidates.selected < candidates.candidates.len() {
                    candidates.candidates[candidates.selected].text.clone()
                } else {
                    preedit.text.clone()
                };
                Some(LearnedConversion { reading: self.engine.input_buf.text.clone(), text })
            },
            _ => None,
        };
        let ghost before = self.engine@;
        let ghost learned_before = learned_view(self.learned@);
        let r = self.engine.process_key(&key);
        let ended = match &self.engine.state {
            InputState::Empty => true,
            _ => false,
        };
        match entry {
            Some(en) => {
                if ended {
                    self.learned.push(en);
                }
            },
            None => {},
        }
        assert(learned_view(self.learned@) =~= learned_before + learned_by(before, self.engine@));
        r
    }

    /// Takes back the conversions learned in earlier sessions, as they were
    /// saved; the engine itself is unchanged.
    pub fn restore_learning(&mut self, saved: Vec<LearnedConversion>)
        ensures
            final(self)@ == old(self)@,
            learned_view(final(self).learned@) == learned_view(saved@),
    {
        self.learned = saved;
    }

    /// Starts converting the reading being composed with the candidates a
    /// converter offers; the text last chosen for the reading, when offered,
    /// comes first. What was learned stays.
    pub fn begin_conversion(&mut self, candidates: Vec<Candidate>) -> (r: EngineResult)
        ensures
            (final(self)@, r@) == conversion_begun(
                old(self)@,
                prioritized(
                    candidate_views(candidates@),
                    committed_reading(old(self)@),
                    learned_view(old(self).learned@),
                ),
            ),
            learned_view(final(self).learned@) == learned_view(old(self).learned@),
    {
        let reading = string_from_chars(
            &crate::engine::concat_reading(&chars_of(self.engine.input_buf.text.as_str()), &flush_of(&self.engine.pending)),
        );
        let mut cands = candidates;
        let ghost cv = candidate_views(cands@);
        match learned_index(&self.learned, &reading) {
            Some(k) => {
                match text_position_of(&cands, &self.learned[k].text) {
                    Some(j) => {
                        proof {
                            lemma_position_found(cv, self.learned@[k as int].text@);
                        }
                        let ghost before = cands@;
                        let c = cands.remove(j);
                        cands.insert(0, c);
                        assert(cands@ =~= seq![before[j as int]] + before.remove(j as int));
                        assert(candidate_views(cands@) =~= seq![cv[j as int]] + cv.remove(j as int));
                    },
                    None => {},
                }
            },
            None => {},
        }
        self.engine.begin_conversion(cands)
    }

    /// Drops any composition; the input mode and what was learned stay.
    pub fn reset(&mut self)
        ensures
            final(self)@ == cleared(old(self)@, old(self)@.mode),
            learned_view(final(self).learned@) == learned_view(old(self).learned@),
    {
        self.engine.reset();
    }
}

/// The text last chosen for a reading is offered first when the reading is
/// converted again: converting with candidates that include it selects it
/// and shows it in the preedit, so that Return commits it again.
pub proof fn lemma_learned_choice_comes_first(
    e: EngineView,
    cands: Seq<CandidateView>,
    learned: Seq<(Seq<char>, Seq<char>)>,
    t: Seq<char>,
)
    requires
        e.state is Composing,
        exists|i: int| 0 <= i < cands.len() && #[trigger] cands[i].text == t,
    ensures
        ({
            let offered = prioritized(cands, committed_reading(e), learned.push((committed_reading(e), t)));
            let (e2, r) = conversion_begun(e, offered);
            &&& r.consumed
            &&& offered.len() == cands.len()
            &&& e2.state matches StateView::Conversion { preedit, candidates } && preedit.text == t
                && candidates.selected == 0 && candidate_commit_text(preedit, candidates) == t
        }),
{
    let reading = committed_reading(e);
    let l2 = learned.push((reading, t));
    assert(l2.last() == (reading, t));
    assert(learned_choice(l2, reading) == Some(t));
    lemma_position_found(cands, t);
    let j = text_position(cands, t)->0;
    let offered = seq![cands[j as int]] + cands.remove(j as int);
    assert(offered[0] == cands[j as int]);
}

/// What a committed conversion teaches is offered first the next time its
/// reading is converted: after a key ends a conversion of reading `r` by
/// committing text `t`, converting `r` again with candidates that include `t`
/// selects `t`.
pub proof fn lemma_commit_then_reconvert(
    before: EngineView,
    after: EngineView,
    learned: Seq<(Seq<char>, Seq<char>)>,
    e: EngineView,
    cands: Seq<CandidateView>,
)
    requires
        before.state is Conversion,
        after.state is Empty,
        e.state is Composing,
        committed_reading(e) == before.text,
        exists|i: int| 0 <= i < cands.len() && #[trigger] cands[i].text == conversion_commit_text(before),
    ensures
        conversion_begun(
            e,
            prioritized(cands, committed_reading(e), learned + learned_by(before, after)),
        ).0.state matches StateView::Conversion { preedit, .. } && preedit.text == conversion_commit_text(
            before,
        ),
{
    let t = conversion_commit_text(before);
    assert(learned + learned_by(before, after) =~= learned.push((committed_reading(e), t)));
    lemma_learned_choice_comes_first(e, cands, learned, t);
}

} // verus!
