//! The edits that a list of engine actions makes to a document's
//! composition, and the UTF-16 text that goes into it.
//!
//! With a composition open, a preedit update replaces its text and a commit
//! replaces the text and then ends it. With none open, a preedit update with
//! text starts a composition holding it, and a commit with text inserts it
//! at the selection. The other actions (candidates, auxiliary text) do not
//! touch the document.

use vstd::prelude::*;
use crate::engine::{actions_view, ActionView, EngineAction};
use crate::text::chars_of;

verus! {

/// The UTF-16 encoding of one character: one unit below U+10000, otherwise
/// a high and a low surrogate.
pub open spec fn utf16_of_char(c: char) -> Seq<u16> {
    let x = c as u32;
    if x < 0x10000 {
        seq![x as u16]
    } else {
        let v = x - 0x10000;
        seq![(0xD800 + v / 0x400) as u16, (0xDC00 + v % 0x400) as u16]
    }
}

/// The UTF-16 encoding of a text.
pub open spec fn utf16_of(s: Seq<char>) -> Seq<u16>
    decreases s.len(),
{
    if s.len() == 0 {
        Seq::empty()
    } else {
        utf16_of(s.drop_last()) + utf16_of_char(s.last())
    }
}

/// Encodes one character as UTF-16.
fn encode_char(c: char, out: &mut Vec<u16>)
    ensures
        final(out)@ == old(out)@ + utf16_of_char(c),
{
    let x = c as u32;
    if x < 0x10000 {
        out.push(x as u16);
    } else {
        let v = x - 0x10000;
        out.push((0xD800 + v / 0x400) as u16);
        out.push((0xDC00 + v % 0x400) as u16);
    }
    assert(final(out)@ =~= old(out)@ + utf16_of_char(c)) by {
        assert(out@ =~= old(out)@ + utf16_of_char(c));
    }
}

/// Encodes a text as UTF-16.
pub fn encode_utf16(s: &str) -> (u: Vec<u16>)
    ensures
        u@ == utf16_of(s@),
{
    let chars = chars_of(s);
    let n = chars.len();
    let mut u: Vec<u16> = Vec::new();
    let mut i: usize = 0;
    while i < n
        invariant
            n == chars@.len(),
            chars@ == s@,
            i <= n,
            u@ == utf16_of(chars@.take(i as int)),
        decreases n - i,
    {
        encode_char(chars[i], &mut u);
        assert(chars@.take(i + 1).drop_last() =~= chars@.take(i as int));
        i = i + 1;
    }
    assert(chars@.take(n as int) =~= chars@);
    u
}

/// One edit of the document.
#[derive(Debug)]
pub enum EditOp {
    /// Replace the composition's text with these UTF-16 units.
    SetText(Vec<u16>),
    /// End the composition.
    EndComposition,
    /// Start a composition at the selection, holding these UTF-16 units.
    StartComposition(Vec<u16>),
    /// Insert these UTF-16 units at the selection, outside any composition.
    InsertAtSelection(Vec<u16>),
}

/// The model of an [`EditOp`].
pub enum EditOpView {
    SetText(Seq<u16>),
    EndComposition,
    StartComposition(Seq<u16>),
    InsertAtSelection(Seq<u16>),
}

impl View for EditOp {
    type V = EditOpView;

    open spec fn view(&self) -> EditOpView {
        match self {
            EditOp::SetText(u) => EditOpView::SetText(u@),
            EditOp::EndComposition => EditOpView::EndComposition,
            EditOp::StartComposition(u) => EditOpView::StartComposition(u@),
            EditOp::InsertAtSelection(u) => EditOpView::InsertAtSelection(u@),
        }
    }
}

/// The models of a list of edits.
pub open spec fn ops_view(ops: Seq<EditOp>) -> Seq<EditOpView> {
    ops.map_values(|o: EditOp| o@)
}

/// The edits one action makes, given whether a composition is open.
///
/// A preedit update replaces the composition's text, or starts a
/// composition with it when none is open (an empty preedit starts none). A
/// commit replaces the composition's text and ends the composition, or,
/// with no composition open, inserts the text at the selection (an empty
/// text inserts nothing). Other actions do not touch the document.
pub open spec fn ops_for_action(a: ActionView, has_composition: bool) -> Seq<EditOpView> {
    match a {
        ActionView::UpdatePreedit(p) => if has_composition {
            seq![EditOpView::SetText(utf16_of(p.text))]
        } else if p.text.len() > 0 {
            seq![EditOpView::StartComposition(utf16_of(p.text))]
        } else {
            Seq::empty()
        },
        ActionView::Commit(t) => if has_composition {
            seq![EditOpView::SetText(utf16_of(t)), EditOpView::EndComposition]
        } else if t.len() > 0 {
            seq![EditOpView::InsertAtSelection(utf16_of(t))]
        } else {
            Seq::empty()
        },
        _ => Seq::empty(),
    }
}

/// Whether a composition is open after one action: a preedit update with
/// text opens one, a commit ends it, other actions leave it as it was.
pub open spec fn composition_after_action(a: ActionView, has_composition: bool) -> bool {
    match a {
        ActionView::UpdatePreedit(p) => has_composition || p.text.len() > 0,
        ActionView::Commit(_) => false,
        _ => has_composition,
    }
}

/// Whether a composition is open after a list of actions.
pub open spec fn composition_after(actions: Seq<ActionView>, has_composition: bool) -> bool
    decreases actions.len(),
{
    if actions.len() == 0 {
        has_composition
    } else {
        composition_after_action(actions.last(), composition_after(actions.drop_last(), has_composition))
    }
}

/// The edits a list of actions makes, in order, starting with or without an
/// open composition.
pub open spec fn edit_plan(actions: Seq<ActionView>, has_composition: bool) -> Seq<EditOpView>
    decreases actions.len(),
{
    if actions.len() == 0 {
        Seq::empty()
    } else {
        edit_plan(actions.drop_last(), has_composition) + ops_for_action(
            actions.last(),
            composition_after(actions.drop_last(), has_composition),
        )
    }
}

/// The edits that applying `actions` makes to the document, starting with or
/// without an open composition.
pub fn plan_edits(actions: &Vec<EngineAction>, has_composition: bool) -> (ops: Vec<EditOp>)
    ensures
        ops_view(ops@) == edit_plan(actions_view(actions@), has_composition),
{
    let n = actions.len();
    let mut ops: Vec<EditOp> = Vec::new();
    let mut open = has_composition;
    let mut i: usize = 0;
    while i < n
        invariant
            n == actions@.len(),
            i <= n,
            ops_view(ops@) == edit_plan(actions_view(actions@.take(i as int)), has_composition),
            open == composition_after(actions_view(actions@.take(i as int)), has_composition),
        decreases n - i,
    {
        let ghost before = ops_view(ops@);
        let ghost was_open = open;
        match &actions[i] {
            EngineAction::UpdatePreedit(p) => {
                let units = encode_utf16(p.text.as_str());
                if open {
                    ops.push(EditOp::SetText(units));
                } else if units.len() > 0 {
                    ops.push(EditOp::StartComposition(units));
                    open = true;
                }
                proof {
                    if !was_open {
                        lemma_utf16_empty_iff(p.text@);
                    }
                }
            },
            EngineAction::Commit(t) => {
                let units = encode_utf16(t.as_str());
                if open {
                    ops.push(EditOp::SetText(units));
                    ops.push(EditOp::EndComposition);
                } else if units.len() > 0 {
                    ops.push(EditOp::InsertAtSelection(units));
                }
                proof {
                    lemma_utf16_empty_iff(t@);
                }
                open = false;
            },
            _ => {},
        }
        assert(ops_view(ops@) =~= before + ops_for_action(actions@[i as int]@, was_open));
        assert(actions_view(actions@.take(i + 1)).drop_last() =~= actions_view(actions@.take(i as int)));
        i = i + 1;
    }
    assert(actions@.take(n as int) =~= actions@);
    ops
}

/// A text encodes to no UTF-16 units exactly when it is empty.
pub proof fn lemma_utf16_empty_iff(s: Seq<char>)
    ensures
        (utf16_of(s).len() == 0) == (s.len() == 0),
    decreases s.len(),
{
    if s.len() > 0 {
        lemma_utf16_empty_iff(s.drop_last());
    }
}

/// UTF-16 encoding works piece by piece.
pub proof fn lemma_utf16_concat(a: Seq<char>, b: Seq<char>)
    ensures
        utf16_of(a + b) == utf16_of(a) + utf16_of(b),
    decreases b.len(),
{
    if b.len() == 0 {
        assert(a + b =~= a);
        assert(utf16_of(a) + utf16_of(b) =~= utf16_of(a));
    } else {
        lemma_utf16_concat(a, b.drop_last());
        assert((a + b).drop_last() =~= a + b.drop_last());
        assert(utf16_of(a) + utf16_of(b) =~= utf16_of(a) + utf16_of(b.drop_last()) + utf16_of_char(b.last()));
    }
}

/// Text made only of characters below U+10000 (such as kana) takes one
/// UTF-16 unit per character, each unit being the character's code.
pub proof fn lemma_utf16_basic_plane(s: Seq<char>)
    requires
        forall|i: int| 0 <= i < s.len() ==> (s[i] as u32) < 0x10000,
    ensures
        utf16_of(s).len() == s.len(),
        forall|i: int| 0 <= i < s.len() ==> utf16_of(s)[i] as u32 == s[i] as u32,
    decreases s.len(),
{
    if s.len() > 0 {
        let init = s.drop_last();
        lemma_utf16_basic_plane(init);
        assert(utf16_of(s) == utf16_of(init) + utf16_of_char(s.last()));
        assert((s.last() as u32) < 0x10000);
        assert(utf16_of_char(s.last()) == seq![(s.last() as u32) as u16]);
        assert forall|i: int| 0 <= i < s.len() implies utf16_of(s)[i] as u32 == s[i] as u32 by {
            if i < s.len() - 1 {
                assert(utf16_of(s)[i] == utf16_of(init)[i]);
                assert(init[i] == s[i]);
            } else {
                assert(i == utf16_of(init).len());
                assert(utf16_of(s)[i] == (s.last() as u32) as u16);
                assert(((s.last() as u32) as u16) as u32 == s.last() as u32);
            }
        }
    }
}

/// Edits are made action by action: the plan for two lists of actions, one
/// after the other, is the plan for the first followed by the plan for the
/// second, started in the composition state the first one leaves.
pub proof fn lemma_edit_plan_concat(a: Seq<ActionView>, b: Seq<ActionView>, has_composition: bool)
    ensures
        edit_plan(a + b, has_composition) == edit_plan(a, has_composition) + edit_plan(
            b,
            composition_after(a, has_composition),
        ),
        composition_after(a + b, has_composition) == composition_after(
            b,
            composition_after(a, has_composition),
        ),
    decreases b.len(),
{
    let h = composition_after(a, has_composition);
    if b.len() == 0 {
        assert(a + b =~= a);
        assert(edit_plan(a, has_composition) + edit_plan(b, h) =~= edit_plan(a, has_composition));
    } else {
        lemma_edit_plan_concat(a, b.drop_last(), has_composition);
        assert((a + b).drop_last() =~= a + b.drop_last());
        assert(edit_plan(a, has_composition) + edit_plan(b, h) =~= edit_plan(a, has_composition)
            + edit_plan(b.drop_last(), h) + ops_for_action(b.last(), composition_after(b.drop_last(), h)));
    }
}

/// A committed text always reaches the document: it replaces the text of the
/// open composition, which then ends, or it is inserted at the selection;
/// either way no composition is open afterwards.
pub proof fn lemma_commit_reaches_document(t: Seq<char>, has_composition: bool)
    requires
        t.len() > 0,
    ensures
        edit_plan(seq![ActionView::Commit(t)], has_composition) == (if has_composition {
            seq![EditOpView::SetText(utf16_of(t)), EditOpView::EndComposition]
        } else {
            seq![EditOpView::InsertAtSelection(utf16_of(t))]
        }),
        !composition_after(seq![ActionView::Commit(t)], has_composition),
{
    let acts = seq![ActionView::Commit(t)];
    assert(acts.drop_last() =~= Seq::<ActionView>::empty());
    assert(edit_plan(acts.drop_last(), has_composition) =~= Seq::<EditOpView>::empty());
    assert(composition_after(acts.drop_last(), has_composition) == has_composition);
    assert(acts.last() == ActionView::Commit(t));
    assert(edit_plan(acts, has_composition) =~= ops_for_action(ActionView::Commit(t), has_composition));
}

/// A preedit with text is always shown: it replaces the open composition's
/// text, or starts a composition holding it; a composition is open
/// afterwards.
pub proof fn lemma_preedit_reaches_document(p: crate::engine::PreeditView, has_composition: bool)
    requires
        p.text.len() > 0,
    ensures
        edit_plan(seq![ActionView::UpdatePreedit(p)], has_composition) == (if has_composition {
            seq![EditOpView::SetText(utf16_of(p.text))]
        } else {
            seq![EditOpView::StartComposition(utf16_of(p.text))]
        }),
        composition_after(seq![ActionView::UpdatePreedit(p)], has_composition),
{
    let acts = seq![ActionView::UpdatePreedit(p)];
    assert(acts.drop_last() =~= Seq::<ActionView>::empty());
    assert(edit_plan(acts.drop_last(), has_composition) =~= Seq::<EditOpView>::empty());
    assert(composition_after(acts.drop_last(), has_composition) == has_composition);
    assert(acts.last() == ActionView::UpdatePreedit(p));
    assert(edit_plan(acts, has_composition) =~= ops_for_action(ActionView::UpdatePreedit(p), has_composition));
}

} // verus!
