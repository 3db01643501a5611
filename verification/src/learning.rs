//! The learning file: the conversions the user chose, one per line, as the
//! reading, a tab and the chosen text.
//!
//! Reading the file back gives what was written, as long as no reading or
//! text holds a tab or a line break.

use vstd::prelude::*;
use crate::bridge::{learned_view, LearnedConversion};
use crate::text::{chars_of, push_char, push_chars};

verus! {

/// The line written for one learned conversion.
pub open spec fn entry_line(e: (Seq<char>, Seq<char>)) -> Seq<char> {
    e.0 + seq!['\t'] + e.1 + seq!['\n']
}

/// The text of a learning file holding `es`, in order.
pub open spec fn learning_text(es: Seq<(Seq<char>, Seq<char>)>) -> Seq<char>
    decreases es.len(),
{
    if es.len() == 0 {
        Seq::empty()
    } else {
        learning_text(es.drop_last()) + entry_line(es.last())
    }
}

/// Where reading a learning file stands: the conversions read so far, the
/// reading of the current line once its tab was seen, and the current field.
pub struct ReadState {
    pub entries: Seq<(Seq<char>, Seq<char>)>,
    pub reading: Seq<char>,
    pub field: Seq<char>,
    pub in_text: bool,
}

/// The state at the start of a line.
pub open spec fn line_start(entries: Seq<(Seq<char>, Seq<char>)>) -> ReadState {
    ReadState { entries, reading: Seq::empty(), field: Seq::empty(), in_text: false }
}

/// Reading one character. A line break ends the line (a line with a tab
/// gives a conversion; one without is skipped); the first tab of a line ends
/// the reading; any other character extends the current field.
pub open spec fn read_step(st: ReadState, c: char) -> ReadState {
    if c == '\n' {
        line_start(
            if st.in_text {
                st.entries.push((st.reading, st.field))
            } else {
                st.entries
            },
        )
    } else if c == '\t' && !st.in_text {
        ReadState { reading: st.field, field: Seq::empty(), in_text: true, ..st }
    } else {
        ReadState { field: st.field.push(c), ..st }
    }
}

/// The state after reading `s` from the start of a file.
pub open spec fn read_chars(s: Seq<char>) -> ReadState
    decreases s.len(),
{
    if s.len() == 0 {
        line_start(Seq::empty())
    } else {
        read_step(read_chars(s.drop_last()), s.last())
    }
}

/// The conversions a learning file holds; a last line without a line break
/// counts too.
pub open spec fn read_learning(s: Seq<char>) -> Seq<(Seq<char>, Seq<char>)> {
    let st = read_chars(s);
    if st.in_text {
        st.entries.push((st.reading, st.field))
    } else {
        st.entries
    }
}

/// Text that a field can hold as it is: no tab and no line break.
pub open spec fn plain_field(s: Seq<char>) -> bool {
    forall|i: int| 0 <= i < s.len() ==> #[trigger] s[i] != '\t' && s[i] != '\n'
}

/// Conversions whose readings and texts are all plain fields.
pub open spec fn plain_entries(es: Seq<(Seq<char>, Seq<char>)>) -> bool {
    forall|i: int| 0 <= i < es.len() ==> plain_field(#[trigger] es[i].0) && plain_field(es[i].1)
}

proof fn lemma_read_push(p: Seq<char>, c: char)
    ensures
        read_chars(p.push(c)) == read_step(read_chars(p), c),
{
    assert(p.push(c).drop_last() =~= p);
}

proof fn lemma_read_plain(p: Seq<char>, w: Seq<char>)
    requires
        plain_field(w),
    ensures
        read_chars(p + w) == (ReadState { field: read_chars(p).field + w, ..read_chars(p) }),
    decreases w.len(),
{
    if w.len() == 0 {
        assert(p + w =~= p);
        assert(read_chars(p).field + w =~= read_chars(p).field);
    } else {
        let w0 = w.drop_last();
        let c = w.last();
        assert(plain_field(w0)) by {
            assert forall|i: int| 0 <= i < w0.len() implies #[trigger] w0[i] != '\t' && w0[i] != '\n' by {
                assert(w0[i] == w[i]);
            }
        }
        assert(c == w[w.len() - 1]);
        lemma_read_plain(p, w0);
        assert(p + w =~= (p + w0).push(c));
        lemma_read_push(p + w0, c);
        assert(read_chars(p).field + w0 + seq![c] =~= read_chars(p).field + w);
        assert((read_chars(p).field + w0).push(c) =~= read_chars(p).field + w);
    }
}

proof fn lemma_read_entry(p: Seq<char>, e: (Seq<char>, Seq<char>))
    requires
        plain_field(e.0),
        plain_field(e.1),
        read_chars(p) == line_start(read_chars(p).entries),
    ensures
        read_chars(p + entry_line(e)) == line_start(read_chars(p).entries.push(e)),
{
    let st = read_chars(p);
    lemma_read_plain(p, e.0);
    assert(Seq::<char>::empty() + e.0 =~= e.0);
    let p1 = p + e.0;
    lemma_read_push(p1, '\t');
    let p2 = p1.push('\t');
    lemma_read_plain(p2, e.1);
    let p3 = p2 + e.1;
    lemma_read_push(p3, '\n');
    assert(p + entry_line(e) =~= p3.push('\n'));
}

proof fn lemma_read_text(es: Seq<(Seq<char>, Seq<char>)>)
    requires
        plain_entries(es),
    ensures
        read_chars(learning_text(es)) == line_start(es),
    decreases es.len(),
{
    if es.len() == 0 {
        assert(learning_text(es) =~= Seq::<char>::empty());
        assert(es =~= Seq::<(Seq<char>, Seq<char>)>::empty());
    } else {
        let rest = es.drop_last();
        assert(plain_entries(rest)) by {
            assert forall|i: int| 0 <= i < rest.len() implies plain_field(#[trigger] rest[i].0) && plain_field(rest[i].1) by {
                assert(rest[i] == es[i]);
            }
        }
        lemma_read_text(rest);
        let last = es[es.len() - 1];
        assert(plain_field(last.0) && plain_field(last.1));
        lemma_read_entry(learning_text(rest), es.last());
        assert(rest.push(es.last()) =~= es);
    }
}

/// Reading back a learning file gives exactly the conversions written to it,
/// in order, when no reading or text holds a tab or a line break.
pub proof fn lemma_learning_round_trip(es: Seq<(Seq<char>, Seq<char>)>)
    requires
        plain_entries(es),
    ensures
        read_learning(learning_text(es)) == es,
{
    lemma_read_text(es);
}

/// The text of a learning file holding `entries`.
pub fn encode_learning(entries: &Vec<LearnedConversion>) -> (text: String)
    ensures
        text@ == learning_text(learned_view(entries@)),
{
    let n = entries.len();
    let mut text = String::new();
    let mut i: usize = 0;
    while i < n
        invariant
            n == entries@.len(),
            i <= n,
            text@ == learning_text(learned_view(entries@.take(i as int))),
        decreases n - i,
    {
        let ghost before = text@;
        let reading = chars_of(entries[i].reading.as_str());
        let chosen = chars_of(entries[i].text.as_str());
        push_chars(&mut text, &reading);
        push_char(&mut text, '\t');
        push_chars(&mut text, &chosen);
        push_char(&mut text, '\n');
        proof {
            let es = learned_view(entries@.take(i + 1));
            assert(es.drop_last() =~= learned_view(entries@.take(i as int)));
            assert(es.last() == entries@[i as int]@);
            assert(text@ =~= before + entry_line(entries@[i as int]@));
        }
        i = i + 1;
    }
    assert(entries@.take(n as int) =~= entries@);
    text
}

/// The conversions a learning file holds.
pub fn decode_learning(text: &str) -> (entries: Vec<LearnedConversion>)
    ensures
        learned_view(entries@) == read_learning(text@),
{
    let chars = chars_of(text);
    let n = chars.len();
    let mut entries: Vec<LearnedConversion> = Vec::new();
    let mut reading = String::new();
    let mut field = String::new();
    let mut in_text = false;
    let mut i: usize = 0;
    assert(chars@.take(0) =~= Seq::<char>::empty());
    assert(learned_view(entries@) =~= Seq::<(Seq<char>, Seq<char>)>::empty());
    while i < n
        invariant
            n == chars@.len(),
            chars@ == text@,
            i <= n,
            read_chars(chars@.take(i as int)) == (ReadState {
                entries: learned_view(entries@),
                reading: reading@,
                field: field@,
                in_text,
            }),
        decreases n - i,
    {
        let c = chars[i];
        proof {
            assert(chars@.take(i + 1) =~= chars@.take(i as int).push(c));
            lemma_read_push(chars@.take(i as int), c);
        }
        let ghost old_entries = learned_view(entries@);
        if c == '\n' {
            if in_text {
                let r = reading;
                let f = field;
                entries.push(LearnedConversion { reading: r, text: f });
                assert(learned_view(entries@) =~= old_entries.push((r@, f@)));
            }
            reading = String::new();
            field = String::new();
            in_text = false;
        } else if c == '\t' && !in_text {
            reading = field;
            field = String::new();
            in_text = true;
        } else {
            push_char(&mut field, c);
        }
        i = i + 1;
    }
    assert(chars@.take(n as int) =~= chars@);
    if in_text {
        let ghost old_entries = learned_view(entries@);
        let r = reading;
        let f = field;
        entries.push(LearnedConversion { reading: r, text: f });
        assert(learned_view(entries@) =~= old_entries.push((r@, f@)));
    }
    entries
}

} // verus!
