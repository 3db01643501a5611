//! The candidate window: its size for a list of candidates, the window
//! commands each operation issues, what is painted, and how window messages
//! are answered.
//!
//! Pixel metrics arrive already scaled for the window's DPI.

use vstd::prelude::*;
use crate::edit::{encode_utf16, utf16_of};
use crate::text::{chars_of, push_char, push_chars};

verus! {

/// Base (96 DPI) height of one candidate row, in pixels.
pub const BASE_CANDIDATE_ITEM_HEIGHT: i32 = 24;
/// Base padding around the list.
pub const BASE_CANDIDATE_PADDING: i32 = 4;
/// Base width of one character.
pub const BASE_CHAR_WIDTH: i32 = 14;
/// Base width of the "N. " label.
pub const BASE_LABEL_WIDTH: i32 = 28;
/// Base minimum window width.
pub const BASE_MIN_WIDTH: i32 = 120;
/// Base font size.
pub const BASE_FONT_SIZE: i32 = 16;
/// Base vertical offset of a row's text.
pub const BASE_TEXT_Y_OFFSET: i32 = 3;

/// The window message that asks for painting.
pub const WM_PAINT: u32 = 0x000f;
/// The window message sent when the window's DPI changes.
pub const WM_DPICHANGED: u32 = 0x02e0;

/// Pixel metrics of the window, scaled for its DPI.
#[derive(Clone, Copy, Debug)]
pub struct CandidateMetrics {
    pub item_height: i32,
    pub padding: i32,
    pub char_width: i32,
    pub label_width: i32,
    pub min_width: i32,
}

/// Metrics that are sizes: none negative.
pub open spec fn metrics_nonnegative(m: CandidateMetrics) -> bool {
    m.item_height >= 0 && m.padding >= 0 && m.char_width >= 0 && m.label_width >= 0
        && m.min_width >= 0
}

/// The larger of two integers.
pub open spec fn max_int(a: int, b: int) -> int {
    if a >= b {
        a
    } else {
        b
    }
}

/// The length of the longest text, 0 for none.
pub open spec fn longest(texts: Seq<Seq<char>>) -> nat
    decreases texts.len(),
{
    if texts.len() == 0 {
        0
    } else {
        let rest = longest(texts.drop_last());
        if texts.last().len() > rest {
            texts.last().len()
        } else {
            rest
        }
    }
}

/// The width in characters the window is sized for: the longest candidate,
/// or 4 when there are none.
pub open spec fn max_chars(texts: Seq<Seq<char>>) -> nat {
    if texts.len() == 0 {
        4
    } else {
        longest(texts)
    }
}

/// The window height: one row per candidate (at least one row) and the
/// padding above and below.
pub open spec fn window_height(count: nat, m: CandidateMetrics) -> int {
    max_int(count as int, 1) * m.item_height + m.padding * 2
}

/// The window width: room for the longest candidate, the label and the
/// padding on both sides, but never below the minimum width.
pub open spec fn window_width(texts: Seq<Seq<char>>, m: CandidateMetrics) -> int {
    max_int(max_chars(texts) * m.char_width + m.label_width + m.padding * 2, m.min_width as int)
}

/// Whether the window width for `texts` can be computed without leaving
/// `i32`.
pub open spec fn width_fits(texts: Seq<Seq<char>>, m: CandidateMetrics) -> bool {
    &&& metrics_nonnegative(m)
    &&& max_chars(texts) <= i32::MAX
    &&& max_chars(texts) * m.char_width + m.label_width + m.padding * 2 <= i32::MAX
}

/// Whether a window for `texts` can be sized without leaving `i32`.
pub open spec fn size_fits(texts: Seq<Seq<char>>, m: CandidateMetrics) -> bool {
    &&& width_fits(texts, m)
    &&& texts.len() <= i32::MAX
    &&& window_height(texts.len(), m) <= i32::MAX
}

/// The texts of a list of strings.
pub open spec fn texts_view(v: Seq<String>) -> Seq<Seq<char>> {
    v.map_values(|s: String| s@)
}

/// The length of the longest candidate, counting characters.
fn longest_of(texts: &Vec<String>) -> (n: usize)
    ensures
        n == longest(texts_view(texts@)),
{
    let count = texts.len();
    let mut best: usize = 0;
    let mut i: usize = 0;
    while i < count
        invariant
            count == texts@.len(),
            i <= count,
            best == longest(texts_view(texts@.take(i as int))),
        decreases count - i,
    {
        let len = chars_of(texts[i].as_str()).len();
        assert(texts_view(texts@.take(i + 1)).drop_last() =~= texts_view(texts@.take(i as int)));
        if len > best {
            best = len;
        }
        i = i + 1;
    }
    assert(texts@.take(count as int) =~= texts@);
    best
}

/// The window height for `count` candidates.
pub fn height_for(count: usize, m: &CandidateMetrics) -> (h: i32)
    requires
        metrics_nonnegative(*m),
        count <= i32::MAX,
        window_height(count as nat, *m) <= i32::MAX,
    ensures
        h == window_height(count as nat, *m),
{
    let rows: i64 = if count > 1 {
        count as i64
    } else {
        1
    };
    assert(rows * (m.item_height as int) <= i32::MAX) by (nonlinear_arith)
        requires
            rows * (m.item_height as int) + m.padding * 2 <= i32::MAX,
            m.padding >= 0,
    ;
    assert(rows * (m.item_height as int) >= 0) by (nonlinear_arith)
        requires
            rows >= 1,
            m.item_height >= 0,
    ;
    let product = rows * (m.item_height as i64);
    (product + (m.padding as i64) * 2) as i32
}

/// The window width for the given candidates.
pub fn width_for(texts: &Vec<String>, m: &CandidateMetrics) -> (w: i32)
    requires
        width_fits(texts_view(texts@), *m),
    ensures
        w == window_width(texts_view(texts@), *m),
{
    let chars: usize = if texts.len() == 0 {
        4
    } else {
        longest_of(texts)
    };
    let c = chars as i64;
    assert(c * (m.char_width as int) <= i32::MAX) by (nonlinear_arith)
        requires
            c * (m.char_width as int) + m.label_width + m.padding * 2 <= i32::MAX,
            m.label_width >= 0,
            m.padding >= 0,
    ;
    assert(c * (m.char_width as int) >= 0) by (nonlinear_arith)
        requires
            c >= 0,
            m.char_width >= 0,
    ;
    let natural = c * (m.char_width as i64) + (m.label_width as i64) + (m.padding as i64) * 2;
    if natural >= m.min_width as i64 {
        natural as i32
    } else {
        m.min_width
    }
}

/// Whether the window width for `texts` stays within `i32`.
pub fn width_fits_of(texts: &Vec<String>, m: &CandidateMetrics) -> (b: bool)
    ensures
        b == width_fits(texts_view(texts@), *m),
{
    if m.item_height < 0 || m.padding < 0 || m.char_width < 0 || m.label_width < 0 || m.min_width < 0 {
        return false;
    }
    let chars: usize = if texts.len() == 0 {
        4
    } else {
        longest_of(texts)
    };
    if chars > 0x7fff_ffff {
        return false;
    }
    let c = chars as i64;
    assert(0 <= c * (m.char_width as int) <= 0x7fff_ffff * 0x7fff_ffff) by (nonlinear_arith)
        requires
            0 <= c <= 0x7fff_ffff,
            0 <= m.char_width <= 0x7fff_ffff,
    ;
    let natural = c * (m.char_width as i64) + (m.label_width as i64) + (m.padding as i64) * 2;
    natural <= 0x7fff_ffff
}

/// Whether a window for `texts` can be sized within `i32`.
pub fn size_fits_of(texts: &Vec<String>, m: &CandidateMetrics) -> (b: bool)
    ensures
        b == size_fits(texts_view(texts@), *m),
{
    if !width_fits_of(texts, m) {
        return false;
    }
    let count = texts.len();
    if count > 0x7fff_ffff {
        return false;
    }
    let rows: i64 = if count > 1 {
        count as i64
    } else {
        1
    };
    assert(0 <= rows * (m.item_height as int) <= 0x7fff_ffff * 0x7fff_ffff) by (nonlinear_arith)
        requires
            1 <= rows <= 0x7fff_ffff,
            0 <= m.item_height <= 0x7fff_ffff,
    ;
    let height = rows * (m.item_height as i64) + (m.padding as i64) * 2;
    height <= 0x7fff_ffff
}

/// Whether the rows for `count` candidates stay within `i32`.
pub fn rows_fit_of(count: usize, l: &RowLayout) -> (b: bool)
    ensures
        b == rows_fit(count as nat, *l),
{
    if l.item_height < 0 || l.padding < 0 || l.text_y_offset < 0 {
        return false;
    }
    if l.item_height == 0 {
        assert(count * (l.item_height as int) == 0) by (nonlinear_arith)
            requires
                l.item_height == 0,
        ;
        return (l.padding as i64) + (l.text_y_offset as i64) <= 0x7fff_ffff;
    }
    if count > 0x7fff_ffff {
        assert(count * (l.item_height as int) >= count) by (nonlinear_arith)
            requires
                l.item_height >= 1,
        ;
        return false;
    }
    let n = count as i64;
    assert(0 <= n * (l.item_height as int) <= 0x7fff_ffff * 0x7fff_ffff) by (nonlinear_arith)
        requires
            0 <= n <= 0x7fff_ffff,
            0 <= l.item_height <= 0x7fff_ffff,
    ;
    (l.padding as i64) + n * (l.item_height as i64) + (l.text_y_offset as i64) <= 0x7fff_ffff
}

/// Whether the rectangle the system suggests has a width and a height
/// within `i32`.
pub fn placement_fits(left: i32, top: i32, right: i32, bottom: i32) -> (b: bool)
    ensures
        b == (i32::MIN <= right - left <= i32::MAX && i32::MIN <= bottom - top <= i32::MAX),
{
    let w = (right as i64) - (left as i64);
    let h = (bottom as i64) - (top as i64);
    -0x8000_0000 <= w && w <= 0x7fff_ffff && -0x8000_0000 <= h && h <= 0x7fff_ffff
}

/// A command to the native window.
#[derive(Clone, Copy, Debug, PartialEq, Eq, Structural)]
pub enum WindowCommand {
    /// Resize (keeping the position), topmost, without activating.
    Resize { width: i32, height: i32 },
    /// Move (keeping the size), topmost, without activating.
    MoveTo { x: i32, y: i32 },
    /// Mark the whole window for repainting.
    Repaint,
    /// Show without activating.
    Show,
    /// Hide.
    Hide,
    /// Destroy the window.
    Destroy,
}

/// The candidate window: the native window's handle (0 when there is no
/// window) and the candidates it paints.
#[derive(Debug)]
pub struct CandidateWindow {
    pub hwnd: usize,
    pub candidates: Vec<String>,
    pub selected: usize,
}

/// Copies of a list of strings.
fn copy_texts(texts: &Vec<String>) -> (c: Vec<String>)
    ensures
        texts_view(c@) == texts_view(texts@),
{
    let n = texts.len();
    let mut c: Vec<String> = Vec::new();
    let mut i: usize = 0;
    while i < n
        invariant
            n == texts@.len(),
            i <= n,
            c@.len() == i,
            texts_view(c@) == texts_view(texts@.take(i as int)),
        decreases n - i,
    {
        let t = texts[i].clone();
        assert(t@ == texts@[i as int]@);
        let ghost before = c@;
        c.push(t);
        assert forall|j: int| 0 <= j < i implies #[trigger] texts_view(c@)[j] == texts_view(texts@.take(i + 1))[j] by {
            assert(texts_view(before)[j] == texts_view(texts@.take(i as int))[j]);
            assert(c@[j] == before[j]);
        }
        assert(texts_view(c@) =~= texts_view(texts@.take(i + 1)));
        i = i + 1;
    }
    assert(texts@.take(n as int) =~= texts@);
    c
}

impl CandidateWindow {
    /// A candidate window over the native window `hwnd` (0 when creating it
    /// failed), with no candidates.
    pub fn new(hwnd: usize) -> (w: CandidateWindow)
        ensures
            w.hwnd == hwnd,
            w.candidates@.len() == 0,
            w.selected == 0,
    {
        CandidateWindow { hwnd, candidates: Vec::new(), selected: 0 }
    }

    /// Shows `candidates` with `selected` highlighted: the window is resized
    /// to fit them, repainted and shown. Without a window nothing happens.
    pub fn show(&mut self, candidates: &Vec<String>, selected: usize, m: &CandidateMetrics) -> (cmds: Vec<
        WindowCommand,
    >)
        requires
            size_fits(texts_view(candidates@), *m),
        ensures
            old(self).hwnd == 0 ==> cmds@.len() == 0 && texts_view(final(self).candidates@)
                == texts_view(old(self).candidates@) && final(self).selected == old(self).selected,
            old(self).hwnd != 0 ==> {
                &&& texts_view(final(self).candidates@) == texts_view(candidates@)
                &&& final(self).selected == selected
                &&& cmds@ == seq![
                    WindowCommand::Resize {
                        width: window_width(texts_view(candidates@), *m) as i32,
                        height: window_height(candidates@.len(), *m) as i32,
                    },
                    WindowCommand::Repaint,
                    WindowCommand::Show,
                ]
            },
            final(self).hwnd == old(self).hwnd,
    {
        if self.hwnd == 0 {
            return Vec::new();
        }
        self.candidates = copy_texts(candidates);
        self.selected = selected;
        let height = height_for(candidates.len(), m);
        let width = width_for(candidates, m);
        let cmds = vec![WindowCommand::Resize { width, height }, WindowCommand::Repaint, WindowCommand::Show];
        cmds
    }

    /// Hides the window.
    pub fn hide_window(&mut self) -> (cmds: Vec<WindowCommand>)
        ensures
            cmds@ == (if old(self).hwnd == 0 {
                Seq::<WindowCommand>::empty()
            } else {
                seq![WindowCommand::Hide]
            }),
            final(self).hwnd == old(self).hwnd,
            final(self).selected == old(self).selected,
            texts_view(final(self).candidates@) == texts_view(old(self).candidates@),
    {
        if self.hwnd == 0 {
            Vec::new()
        } else {
            vec![WindowCommand::Hide]
        }
    }

    /// Highlights the candidate at `index` and repaints.
    pub fn set_selected(&mut self, index: usize) -> (cmds: Vec<WindowCommand>)
        ensures
            old(self).hwnd == 0 ==> cmds@.len() == 0 && final(self).selected == old(self).selected,
            old(self).hwnd != 0 ==> cmds@ == seq![WindowCommand::Repaint] && final(self).selected == index,
            final(self).hwnd == old(self).hwnd,
            texts_view(final(self).candidates@) == texts_view(old(self).candidates@),
    {
        if self.hwnd == 0 {
            Vec::new()
        } else {
            self.selected = index;
            vec![WindowCommand::Repaint]
        }
    }

    /// Moves the window to screen position (`x`, `y`).
    pub fn move_to(&mut self, x: i32, y: i32) -> (cmds: Vec<WindowCommand>)
        ensures
            cmds@ == (if old(self).hwnd == 0 {
                Seq::<WindowCommand>::empty()
            } else {
                seq![WindowCommand::MoveTo { x, y }]
            }),
            final(self).hwnd == old(self).hwnd,
            final(self).selected == old(self).selected,
            texts_view(final(self).candidates@) == texts_view(old(self).candidates@),
    {
        if self.hwnd == 0 {
            Vec::new()
        } else {
            vec![WindowCommand::MoveTo { x, y }]
        }
    }

    /// Destroys the window and drops the candidates; afterwards every
    /// operation does nothing.
    pub fn destroy(&mut self) -> (cmds: Vec<WindowCommand>)
        ensures
            cmds@ == (if old(self).hwnd == 0 {
                Seq::<WindowCommand>::empty()
            } else {
                seq![WindowCommand::Destroy]
            }),
            final(self).hwnd == 0,
            old(self).hwnd != 0 ==> final(self).candidates@.len() == 0,
            old(self).hwnd == 0 ==> texts_view(final(self).candidates@) == texts_view(
                old(self).candidates@,
            ),
            final(self).selected == old(self).selected,
    {
        if self.hwnd == 0 {
            Vec::new()
        } else {
            self.hwnd = 0;
            self.candidates = Vec::new();
            vec![WindowCommand::Destroy]
        }
    }
}

// ---------------------------------------------------------------------------
// Painting.
// ---------------------------------------------------------------------------

/// The decimal digit `d`.
pub open spec fn digit_char(d: nat) -> char {
    if d == 0 {
        '0'
    } else if d == 1 {
        '1'
    } else if d == 2 {
        '2'
    } else if d == 3 {
        '3'
    } else if d == 4 {
        '4'
    } else if d == 5 {
        '5'
    } else if d == 6 {
        '6'
    } else if d == 7 {
        '7'
    } else if d == 8 {
        '8'
    } else {
        '9'
    }
}

/// The decimal numeral for `n`.
pub open spec fn decimal(n: nat) -> Seq<char>
    decreases n,
{
    if n < 10 {
        seq![digit_char(n)]
    } else {
        decimal(n / 10).push(digit_char(n % 10))
    }
}

/// The label painted for the candidate at position `i`: its number from 1,
/// a period, a space and the candidate.
pub open spec fn label_text(i: nat, candidate: Seq<char>) -> Seq<char> {
    decimal(i + 1) + seq!['.', ' '] + candidate
}

/// Text colour of the highlighted row (white, as a Win32 `COLORREF`).
pub const HIGHLIGHT_TEXT_COLOR: u32 = 0x00FFFFFF;
/// Text colour of the other rows (black).
pub const TEXT_COLOR: u32 = 0x00000000;
/// Fill colour of the highlighted row.
pub const HIGHLIGHT_COLOR: u32 = 0x00D77800;

/// A rectangle in window pixels: left and top inside, right and bottom just
/// outside.
#[derive(Clone, Copy, Debug, PartialEq, Eq, Structural)]
pub struct PixelRect {
    pub left: i32,
    pub top: i32,
    pub right: i32,
    pub bottom: i32,
}

/// How rows are laid out, in pixels scaled for the window's DPI: the row
/// height, the padding above the first row and left of the text, the offset
/// of a row's text below its top, and the right edge of the area being
/// painted.
#[derive(Clone, Copy, Debug)]
pub struct RowLayout {
    pub item_height: i32,
    pub padding: i32,
    pub text_y_offset: i32,
    pub paint_right: i32,
}

/// One painted row.
#[derive(Debug)]
pub struct PaintItem {
    /// Top of the row, in window pixels.
    pub y: i32,
    /// Whether the row is highlighted as the selection.
    pub highlighted: bool,
    /// Where the row's text is drawn.
    pub text_x: i32,
    pub text_y: i32,
    /// The colour the text is drawn in.
    pub text_color: u32,
    /// The rectangle filled with the highlight colour, for the selected row.
    pub highlight: Option<PixelRect>,
    /// The row's text as UTF-16.
    pub label: Vec<u16>,
}

/// Whether the rows for `count` candidates, their text and their highlight
/// stay within `i32`.
pub open spec fn rows_fit(count: nat, l: RowLayout) -> bool {
    &&& 0 <= l.item_height
    &&& 0 <= l.padding
    &&& 0 <= l.text_y_offset
    &&& l.padding + count * l.item_height + l.text_y_offset <= i32::MAX
}

/// The painted row for the candidate at position `i`: its top is below the
/// padding and the rows above it; its text starts at the padding and the
/// text offset below the top; the selected row is filled across the painted
/// width for one row height and has white text, the others black text.
pub open spec fn row_ok(item: PaintItem, i: nat, candidate: Seq<char>, selected: nat, l: RowLayout) -> bool {
    &&& item.y == l.padding + i * l.item_height
    &&& item.highlighted == (i == selected)
    &&& item.text_x == l.padding
    &&& item.text_y == item.y + l.text_y_offset
    &&& item.text_color == (if i == selected {
        HIGHLIGHT_TEXT_COLOR
    } else {
        TEXT_COLOR
    })
    &&& item.highlight == (if i == selected {
        Some(PixelRect { left: 0, top: item.y, right: l.paint_right, bottom: (item.y + l.item_height) as i32 })
    } else {
        None
    })
    &&& item.label@ == utf16_of(label_text(i, candidate))
}

fn digit_of(d: usize) -> (c: char)
    requires
        d < 10,
    ensures
        c == digit_char(d as nat),
{
    if d == 0 {
        '0'
    } else if d == 1 {
        '1'
    } else if d == 2 {
        '2'
    } else if d == 3 {
        '3'
    } else if d == 4 {
        '4'
    } else if d == 5 {
        '5'
    } else if d == 6 {
        '6'
    } else if d == 7 {
        '7'
    } else if d == 8 {
        '8'
    } else {
        '9'
    }
}

/// The decimal numeral for `n`.
pub fn decimal_of(n: usize) -> (s: Vec<char>)
    ensures
        s@ == decimal(n as nat),
    decreases n,
{
    if n < 10 {
        vec![digit_of(n)]
    } else {
        let mut s = decimal_of(n / 10);
        s.push(digit_of(n % 10));
        s
    }
}

/// The rows painted for `candidates` with `selected` highlighted, one per
/// candidate from the top padding down, `item_height` apart.
pub fn paint_items(candidates: &Vec<String>, selected: usize, l: &RowLayout) -> (items: Vec<PaintItem>)
    requires
        rows_fit(candidates@.len(), *l),
    ensures
        items@.len() == candidates@.len(),
        forall|i: int|
            0 <= i < items@.len() ==> row_ok(
                #[trigger] items@[i],
                i as nat,
                candidates@[i]@,
                selected as nat,
                *l,
            ),
{
    let n = candidates.len();
    let item_height = l.item_height;
    let padding = l.padding;
    let mut items: Vec<PaintItem> = Vec::new();
    let mut i: usize = 0;
    while i < n
        invariant
            n == candidates@.len(),
            i <= n,
            item_height == l.item_height,
            padding == l.padding,
            rows_fit(n as nat, *l),
            items@.len() == i,
            forall|j: int|
                0 <= j < i ==> row_ok(
                    #[trigger] items@[j],
                    j as nat,
                    candidates@[j]@,
                    selected as nat,
                    *l,
                ),
        decreases n - i,
    {
        assert((i as int + 1) * (item_height as int) <= (n as int) * (item_height as int)) by (nonlinear_arith)
            requires
                i < n,
                item_height >= 0,
        ;
        assert((i as int) * (item_height as int) >= 0) by (nonlinear_arith)
            requires
                item_height >= 0,
        ;
        assert((i as int + 1) * (item_height as int) == (i as int) * (item_height as int) + item_height) by (nonlinear_arith);
        let y: i64 = if item_height == 0 {
            assert((i as int) * (item_height as int) == 0) by (nonlinear_arith)
                requires
                    item_height == 0,
            ;
            padding as i64
        } else {
            assert((n as int) <= (n as int) * (item_height as int)) by (nonlinear_arith)
                requires
                    item_height >= 1,
            ;
            padding as i64 + (i as i64) * (item_height as i64)
        };
        let text_y = y + (l.text_y_offset as i64);
        let bottom = y + (item_height as i64);
        let mut text = decimal_of(i + 1);
        text.push('.');
        text.push(' ');
        let cand = chars_of(candidates[i].as_str());
        let mut label_chars = text;
        let mut k: usize = 0;
        let ghost prefix = label_chars@;
        while k < cand.len()
            invariant
                k <= cand@.len(),
                label_chars@ == prefix + cand@.take(k as int),
            decreases cand@.len() - k,
        {
            label_chars.push(cand[k]);
            assert(prefix + cand@.take(k as int) + seq![cand@[k as int]] =~= prefix + cand@.take(k + 1));
            k = k + 1;
        }
        assert(cand@.take(cand@.len() as int) =~= cand@);
        assert(label_chars@ =~= label_text(i as nat, candidates@[i as int]@));
        let mut label_string = String::new();
        push_chars(&mut label_string, &label_chars);
        let label = encode_utf16(label_string.as_str());
        assert(label_string@ =~= label_chars@);
        let highlighted = i == selected;
        let item = PaintItem {
            y: y as i32,
            highlighted,
            text_x: padding,
            text_y: text_y as i32,
            text_color: if highlighted {
                HIGHLIGHT_TEXT_COLOR
            } else {
                TEXT_COLOR
            },
            highlight: if highlighted {
                Some(PixelRect { left: 0, top: y as i32, right: l.paint_right, bottom: bottom as i32 })
            } else {
                None
            },
            label,
        };
        assert(item.y == padding + i * item_height);
        assert(row_ok(item, i as nat, candidates@[i as int]@, selected as nat, *l));
        items.push(item);
        assert(items@[i as int] == item);
        i = i + 1;
    }
    items
}

/// How the window procedure answers a message.
#[derive(Clone, Copy, Debug, PartialEq, Eq, Structural)]
pub enum MessageKind {
    /// Paint the candidates.
    Paint,
    /// Take the suggested bounds for the new DPI and repaint.
    DpiChanged,
    /// Leave it to the default window procedure.
    Default,
}

/// How the window procedure answers message `msg`.
pub fn classify_message(msg: u32) -> (k: MessageKind)
    ensures
        k == (if msg == WM_PAINT {
            MessageKind::Paint
        } else if msg == WM_DPICHANGED {
            MessageKind::DpiChanged
        } else {
            MessageKind::Default
        }),
{
    if msg == WM_PAINT {
        MessageKind::Paint
    } else if msg == WM_DPICHANGED {
        MessageKind::DpiChanged
    } else {
        MessageKind::Default
    }
}

/// The placement (x, y, width, height) for the rectangle the system
/// suggests when the DPI changes.
pub fn dpi_changed_placement(left: i32, top: i32, right: i32, bottom: i32) -> (p: (i32, i32, i32, i32))
    requires
        i32::MIN <= right - left <= i32::MAX,
        i32::MIN <= bottom - top <= i32::MAX,
    ensures
        p == (left, top, (right - left) as i32, (bottom - top) as i32),
{
    (left, top, right - left, bottom - top)
}

/// The label of the first row is "1. " followed by the candidate.
pub proof fn lemma_first_label(candidate: Seq<char>)
    ensures
        label_text(0, candidate) == seq!['1', '.', ' '] + candidate,
{
    assert(decimal(1) =~= seq!['1']);
    assert(seq!['1'] + seq!['.', ' '] =~= seq!['1', '.', ' ']);
}

/// The window is at least one row (plus padding) high and never narrower
/// than the minimum width.
pub proof fn lemma_window_size_bounds(texts: Seq<Seq<char>>, m: CandidateMetrics)
    requires
        metrics_nonnegative(m),
    ensures
        window_height(texts.len(), m) >= m.item_height + m.padding * 2,
        window_width(texts, m) >= m.min_width,
{
    let rows = max_int(texts.len() as int, 1);
    assert(rows * m.item_height >= m.item_height) by (nonlinear_arith)
        requires
            rows >= 1,
            m.item_height >= 0,
    ;
}

/// A longer longest candidate never makes the window narrower.
pub proof fn lemma_width_monotone(a: Seq<Seq<char>>, b: Seq<Seq<char>>, m: CandidateMetrics)
    requires
        metrics_nonnegative(m),
        max_chars(a) <= max_chars(b),
    ensures
        window_width(a, m) <= window_width(b, m),
{
    assert(max_chars(a) * m.char_width <= max_chars(b) * m.char_width) by (nonlinear_arith)
        requires
            max_chars(a) <= max_chars(b),
            m.char_width >= 0,
    ;
}

/// More candidates never make the window shorter.
pub proof fn lemma_height_monotone(a: nat, b: nat, m: CandidateMetrics)
    requires
        metrics_nonnegative(m),
        a <= b,
    ensures
        window_height(a, m) <= window_height(b, m),
{
    let ra = max_int(a as int, 1);
    let rb = max_int(b as int, 1);
    assert(ra * m.item_height <= rb * m.item_height) by (nonlinear_arith)
        requires
            ra <= rb,
            m.item_height >= 0,
    ;
}

/// Exactly the selected row is highlighted: when the selection is one of
/// the candidates there is exactly one highlighted row, otherwise none.
pub proof fn lemma_one_highlight(items: Seq<PaintItem>, candidates: Seq<Seq<char>>, selected: nat, l: RowLayout)
    requires
        items.len() == candidates.len(),
        forall|i: int| 0 <= i < items.len() ==> row_ok(#[trigger] items[i], i as nat, candidates[i], selected, l),
    ensures
        forall|i: int| 0 <= i < items.len() ==> (#[trigger] items[i].highlighted <==> i == selected),
        forall|i: int| 0 <= i < items.len() ==> (#[trigger] items[i].highlight is Some <==> i == selected),
        selected >= items.len() ==> forall|i: int| 0 <= i < items.len() ==> !(#[trigger] items[i].highlighted)
            && items[i].highlight is None && items[i].text_color == TEXT_COLOR,
{
}

/// Consecutive rows are one row height apart.
pub proof fn lemma_rows_spaced(items: Seq<PaintItem>, candidates: Seq<Seq<char>>, selected: nat, l: RowLayout)
    requires
        items.len() == candidates.len(),
        forall|i: int| 0 <= i < items.len() ==> row_ok(#[trigger] items[i], i as nat, candidates[i], selected, l),
    ensures
        forall|i: int| 0 <= i < items.len() - 1 ==> #[trigger] items[i + 1].y == items[i].y + l.item_height
            && items[i + 1].text_y == items[i].text_y + l.item_height,
{
    assert forall|i: int| 0 <= i < items.len() - 1 implies #[trigger] items[i + 1].y == items[i].y + l.item_height
        && items[i + 1].text_y == items[i].text_y + l.item_height by {
        assert(row_ok(items[i], i as nat, candidates[i], selected, l));
        assert(row_ok(items[i + 1], (i + 1) as nat, candidates[i + 1], selected, l));
        assert((i + 1) * l.item_height == i * l.item_height + l.item_height) by (nonlinear_arith);
    }
}

/// The longest length is the length of one of the texts and no text is
/// longer.
pub proof fn lemma_longest_is_maximum(texts: Seq<Seq<char>>)
    ensures
        forall|i: int| 0 <= i < texts.len() ==> #[trigger] texts[i].len() <= longest(texts),
        texts.len() > 0 ==> exists|i: int| 0 <= i < texts.len() && #[trigger] texts[i].len() == longest(texts),
    decreases texts.len(),
{
    if texts.len() > 0 {
        let rest = texts.drop_last();
        lemma_longest_is_maximum(rest);
        assert forall|i: int| 0 <= i < texts.len() implies #[trigger] texts[i].len() <= longest(texts) by {
            if i < texts.len() - 1 {
                assert(rest[i] == texts[i]);
            }
        }
        if texts.last().len() > longest(rest) || rest.len() == 0 {
            assert(texts[texts.len() - 1].len() == longest(texts));
        } else {
            let j = choose|j: int| 0 <= j < rest.len() && #[trigger] rest[j].len() == longest(rest);
            assert(texts[j] == rest[j]);
        }
    }
}

/// The window fits every candidate: it is at least as wide as any one
/// candidate's characters, the label and the padding on both sides.
pub proof fn lemma_window_fits_every_candidate(texts: Seq<Seq<char>>, m: CandidateMetrics, i: int)
    requires
        metrics_nonnegative(m),
        0 <= i < texts.len(),
    ensures
        window_width(texts, m) >= texts[i].len() * m.char_width + m.label_width + m.padding * 2,
{
    lemma_longest_is_maximum(texts);
    assert(texts[i].len() <= longest(texts));
    assert(texts[i].len() * m.char_width <= longest(texts) * m.char_width) by (nonlinear_arith)
        requires
            texts[i].len() <= longest(texts),
            m.char_width >= 0,
    ;
}

/// The value of a string of decimal digits, most significant first.
pub open spec fn decimal_value(s: Seq<char>) -> int
    decreases s.len(),
{
    if s.len() == 0 {
        0
    } else {
        decimal_value(s.drop_last()) * 10 + (s.last() as u32 - 0x30)
    }
}

/// Each digit is the ASCII character for its value.
pub proof fn lemma_digit_char_value(d: nat)
    requires
        d < 10,
    ensures
        digit_char(d) as u32 == 0x30 + d,
{
    assert('0' as u32 == 0x30 && '1' as u32 == 0x31 && '2' as u32 == 0x32 && '3' as u32 == 0x33);
    assert('4' as u32 == 0x34 && '5' as u32 == 0x35 && '6' as u32 == 0x36 && '7' as u32 == 0x37);
    assert('8' as u32 == 0x38 && '9' as u32 == 0x39);
}

/// The numeral for `n` is made of ASCII digits and reads back as `n`, so
/// distinct numbers get distinct numerals (and distinct row labels).
pub proof fn lemma_decimal_reads_back(n: nat)
    ensures
        decimal_value(decimal(n)) == n,
        forall|i: int| 0 <= i < decimal(n).len() ==> 0x30 <= #[trigger] decimal(n)[i] as u32 <= 0x39,
    decreases n,
{
    if n < 10 {
        lemma_digit_char_value(n);
        let s = decimal(n);
        assert(s.drop_last() =~= Seq::<char>::empty());
        assert(decimal_value(s.drop_last()) == 0);
        assert(s.last() == digit_char(n));
        assert(decimal_value(s) == decimal_value(s.drop_last()) * 10 + (s.last() as u32 - 0x30));
    } else {
        lemma_decimal_reads_back(n / 10);
        lemma_digit_char_value(n % 10);
        let s = decimal(n);
        assert(s.drop_last() =~= decimal(n / 10));
        assert(n == (n / 10) * 10 + n % 10) by (nonlinear_arith);
        assert(s.last() == digit_char(n % 10));
        assert(decimal_value(s) == decimal_value(s.drop_last()) * 10 + (s.last() as u32 - 0x30));
        assert(decimal_value(s) == (n / 10) * 10 + n % 10);
        assert forall|i: int| 0 <= i < s.len() implies 0x30 <= #[trigger] s[i] as u32 <= 0x39 by {
            if i < s.len() - 1 {
                assert(s[i] == decimal(n / 10)[i]);
            }
        }
    }
}

/// Distinct numbers have distinct numerals.
pub proof fn lemma_decimal_injective(a: nat, b: nat)
    requires
        a != b,
    ensures
        decimal(a) != decimal(b),
{
    lemma_decimal_reads_back(a);
    lemma_decimal_reads_back(b);
}

} // verus!
