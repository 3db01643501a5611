//! Kana conversions of a hiragana reading: to full-width katakana and to
//! half-width katakana.

use vstd::prelude::*;
use crate::text::char_from_u32;

verus! {

/// Whether `c` lies in the hiragana block that has a katakana counterpart
/// (U+3041 ぁ to U+3096 ゖ).
pub open spec fn is_convertible_hiragana(c: char) -> bool {
    0x3041 <= (c as u32) && (c as u32) <= 0x3096
}

/// The full-width katakana for one character: hiragana move up by 0x60
/// (あ U+3042 becomes ア U+30A2); every other character stays as it is.
pub open spec fn katakana_char(c: char) -> char {
    if is_convertible_hiragana(c) {
        (((c as u32) + 0x60) as u32) as char
    } else {
        c
    }
}

/// The full-width katakana form of a reading, character by character.
pub open spec fn to_katakana(s: Seq<char>) -> Seq<char> {
    s.map_values(|c: char| katakana_char(c))
}

/// The half-width katakana for one character: one half-width letter, followed
/// by a half-width (han)dakuten mark for voiced and semi-voiced kana. Characters
/// without a half-width form stay as they are.
pub open spec fn halfwidth_char(c: char) -> Seq<char> {
    match c {
        '、' => seq!['､'],
        '。' => seq!['｡'],
        '「' => seq!['｢'],
        '」' => seq!['｣'],
        'ぁ' => seq!['ｧ'],
        'あ' => seq!['ｱ'],
        'ぃ' => seq!['ｨ'],
        'い' => seq!['ｲ'],
        'ぅ' => seq!['ｩ'],
        'う' => seq!['ｳ'],
        'ぇ' => seq!['ｪ'],
        'え' => seq!['ｴ'],
        'ぉ' => seq!['ｫ'],
        'お' => seq!['ｵ'],
        'か' => seq!['ｶ'],
        'が' => seq!['ｶ', 'ﾞ'],
        'き' => seq!['ｷ'],
        'ぎ' => seq!['ｷ', 'ﾞ'],
        'く' => seq!['ｸ'],
        'ぐ' => seq!['ｸ', 'ﾞ'],
        'け' => seq!['ｹ'],
        'げ' => seq!['ｹ', 'ﾞ'],
        'こ' => seq!['ｺ'],
        'ご' => seq!['ｺ', 'ﾞ'],
        'さ' => seq!['ｻ'],
        'ざ' => seq!['ｻ', 'ﾞ'],
        'し' => seq!['ｼ'],
        'じ' => seq!['ｼ', 'ﾞ'],
        'す' => seq!['ｽ'],
        'ず' => seq!['ｽ', 'ﾞ'],
        'せ' => seq!['ｾ'],
        'ぜ' => seq!['ｾ', 'ﾞ'],
        'そ' => seq!['ｿ'],
        'ぞ' => seq!['ｿ', 'ﾞ'],
        'た' => seq!['ﾀ'],
        'だ' => seq!['ﾀ', 'ﾞ'],
        'ち' => seq!['ﾁ'],
        'ぢ' => seq!['ﾁ', 'ﾞ'],
        'っ' => seq!['ｯ'],
        'つ' => seq!['ﾂ'],
        'づ' => seq!['ﾂ', 'ﾞ'],
        'て' => seq!['ﾃ'],
        'で' => seq!['ﾃ', 'ﾞ'],
        'と' => seq!['ﾄ'],
        'ど' => seq!['ﾄ', 'ﾞ'],
        'な' => seq!['ﾅ'],
        'に' => seq!['ﾆ'],
        'ぬ' => seq!['ﾇ'],
        'ね' => seq!['ﾈ'],
        'の' => seq!['ﾉ'],
        'は' => seq!['ﾊ'],
        'ば' => seq!['ﾊ', 'ﾞ'],
        'ぱ' => seq!['ﾊ', 'ﾟ'],
        'ひ' => seq!['ﾋ'],
        'び' => seq!['ﾋ', 'ﾞ'],
        'ぴ' => seq!['ﾋ', 'ﾟ'],
        'ふ' => seq!['ﾌ'],
        'ぶ' => seq!['ﾌ', 'ﾞ'],
        'ぷ' => seq!['ﾌ', 'ﾟ'],
        'へ' => seq!['ﾍ'],
        'べ' => seq!['ﾍ', 'ﾞ'],
        'ぺ' => seq!['ﾍ', 'ﾟ'],
        'ほ' => seq!['ﾎ'],
        'ぼ' => seq!['ﾎ', 'ﾞ'],
        'ぽ' => seq!['ﾎ', 'ﾟ'],
        'ま' => seq!['ﾏ'],
        'み' => seq!['ﾐ'],
        'む' => seq!['ﾑ'],
        'め' => seq!['ﾒ'],
        'も' => seq!['ﾓ'],
        'ゃ' => seq!['ｬ'],
        'や' => seq!['ﾔ'],
        'ゅ' => seq!['ｭ'],
        'ゆ' => seq!['ﾕ'],
        'ょ' => seq!['ｮ'],
        'よ' => seq!['ﾖ'],
        'ら' => seq!['ﾗ'],
        'り' => seq!['ﾘ'],
        'る' => seq!['ﾙ'],
        'れ' => seq!['ﾚ'],
        'ろ' => seq!['ﾛ'],
        'ゎ' => seq!['ﾜ'],
        'わ' => seq!['ﾜ'],
        'ゐ' => seq!['ｲ'],
        'ゑ' => seq!['ｴ'],
        'を' => seq!['ｦ'],
        'ん' => seq!['ﾝ'],
        'ゔ' => seq!['ｳ', 'ﾞ'],
        'ゕ' => seq!['ｶ'],
        'ゖ' => seq!['ｹ'],
        '・' => seq!['･'],
        'ー' => seq!['ｰ'],
        _ => seq![c],
    }
}

/// The half-width katakana form of a reading.
pub open spec fn to_halfwidth(s: Seq<char>) -> Seq<char>
    decreases s.len(),
{
    if s.len() == 0 {
        Seq::empty()
    } else {
        to_halfwidth(s.drop_last()) + halfwidth_char(s.last())
    }
}

/// Full-width katakana for one character.
pub fn katakana_of_char(c: char) -> (k: char)
    ensures
        k == katakana_char(c),
{
    let x = c as u32;
    if 0x3041 <= x && x <= 0x3096 {
        let y = x + 0x60;
        assert(y == ((c as u32) + 0x60) as u32);
        let r = char_from_u32(y);
        assert(crate::text::is_scalar_value(y as int));
        assert(r is Some);
        let k = r.unwrap();
        proof {
            crate::text::lemma_char_from_code(k, y);
        }
        k
    } else {
        c
    }
}

/// Half-width katakana for one character: the letter and an optional
/// (han)dakuten mark.
pub fn halfwidth_of_char(c: char) -> (r: (char, Option<char>))
    ensures
        halfwidth_char(c) == (match r.1 {
            Some(m) => seq![r.0, m],
            None => seq![r.0],
        }),
{
    match c {
        '、' => ('､', None),
        '。' => ('｡', None),
        '「' => ('｢', None),
        '」' => ('｣', None),
        'ぁ' => ('ｧ', None),
        'あ' => ('ｱ', None),
        'ぃ' => ('ｨ', None),
        'い' => ('ｲ', None),
        'ぅ' => ('ｩ', None),
        'う' => ('ｳ', None),
        'ぇ' => ('ｪ', None),
        'え' => ('ｴ', None),
        'ぉ' => ('ｫ', None),
        'お' => ('ｵ', None),
        'か' => ('ｶ', None),
        'が' => ('ｶ', Some('ﾞ')),
        'き' => ('ｷ', None),
        'ぎ' => ('ｷ', Some('ﾞ')),
        'く' => ('ｸ', None),
        'ぐ' => ('ｸ', Some('ﾞ')),
        'け' => ('ｹ', None),
        'げ' => ('ｹ', Some('ﾞ')),
        'こ' => ('ｺ', None),
        'ご' => ('ｺ', Some('ﾞ')),
        'さ' => ('ｻ', None),
        'ざ' => ('ｻ', Some('ﾞ')),
        'し' => ('ｼ', None),
        'じ' => ('ｼ', Some('ﾞ')),
        'す' => ('ｽ', None),
        'ず' => ('ｽ', Some('ﾞ')),
        'せ' => ('ｾ', None),
        'ぜ' => ('ｾ', Some('ﾞ')),
        'そ' => ('ｿ', None),
        'ぞ' => ('ｿ', Some('ﾞ')),
        'た' => ('ﾀ', None),
        'だ' => ('ﾀ', Some('ﾞ')),
        'ち' => ('ﾁ', None),
        'ぢ' => ('ﾁ', Some('ﾞ')),
        'っ' => ('ｯ', None),
        'つ' => ('ﾂ', None),
        'づ' => ('ﾂ', Some('ﾞ')),
        'て' => ('ﾃ', None),
        'で' => ('ﾃ', Some('ﾞ')),
        'と' => ('ﾄ', None),
        'ど' => ('ﾄ', Some('ﾞ')),
        'な' => ('ﾅ', None),
        'に' => ('ﾆ', None),
        'ぬ' => ('ﾇ', None),
        'ね' => ('ﾈ', None),
        'の' => ('ﾉ', None),
        'は' => ('ﾊ', None),
        'ば' => ('ﾊ', Some('ﾞ')),
        'ぱ' => ('ﾊ', Some('ﾟ')),
        'ひ' => ('ﾋ', None),
        'び' => ('ﾋ', Some('ﾞ')),
        'ぴ' => ('ﾋ', Some('ﾟ')),
        'ふ' => ('ﾌ', None),
        'ぶ' => ('ﾌ', Some('ﾞ')),
        'ぷ' => ('ﾌ', Some('ﾟ')),
        'へ' => ('ﾍ', None),
        'べ' => ('ﾍ', Some('ﾞ')),
        'ぺ' => ('ﾍ', Some('ﾟ')),
        'ほ' => ('ﾎ', None),
        'ぼ' => ('ﾎ', Some('ﾞ')),
        'ぽ' => ('ﾎ', Some('ﾟ')),
        'ま' => ('ﾏ', None),
        'み' => ('ﾐ', None),
        'む' => ('ﾑ', None),
        'め' => ('ﾒ', None),
        'も' => ('ﾓ', None),
        'ゃ' => ('ｬ', None),
        'や' => ('ﾔ', None),
        'ゅ' => ('ｭ', None),
        'ゆ' => ('ﾕ', None),
        'ょ' => ('ｮ', None),
        'よ' => ('ﾖ', None),
        'ら' => ('ﾗ', None),
        'り' => ('ﾘ', None),
        'る' => ('ﾙ', None),
        'れ' => ('ﾚ', None),
        'ろ' => ('ﾛ', None),
        'ゎ' => ('ﾜ', None),
        'わ' => ('ﾜ', None),
        'ゐ' => ('ｲ', None),
        'ゑ' => ('ｴ', None),
        'を' => ('ｦ', None),
        'ん' => ('ﾝ', None),
        'ゔ' => ('ｳ', Some('ﾞ')),
        'ゕ' => ('ｶ', None),
        'ゖ' => ('ｹ', None),
        '・' => ('･', None),
        'ー' => ('ｰ', None),
        _ => (c, None),
    }
}

/// Converts a reading to full-width katakana.
pub fn katakana_of(s: &Vec<char>) -> (k: Vec<char>)
    ensures
        k@ == to_katakana(s@),
{
    let n = s.len();
    let mut k: Vec<char> = Vec::new();
    let mut i: usize = 0;
    while i < n
        invariant
            n == s@.len(),
            i <= n,
            k@ == to_katakana(s@.take(i as int)),
        decreases n - i,
    {
        k.push(katakana_of_char(s[i]));
        assert(to_katakana(s@.take(i + 1)) =~= to_katakana(s@.take(i as int)).push(katakana_char(s@[i as int])));
        i = i + 1;
    }
    assert(s@.take(n as int) =~= s@);
    k
}

/// Converts a reading to half-width katakana.
pub fn halfwidth_of(s: &Vec<char>) -> (h: Vec<char>)
    ensures
        h@ == to_halfwidth(s@),
{
    let n = s.len();
    let mut h: Vec<char> = Vec::new();
    let mut i: usize = 0;
    while i < n
        invariant
            n == s@.len(),
            i <= n,
            h@ == to_halfwidth(s@.take(i as int)),
        decreases n - i,
    {
        let (base, mark) = halfwidth_of_char(s[i]);
        h.push(base);
        match mark {
            Some(m) => h.push(m),
            None => {},
        }
        assert(s@.take(i + 1).drop_last() =~= s@.take(i as int));
        i = i + 1;
    }
    assert(s@.take(n as int) =~= s@);
    h
}

/// Every hiragana letter, small ones included (U+3041 ぁ to U+3096 ゖ), is
/// written as the katakana 0x60 above it (ぁ U+3041 as ァ U+30A1).
pub proof fn lemma_katakana_shifts_hiragana(c: char)
    requires
        0x3041 <= c as u32 <= 0x3096,
    ensures
        katakana_char(c) as u32 == c as u32 + 0x60,
{
}

/// Katakana output holds no hiragana: every character of `to_katakana(s)`
/// lies outside U+3041..U+3096, and characters outside the hiragana block
/// are kept as they are.
pub proof fn lemma_katakana_has_no_hiragana(s: Seq<char>)
    ensures
        to_katakana(s).len() == s.len(),
        forall|i: int| 0 <= i < s.len() ==> !(0x3041 <= #[trigger] to_katakana(s)[i] as u32 <= 0x3096),
        forall|i: int|
            0 <= i < s.len() && !(0x3041 <= s[i] as u32 <= 0x3096) ==> #[trigger] to_katakana(s)[i] == s[i],
{
    assert forall|i: int| 0 <= i < s.len() implies !(0x3041 <= #[trigger] to_katakana(s)[i] as u32 <= 0x3096) by {
        let c = s[i];
        if 0x3041 <= c as u32 <= 0x3096 {
            lemma_katakana_shifts_hiragana(c);
        }
    }
}

} // verus!
