//! Romaji to hiragana: the syllable table, and how one more typed letter
//! extends the pending romaji.

use vstd::prelude::*;

verus! {

/// The hiragana for a lone vowel letter.
pub open spec fn vowel_kana(v: char) -> Option<char> {
    match v {
        'a' => Some('あ'),
        'i' => Some('い'),
        'u' => Some('う'),
        'e' => Some('え'),
        'o' => Some('お'),
        _ => None,
    }
}

/// The hiragana for a consonant letter followed by a vowel letter, in the
/// rows spelled with one consonant letter (`x` and `l` give small vowels).
pub open spec fn row_kana(c: char, v: char) -> Option<char> {
    match (c, v) {
        ('k', 'a') => Some('か'),
        ('k', 'i') => Some('き'),
        ('k', 'u') => Some('く'),
        ('k', 'e') => Some('け'),
        ('k', 'o') => Some('こ'),
        ('s', 'a') => Some('さ'),
        ('s', 'i') => Some('し'),
        ('s', 'u') => Some('す'),
        ('s', 'e') => Some('せ'),
        ('s', 'o') => Some('そ'),
        ('t', 'a') => Some('た'),
        ('t', 'i') => Some('ち'),
        ('t', 'u') => Some('つ'),
        ('t', 'e') => Some('て'),
        ('t', 'o') => Some('と'),
        ('n', 'a') => Some('な'),
        ('n', 'i') => Some('に'),
        ('n', 'u') => Some('ぬ'),
        ('n', 'e') => Some('ね'),
        ('n', 'o') => Some('の'),
        ('h', 'a') => Some('は'),
        ('h', 'i') => Some('ひ'),
        ('h', 'u') => Some('ふ'),
        ('h', 'e') => Some('へ'),
        ('h', 'o') => Some('ほ'),
        ('m', 'a') => Some('ま'),
        ('m', 'i') => Some('み'),
        ('m', 'u') => Some('む'),
        ('m', 'e') => Some('め'),
        ('m', 'o') => Some('も'),
        ('y', 'a') => Some('や'),
        ('y', 'u') => Some('ゆ'),
        ('y', 'o') => Some('よ'),
        ('r', 'a') => Some('ら'),
        ('r', 'i') => Some('り'),
        ('r', 'u') => Some('る'),
        ('r', 'e') => Some('れ'),
        ('r', 'o') => Some('ろ'),
        ('w', 'a') => Some('わ'),
        ('w', 'o') => Some('を'),
        ('g', 'a') => Some('が'),
        ('g', 'i') => Some('ぎ'),
        ('g', 'u') => Some('ぐ'),
        ('g', 'e') => Some('げ'),
        ('g', 'o') => Some('ご'),
        ('z', 'a') => Some('ざ'),
        ('z', 'i') => Some('じ'),
        ('z', 'u') => Some('ず'),
        ('z', 'e') => Some('ぜ'),
        ('z', 'o') => Some('ぞ'),
        ('d', 'a') => Some('だ'),
        ('d', 'i') => Some('ぢ'),
        ('d', 'u') => Some('づ'),
        ('d', 'e') => Some('で'),
        ('d', 'o') => Some('ど'),
        ('b', 'a') => Some('ば'),
        ('b', 'i') => Some('び'),
        ('b', 'u') => Some('ぶ'),
        ('b', 'e') => Some('べ'),
        ('b', 'o') => Some('ぼ'),
        ('p', 'a') => Some('ぱ'),
        ('p', 'i') => Some('ぴ'),
        ('p', 'u') => Some('ぷ'),
        ('p', 'e') => Some('ぺ'),
        ('p', 'o') => Some('ぽ'),
        ('x', 'a') => Some('ぁ'),
        ('x', 'i') => Some('ぃ'),
        ('x', 'u') => Some('ぅ'),
        ('x', 'e') => Some('ぇ'),
        ('x', 'o') => Some('ぉ'),
        ('l', 'a') => Some('ぁ'),
        ('l', 'i') => Some('ぃ'),
        ('l', 'u') => Some('ぅ'),
        ('l', 'e') => Some('ぇ'),
        ('l', 'o') => Some('ぉ'),
        _ => None,
    }
}

/// The small ya, yu, yo that follow an i-column kana in a contracted sound.
pub open spec fn small_y(v: char) -> Option<char> {
    match v {
        'a' => Some('ゃ'),
        'u' => Some('ゅ'),
        'o' => Some('ょ'),
        _ => None,
    }
}

/// Consonant letters that form contracted sounds with `y` (`kya`, `sya`, ...).
pub open spec fn is_palatal_consonant(c: char) -> bool {
    c == 'k' || c == 's' || c == 't' || c == 'n' || c == 'h' || c == 'm' || c == 'r'
        || c == 'g' || c == 'z' || c == 'd' || c == 'b' || c == 'p'
}

/// Letters that can begin a syllable of more than one letter.
pub open spec fn is_consonant_start(c: char) -> bool {
    is_palatal_consonant(c) || c == 'y' || c == 'w' || c == 'j' || c == 'f' || c == 'c'
        || c == 'x' || c == 'l'
}

/// Consonant letters whose doubling stands for a small tsu (`kk` in `kka`).
pub open spec fn is_doubling_consonant(c: char) -> bool {
    is_consonant_start(c) && c != 'n' && c != 'x' && c != 'l'
}

/// The kana for `base` (an i-column kana) joined with the vowel `v`:
/// `base` itself for `i`, otherwise `base` followed by a small ya, yu, e or yo.
pub open spec fn palatal(base: char, v: char) -> Option<Seq<char>> {
    if v == 'i' {
        Some(seq![base])
    } else if v == 'e' {
        Some(seq![base, 'ぇ'])
    } else {
        match small_y(v) {
            Some(m) => Some(seq![base, m]),
            None => None,
        }
    }
}

/// The kana that a complete romaji syllable stands for, if `s` is one.
pub open spec fn syllable(s: Seq<char>) -> Option<Seq<char>> {
    if s.len() == 1 {
        if s[0] == '-' {
            Some(seq!['ー'])
        } else {
            match vowel_kana(s[0]) {
                Some(k) => Some(seq![k]),
                None => None,
            }
        }
    } else if s.len() == 2 {
        if s[0] == 'n' && s[1] == 'n' {
            Some(seq!['ん'])
        } else if s[0] == 'j' {
            palatal('じ', s[1])
        } else if s[0] == 'f' {
            if s[1] == 'u' {
                Some(seq!['ふ'])
            } else {
                match row_kana('x', s[1]) {
                    Some(m) => Some(seq!['ふ', m]),
                    None => None,
                }
            }
        } else {
            match row_kana(s[0], s[1]) {
                Some(k) => Some(seq![k]),
                None => None,
            }
        }
    } else if s.len() == 3 {
        if s[0] == 's' && s[1] == 'h' {
            palatal('し', s[2])
        } else if s[0] == 'c' && s[1] == 'h' {
            palatal('ち', s[2])
        } else if s[0] == 't' && s[1] == 's' {
            if s[2] == 'u' {
                Some(seq!['つ'])
            } else {
                None
            }
        } else if (s[0] == 'x' || s[0] == 'l') && s[1] == 't' {
            if s[2] == 'u' {
                Some(seq!['っ'])
            } else {
                None
            }
        } else if (s[0] == 'x' || s[0] == 'l') && s[1] == 'y' {
            match small_y(s[2]) {
                Some(m) => Some(seq![m]),
                None => None,
            }
        } else if is_palatal_consonant(s[0]) && s[1] == 'y' {
            match (row_kana(s[0], 'i'), small_y(s[2])) {
                (Some(b), Some(m)) => Some(seq![b, m]),
                _ => None,
            }
        } else {
            None
        }
    } else {
        None
    }
}

/// Whether `s` is an unfinished romaji syllable: typing more letters may
/// complete it.
pub open spec fn is_prefix(s: Seq<char>) -> bool {
    if s.len() == 1 {
        is_consonant_start(s[0])
    } else if s.len() == 2 {
        ||| s[1] == 'y' && (is_palatal_consonant(s[0]) || s[0] == 'x' || s[0] == 'l')
        ||| s[0] == 's' && s[1] == 'h'
        ||| s[0] == 'c' && s[1] == 'h'
        ||| s[0] == 't' && s[1] == 's'
        ||| (s[0] == 'x' || s[0] == 'l') && s[1] == 't'
    } else {
        false
    }
}

/// One letter typed with nothing pending: the kana it completes, or it stays
/// pending, or (when no syllable starts with it) it is taken as it is.
/// The pair holds what is emitted into the reading and what stays pending.
pub open spec fn feed_fresh(c: char) -> (Seq<char>, Seq<char>) {
    match syllable(seq![c]) {
        Some(k) => (k, Seq::empty()),
        None => if is_prefix(seq![c]) {
            (Seq::empty(), seq![c])
        } else {
            (seq![c], Seq::empty())
        },
    }
}

/// One letter `c` typed after the pending romaji `p`: the pair of what is
/// emitted into the reading and what stays pending.
///
/// A completed syllable is emitted as kana; an unfinished one stays pending.
/// Otherwise a pending `n` becomes ん, a doubled consonant becomes っ with
/// the second letter kept, and any other pending letters are emitted as
/// they are; in those cases `c` then starts afresh.
pub open spec fn feed(p: Seq<char>, c: char) -> (Seq<char>, Seq<char>) {
    if p.len() == 0 {
        feed_fresh(c)
    } else {
        match syllable(p.push(c)) {
            Some(k) => (k, Seq::empty()),
            None => if is_prefix(p.push(c)) {
                (Seq::empty(), p.push(c))
            } else if p =~= seq!['n'] {
                (seq!['ん'] + feed_fresh(c).0, feed_fresh(c).1)
            } else if p.len() == 1 && p[0] == c && is_doubling_consonant(c) {
                (seq!['っ'], seq![c])
            } else {
                (p + feed_fresh(c).0, feed_fresh(c).1)
            },
        }
    }
}

/// The pending romaji as it goes into a committed reading: a lone `n`
/// becomes ん, anything else is kept as typed.
pub open spec fn flush(p: Seq<char>) -> Seq<char> {
    if p =~= seq!['n'] {
        seq!['ん']
    } else {
        p
    }
}

/// The view of an optional list of characters.
pub open spec fn opt_chars(r: Option<Vec<char>>) -> Option<Seq<char>> {
    match r {
        Some(v) => Some(v@),
        None => None,
    }
}

fn vowel_kana_of(v: char) -> (r: Option<char>)
    ensures
        r == vowel_kana(v),
{
    match v {
        'a' => Some('あ'),
        'i' => Some('い'),
        'u' => Some('う'),
        'e' => Some('え'),
        'o' => Some('お'),
        _ => None,
    }
}

fn row_kana_of(c: char, v: char) -> (r: Option<char>)
    ensures
        r == row_kana(c, v),
{
    match (c, v) {
        ('k', 'a') => Some('か'),
        ('k', 'i') => Some('き'),
        ('k', 'u') => Some('く'),
        ('k', 'e') => Some('け'),
        ('k', 'o') => Some('こ'),
        ('s', 'a') => Some('さ'),
        ('s', 'i') => Some('し'),
        ('s', 'u') => Some('す'),
        ('s', 'e') => Some('せ'),
        ('s', 'o') => Some('そ'),
        ('t', 'a') => Some('た'),
        ('t', 'i') => Some('ち'),
        ('t', 'u') => Some('つ'),
        ('t', 'e') => Some('て'),
        ('t', 'o') => Some('と'),
        ('n', 'a') => Some('な'),
        ('n', 'i') => Some('に'),
        ('n', 'u') => Some('ぬ'),
        ('n', 'e') => Some('ね'),
        ('n', 'o') => Some('の'),
        ('h', 'a') => Some('は'),
        ('h', 'i') => Some('ひ'),
        ('h', 'u') => Some('ふ'),
        ('h', 'e') => Some('へ'),
        ('h', 'o') => Some('ほ'),
        ('m', 'a') => Some('ま'),
        ('m', 'i') => Some('み'),
        ('m', 'u') => Some('む'),
        ('m', 'e') => Some('め'),
        ('m', 'o') => Some('も'),
        ('y', 'a') => Some('や'),
        ('y', 'u') => Some('ゆ'),
        ('y', 'o') => Some('よ'),
        ('r', 'a') => Some('ら'),
        ('r', 'i') => Some('り'),
        ('r', 'u') => Some('る'),
        ('r', 'e') => Some('れ'),
        ('r', 'o') => Some('ろ'),
        ('w', 'a') => Some('わ'),
        ('w', 'o') => Some('を'),
        ('g', 'a') => Some('が'),
        ('g', 'i') => Some('ぎ'),
        ('g', 'u') => Some('ぐ'),
        ('g', 'e') => Some('げ'),
        ('g', 'o') => Some('ご'),
        ('z', 'a') => Some('ざ'),
        ('z', 'i') => Some('じ'),
        ('z', 'u') => Some('ず'),
        ('z', 'e') => Some('ぜ'),
        ('z', 'o') => Some('ぞ'),
        ('d', 'a') => Some('だ'),
        ('d', 'i') => Some('ぢ'),
        ('d', 'u') => Some('づ'),
        ('d', 'e') => Some('で'),
        ('d', 'o') => Some('ど'),
        ('b', 'a') => Some('ば'),
        ('b', 'i') => Some('び'),
        ('b', 'u') => Some('ぶ'),
        ('b', 'e') => Some('べ'),
        ('b', 'o') => Some('ぼ'),
        ('p', 'a') => Some('ぱ'),
        ('p', 'i') => Some('ぴ'),
        ('p', 'u') => Some('ぷ'),
        ('p', 'e') => Some('ぺ'),
        ('p', 'o') => Some('ぽ'),
        ('x', 'a') => Some('ぁ'),
        ('x', 'i') => Some('ぃ'),
        ('x', 'u') => Some('ぅ'),
        ('x', 'e') => Some('ぇ'),
        ('x', 'o') => Some('ぉ'),
        ('l', 'a') => Some('ぁ'),
        ('l', 'i') => Some('ぃ'),
        ('l', 'u') => Some('ぅ'),
        ('l', 'e') => Some('ぇ'),
        ('l', 'o') => Some('ぉ'),
        _ => None,
    }
}

fn small_y_of(v: char) -> (r: Option<char>)
    ensures
        r == small_y(v),
{
    match v {
        'a' => Some('ゃ'),
        'u' => Some('ゅ'),
        'o' => Some('ょ'),
        _ => None,
    }
}

fn is_palatal_consonant_exec(c: char) -> (b: bool)
    ensures
        b == is_palatal_consonant(c),
{
    c == 'k' || c == 's' || c == 't' || c == 'n' || c == 'h' || c == 'm' || c == 'r'
        || c == 'g' || c == 'z' || c == 'd' || c == 'b' || c == 'p'
}

fn is_consonant_start_exec(c: char) -> (b: bool)
    ensures
        b == is_consonant_start(c),
{
    is_palatal_consonant_exec(c) || c == 'y' || c == 'w' || c == 'j' || c == 'f' || c == 'c'
        || c == 'x' || c == 'l'
}

fn palatal_of(base: char, v: char) -> (r: Option<Vec<char>>)
    ensures
        opt_chars(r) == palatal(base, v),
{
    if v == 'i' {
        Some(vec![base])
    } else if v == 'e' {
        Some(vec![base, 'ぇ'])
    } else {
        match small_y_of(v) {
            Some(m) => Some(vec![base, m]),
            None => None,
        }
    }
}

/// The kana that a complete romaji syllable stands for.
pub fn syllable_of(s: &Vec<char>) -> (r: Option<Vec<char>>)
    ensures
        opt_chars(r) == syllable(s@),
{
    if s.len() == 1 {
        if s[0] == '-' {
            Some(vec!['ー'])
        } else {
            match vowel_kana_of(s[0]) {
                Some(k) => Some(vec![k]),
                None => None,
            }
        }
    } else if s.len() == 2 {
        if s[0] == 'n' && s[1] == 'n' {
            Some(vec!['ん'])
        } else if s[0] == 'j' {
            palatal_of('じ', s[1])
        } else if s[0] == 'f' {
            if s[1] == 'u' {
                Some(vec!['ふ'])
            } else {
                match row_kana_of('x', s[1]) {
                    Some(m) => Some(vec!['ふ', m]),
                    None => None,
                }
            }
        } else {
            match row_kana_of(s[0], s[1]) {
                Some(k) => Some(vec![k]),
                None => None,
            }
        }
    } else if s.len() == 3 {
        if s[0] == 's' && s[1] == 'h' {
            palatal_of('し', s[2])
        } else if s[0] == 'c' && s[1] == 'h' {
            palatal_of('ち', s[2])
        } else if s[0] == 't' && s[1] == 's' {
            if s[2] == 'u' {
                Some(vec!['つ'])
            } else {
                None
            }
        } else if (s[0] == 'x' || s[0] == 'l') && s[1] == 't' {
            if s[2] == 'u' {
                Some(vec!['っ'])
            } else {
                None
            }
        } else if (s[0] == 'x' || s[0] == 'l') && s[1] == 'y' {
            match small_y_of(s[2]) {
                Some(m) => Some(vec![m]),
                None => None,
            }
        } else if is_palatal_consonant_exec(s[0]) && s[1] == 'y' {
            match (row_kana_of(s[0], 'i'), small_y_of(s[2])) {
                (Some(b), Some(m)) => Some(vec![b, m]),
                _ => None,
            }
        } else {
            None
        }
    } else {
        None
    }
}

/// Whether `s` is an unfinished romaji syllable.
pub fn is_prefix_of(s: &Vec<char>) -> (b: bool)
    ensures
        b == is_prefix(s@),
{
    if s.len() == 1 {
        is_consonant_start_exec(s[0])
    } else if s.len() == 2 {
        (s[1] == 'y' && (is_palatal_consonant_exec(s[0]) || s[0] == 'x' || s[0] == 'l'))
            || (s[0] == 's' && s[1] == 'h') || (s[0] == 'c' && s[1] == 'h')
            || (s[0] == 't' && s[1] == 's') || ((s[0] == 'x' || s[0] == 'l') && s[1] == 't')
    } else {
        false
    }
}

fn feed_fresh_of(c: char) -> (r: (Vec<char>, Vec<char>))
    ensures
        (r.0@, r.1@) == feed_fresh(c),
{
    let single = vec![c];
    assert(single@ =~= seq![c]);
    match syllable_of(&single) {
        Some(k) => (k, Vec::new()),
        None => if is_prefix_of(&single) {
            (Vec::new(), single)
        } else {
            (single, Vec::new())
        },
    }
}

/// One more typed letter: what is emitted into the reading, and the romaji
/// that stays pending.
pub fn feed_of(p: &Vec<char>, c: char) -> (r: (Vec<char>, Vec<char>))
    ensures
        (r.0@, r.1@) == feed(p@, c),
{
    if p.len() == 0 {
        return feed_fresh_of(c);
    }
    let mut s = p.clone();
    assert(s@ =~= p@);
    s.push(c);
    match syllable_of(&s) {
        Some(k) => (k, Vec::new()),
        None => if is_prefix_of(&s) {
            (Vec::new(), s)
        } else if p.len() == 1 && p[0] == 'n' {
            assert(p@ =~= seq!['n']);
            let (k, rest) = feed_fresh_of(c);
            let mut out = vec!['ん'];
            let mut i: usize = 0;
            while i < k.len()
                invariant
                    i <= k@.len(),
                    out@ == seq!['ん'] + k@.take(i as int),
                decreases k@.len() - i,
            {
                out.push(k[i]);
                assert(seq!['ん'] + k@.take(i as int) + seq![k@[i as int]] =~= seq!['ん'] + k@.take(i + 1));
                i = i + 1;
            }
            assert(k@.take(k@.len() as int) =~= k@);
            (out, rest)
        } else if p.len() == 1 && p[0] == c && is_consonant_start_exec(c) && c != 'n' && c != 'x'
            && c != 'l' {
            assert(!(p@ =~= seq!['n']));
            (vec!['っ'], vec![c])
        } else {
            proof {
                if p@ =~= seq!['n'] {
                    assert(p@.len() == 1 && p@[0] == 'n');
                }
            }
            let (k, rest) = feed_fresh_of(c);
            let mut out = p.clone();
            assert(out@ =~= p@);
            let mut i: usize = 0;
            while i < k.len()
                invariant
                    i <= k@.len(),
                    out@ == p@ + k@.take(i as int),
                decreases k@.len() - i,
            {
                out.push(k[i]);
                assert(p@ + k@.take(i as int) + seq![k@[i as int]] =~= p@ + k@.take(i + 1));
                i = i + 1;
            }
            assert(k@.take(k@.len() as int) =~= k@);
            (out, rest)
        },
    }
}

/// The pending romaji as it goes into a committed reading.
pub fn flush_of(p: &Vec<char>) -> (r: Vec<char>)
    ensures
        r@ == flush(p@),
{
    if p.len() == 1 && p[0] == 'n' {
        assert(p@ =~= seq!['n']);
        vec!['ん']
    } else {
        proof {
            if p@ =~= seq!['n'] {
                assert(p@.len() == 1 && p@[0] == 'n');
            }
        }
        let r = p.clone();
        assert(r@ =~= p@);
        r
    }
}

/// What stays pending after a letter is always an unfinished syllable of at
/// most two letters (or nothing): the engine never holds back more than that.
pub proof fn lemma_pending_is_unfinished(p: Seq<char>, c: char)
    ensures
        feed(p, c).1.len() == 0 || is_prefix(feed(p, c).1),
        feed(p, c).1.len() <= 2,
{
    let fresh = feed_fresh(c);
    assert(fresh.1.len() == 0 || (fresh.1 =~= seq![c] && is_prefix(seq![c])));
    if p.len() > 0 && syllable(p.push(c)) is None && !is_prefix(p.push(c)) && !(p =~= seq!['n'])
        && p.len() == 1 && p[0] == c && is_doubling_consonant(c) {
        assert(is_prefix(seq![c]));
    }
}

/// The Unicode value of the small ya, yu or yo that spells vowel `v` after
/// an i-column kana: U+3083 ゃ, U+3085 ゅ, U+3087 ょ.
pub open spec fn small_y_code(v: char) -> u32 {
    if v == 'a' {
        0x3083
    } else if v == 'u' {
        0x3085
    } else {
        0x3087
    }
}

/// Contracted sounds: a palatal consonant, `y` and one of the vowels a, u, o
/// spell the consonant's i-column kana (what the consonant and `i` spell)
/// followed by the small ya, yu or yo of that vowel. The small kana is the
/// one just below the full-size や, ゆ, よ that `y` and the vowel spell, so
/// distinct vowels give distinct small kana.
pub proof fn lemma_contracted_sound(c: char, v: char)
    requires
        is_palatal_consonant(c),
        v == 'a' || v == 'u' || v == 'o',
    ensures
        syllable(seq![c, 'y', v]) is Some,
        syllable(seq![c, 'i']) is Some,
        syllable(seq!['y', v]) is Some,
        syllable(seq![c, 'y', v])->0.len() == 2,
        syllable(seq![c, 'i'])->0.len() == 1,
        syllable(seq![c, 'y', v])->0[0] == syllable(seq![c, 'i'])->0[0],
        syllable(seq![c, 'y', v])->0[1] as u32 == small_y_code(v),
        syllable(seq![c, 'y', v])->0[1] as u32 + 1 == syllable(seq!['y', v])->0[0] as u32,
{
    let s3 = seq![c, 'y', v];
    assert(s3.len() == 3 && s3[0] == c && s3[1] == 'y' && s3[2] == v);
    let s2 = seq![c, 'i'];
    assert(s2.len() == 2 && s2[0] == c && s2[1] == 'i');
    let y2 = seq!['y', v];
    assert(y2.len() == 2 && y2[0] == 'y' && y2[1] == v);
    assert('ゃ' as u32 == 0x3083 && 'ゅ' as u32 == 0x3085 && 'ょ' as u32 == 0x3087);
    assert('や' as u32 == 0x3084 && 'ゆ' as u32 == 0x3086 && 'よ' as u32 == 0x3088);
}

/// The other spellings of contracted sounds: `j`, `sh` and `ch` with the
/// vowels a, u, o spell じ, し and ち (what `zi`, `si` and `ti` spell)
/// followed by the small ya, yu or yo of the vowel, as `zy`, `sy` and `ty`
/// do.
pub proof fn lemma_contracted_sound_spellings(v: char)
    requires
        v == 'a' || v == 'u' || v == 'o',
    ensures
        syllable(seq!['j', v]) == syllable(seq!['z', 'y', v]),
        syllable(seq!['s', 'h', v]) == syllable(seq!['s', 'y', v]),
        syllable(seq!['c', 'h', v]) == syllable(seq!['t', 'y', v]),
        syllable(seq!['j', v]) is Some && syllable(seq!['j', v])->0.len() == 2
            && syllable(seq!['j', v])->0[0] == syllable(seq!['z', 'i'])->0[0]
            && syllable(seq!['j', v])->0[1] as u32 == small_y_code(v),
{
    let j2 = seq!['j', v];
    assert(j2.len() == 2 && j2[0] == 'j' && j2[1] == v);
    let sh = seq!['s', 'h', v];
    assert(sh.len() == 3 && sh[0] == 's' && sh[1] == 'h' && sh[2] == v);
    let ch = seq!['c', 'h', v];
    assert(ch.len() == 3 && ch[0] == 'c' && ch[1] == 'h' && ch[2] == v);
    lemma_contracted_sound('z', v);
    lemma_contracted_sound('s', v);
    lemma_contracted_sound('t', v);
    let zi = seq!['z', 'i'];
    assert(zi.len() == 2 && zi[0] == 'z' && zi[1] == 'i');
    let si = seq!['s', 'i'];
    assert(si.len() == 2 && si[0] == 's' && si[1] == 'i');
    let ti = seq!['t', 'i'];
    assert(ti.len() == 2 && ti[0] == 't' && ti[1] == 'i');
}

} // verus!
