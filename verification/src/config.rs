//! The key-binding profile chosen in the configuration file.
//!
//! The file is TOML; the profile is the string value of the key `profile`
//! in the table `[keybinding]`:
//!
//! ```toml
//! [keybinding]
//! profile = "skk"
//! ```
//!
//! Lines are read one at a time, blanks around names and values ignored. A
//! missing file, table or key, or any other value, leaves the default key
//! bindings.

use vstd::prelude::*;
use crate::engine::KeybindingProfile;
use crate::text::chars_of;

verus! {

/// Space, tab and carriage return.
pub open spec fn is_blank(c: char) -> bool {
    c == ' ' || c == '\t' || c == '\r'
}

/// The number of blanks `s` starts with.
pub open spec fn leading_blanks(s: Seq<char>) -> nat
    decreases s.len(),
{
    if s.len() > 0 && is_blank(s[0]) {
        1 + leading_blanks(s.drop_first())
    } else {
        0
    }
}

/// The number of blanks `s` ends with.
pub open spec fn trailing_blanks(s: Seq<char>) -> nat
    decreases s.len(),
{
    if s.len() > 0 && is_blank(s.last()) {
        1 + trailing_blanks(s.drop_last())
    } else {
        0
    }
}

/// `s` without the blanks at its start and end.
pub open spec fn trim(s: Seq<char>) -> Seq<char> {
    let t = s.skip(leading_blanks(s) as int);
    t.take(t.len() - trailing_blanks(t))
}

/// The position of the first `=` in `s`, or its length when there is none.
pub open spec fn eq_index(s: Seq<char>) -> nat
    decreases s.len(),
{
    if s.len() == 0 || s[0] == '=' {
        0
    } else {
        1 + eq_index(s.drop_first())
    }
}

/// The contents of a quoted string value (in double or single quotes).
pub open spec fn unquoted(v: Seq<char>) -> Option<Seq<char>> {
    if v.len() >= 2 && ((v[0] == '"' && v.last() == '"') || (v[0] == '\'' && v.last() == '\'')) {
        Some(v.subrange(1, v.len() - 1))
    } else {
        None
    }
}

/// The name of the key-binding table.
pub open spec fn keybinding_name() -> Seq<char> {
    seq!['k', 'e', 'y', 'b', 'i', 'n', 'd', 'i', 'n', 'g']
}

/// The name of the profile key.
pub open spec fn profile_name() -> Seq<char> {
    seq!['p', 'r', 'o', 'f', 'i', 'l', 'e']
}

/// The name of the SKK profile.
pub open spec fn skk_name() -> Seq<char> {
    seq!['s', 'k', 'k']
}

/// What has been read of a configuration file: the current table and the
/// profile named so far.
pub struct ConfigRead {
    pub section: Seq<char>,
    pub profile: Option<Seq<char>>,
}

/// The profile value a line sets, if it is `profile = "..."`.
pub open spec fn profile_value(t: Seq<char>) -> Option<Seq<char>> {
    let k = eq_index(t);
    if k < t.len() && trim(t.take(k as int)) == profile_name() {
        unquoted(trim(t.skip(k + 1int)))
    } else {
        None
    }
}

/// Reading one line: a table header changes the table; in the key-binding
/// table, a quoted `profile` value names the profile; other lines change
/// nothing.
pub open spec fn read_config_line(st: ConfigRead, line: Seq<char>) -> ConfigRead {
    let t = trim(line);
    if t.len() >= 2 && t[0] == '[' && t.last() == ']' {
        ConfigRead { section: trim(t.subrange(1, t.len() - 1)), ..st }
    } else if st.section == keybinding_name() && profile_value(t) is Some {
        ConfigRead { profile: profile_value(t), ..st }
    } else {
        st
    }
}

/// Reading a file: the lines read so far and the current line.
pub struct ConfigScan {
    pub done: ConfigRead,
    pub line: Seq<char>,
}

/// The scan after the characters of `s`.
pub open spec fn scan_config(s: Seq<char>) -> ConfigScan
    decreases s.len(),
{
    if s.len() == 0 {
        ConfigScan { done: ConfigRead { section: Seq::empty(), profile: None }, line: Seq::empty() }
    } else {
        let st = scan_config(s.drop_last());
        if s.last() == '\n' {
            ConfigScan { done: read_config_line(st.done, st.line), line: Seq::empty() }
        } else {
            ConfigScan { line: st.line.push(s.last()), ..st }
        }
    }
}

/// The profile a configuration file names, the last line without a line
/// break included.
pub open spec fn configured_profile_name(s: Seq<char>) -> Option<Seq<char>> {
    let st = scan_config(s);
    read_config_line(st.done, st.line).profile
}

/// The key bindings a configuration file chooses: SKK when it names the
/// `skk` profile, the default ones otherwise.
pub open spec fn configured_profile(s: Seq<char>) -> KeybindingProfile {
    if configured_profile_name(s) == Some(skk_name()) {
        KeybindingProfile::Skk
    } else {
        KeybindingProfile::Default
    }
}

fn is_blank_char(c: char) -> (b: bool)
    ensures
        b == is_blank(c),
{
    c == ' ' || c == '\t' || c == '\r'
}

/// The characters of `v` from `a` up to `b`.
fn slice_of(v: &Vec<char>, a: usize, b: usize) -> (r: Vec<char>)
    requires
        a <= b <= v@.len(),
    ensures
        r@ == v@.subrange(a as int, b as int),
{
    let mut r: Vec<char> = Vec::new();
    let mut i: usize = a;
    while i < b
        invariant
            a <= i <= b,
            b <= v@.len(),
            r@ == v@.subrange(a as int, i as int),
        decreases b - i,
    {
        r.push(v[i]);
        assert(v@.subrange(a as int, i as int).push(v@[i as int]) =~= v@.subrange(a as int, i + 1));
        i = i + 1;
    }
    r
}

/// `v` without its leading and trailing blanks.
fn trim_of(v: &Vec<char>) -> (r: Vec<char>)
    ensures
        r@ == trim(v@),
{
    let n = v.len();
    let mut a: usize = 0;
    assert(v@.skip(0) =~= v@);
    while a < n && is_blank_char(v[a])
        invariant
            n == v@.len(),
            a <= n,
            leading_blanks(v@) == a + leading_blanks(v@.skip(a as int)),
        decreases n - a,
    {
        assert(v@.skip(a as int).drop_first() =~= v@.skip(a + 1));
        a = a + 1;
    }
    assert(leading_blanks(v@.skip(a as int)) == 0) by {
        if a < n {
            assert(v@.skip(a as int)[0] == v@[a as int]);
        }
    }
    let t = slice_of(v, a, n);
    assert(t@ =~= v@.skip(a as int));
    let m = t.len();
    let mut b: usize = m;
    assert(t@.take(m as int) =~= t@);
    while b > 0 && is_blank_char(t[b - 1])
        invariant
            m == t@.len(),
            b <= m,
            trailing_blanks(t@) == (m - b) + trailing_blanks(t@.take(b as int)),
        decreases b,
    {
        assert(t@.take(b as int).drop_last() =~= t@.take(b - 1));
        assert(t@.take(b as int).last() == t@[b - 1]);
        b = b - 1;
    }
    assert(trailing_blanks(t@.take(b as int)) == 0) by {
        if b > 0 {
            assert(t@.take(b as int).last() == t@[b - 1]);
        }
    }
    let r = slice_of(&t, 0, b);
    assert(r@ =~= t@.take(b as int));
    r
}

/// The position of the first `=` in `v`, or its length.
fn eq_index_of(v: &Vec<char>) -> (k: usize)
    ensures
        k == eq_index(v@),
{
    let n = v.len();
    let mut i: usize = 0;
    assert(v@.skip(0) =~= v@);
    while i < n && v[i] != '='
        invariant
            n == v@.len(),
            i <= n,
            eq_index(v@) == i + eq_index(v@.skip(i as int)),
        decreases n - i,
    {
        assert(v@.skip(i as int).drop_first() =~= v@.skip(i + 1));
        i = i + 1;
    }
    assert(eq_index(v@.skip(i as int)) == 0) by {
        if i < n {
            assert(v@.skip(i as int)[0] == v@[i as int]);
        }
    }
    i
}

/// Whether `v` holds exactly the characters of `word`.
fn is_word(v: &Vec<char>, word: &Vec<char>) -> (b: bool)
    ensures
        b == (v@ == word@),
{
    if v.len() != word.len() {
        return false;
    }
    let n = v.len();
    let mut i: usize = 0;
    while i < n
        invariant
            n == v@.len(),
            n == word@.len(),
            i <= n,
            forall|j: int| 0 <= j < i ==> v@[j] == word@[j],
        decreases n - i,
    {
        if v[i] != word[i] {
            return false;
        }
        i = i + 1;
    }
    assert(v@ =~= word@);
    true
}

fn keybinding_word() -> (w: Vec<char>)
    ensures
        w@ == keybinding_name(),
{
    let w = vec!['k', 'e', 'y', 'b', 'i', 'n', 'd', 'i', 'n', 'g'];
    assert(w@ =~= keybinding_name());
    w
}

fn profile_word() -> (w: Vec<char>)
    ensures
        w@ == profile_name(),
{
    let w = vec!['p', 'r', 'o', 'f', 'i', 'l', 'e'];
    assert(w@ =~= profile_name());
    w
}

fn skk_word() -> (w: Vec<char>)
    ensures
        w@ == skk_name(),
{
    let w = vec!['s', 'k', 'k'];
    assert(w@ =~= skk_name());
    w
}

/// The contents of a quoted value.
fn unquoted_of(v: &Vec<char>) -> (r: Option<Vec<char>>)
    ensures
        match r {
            Some(x) => unquoted(v@) == Some(x@),
            None => unquoted(v@) is None,
        },
{
    let n = v.len();
    if n >= 2 && ((v[0] == '"' && v[n - 1] == '"') || (v[0] == '\'' && v[n - 1] == '\'')) {
        Some(slice_of(v, 1, n - 1))
    } else {
        None
    }
}

/// The profile value `t` sets, if it is a `profile = "..."` line.
fn profile_value_of(t: &Vec<char>) -> (r: Option<Vec<char>>)
    ensures
        match r {
            Some(x) => profile_value(t@) == Some(x@),
            None => profile_value(t@) is None,
        },
{
    let k = eq_index_of(t);
    if k >= t.len() {
        return None;
    }
    let key = trim_of(&slice_of(t, 0, k));
    assert(t@.subrange(0, k as int) =~= t@.take(k as int));
    if !is_word(&key, &profile_word()) {
        return None;
    }
    let value = trim_of(&slice_of(t, k + 1, t.len()));
    assert(t@.subrange(k + 1, t@.len() as int) =~= t@.skip(k + 1));
    unquoted_of(&value)
}

/// Reads one line into the table name and profile found so far.
fn read_line(section: &mut Vec<char>, profile: &mut Option<Vec<char>>, line: &Vec<char>)
    ensures
        ({
            let st = read_config_line(
                ConfigRead {
                    section: old(section)@,
                    profile: match *old(profile) {
                        Some(p) => Some(p@),
                        None => None,
                    },
                },
                line@,
            );
            &&& st.section == final(section)@
            &&& st.profile == match *final(profile) {
                Some(p) => Some(p@),
                None => None,
            }
        }),
{
    let t = trim_of(line);
    let n = t.len();
    if n >= 2 && t[0] == '[' && t[n - 1] == ']' {
        let inner = slice_of(&t, 1, n - 1);
        *section = trim_of(&inner);
    } else if is_word(section, &keybinding_word()) {
        match profile_value_of(&t) {
            Some(v) => {
                *profile = Some(v);
            },
            None => {},
        }
    }
}

/// The key bindings a configuration file's text chooses.
pub fn keybinding_profile_of(text: &str) -> (p: KeybindingProfile)
    ensures
        p == configured_profile(text@),
{
    let chars = chars_of(text);
    let n = chars.len();
    let mut section: Vec<char> = Vec::new();
    let mut profile: Option<Vec<char>> = None;
    let mut line: Vec<char> = Vec::new();
    let mut i: usize = 0;
    assert(chars@.take(0) =~= Seq::<char>::empty());
    while i < n
        invariant
            n == chars@.len(),
            chars@ == text@,
            i <= n,
            scan_config(chars@.take(i as int)).line == line@,
            scan_config(chars@.take(i as int)).done == (ConfigRead {
                section: section@,
                profile: match profile {
                    Some(p) => Some(p@),
                    None => None,
                },
            }),
        decreases n - i,
    {
        let c = chars[i];
        assert(chars@.take(i + 1).drop_last() =~= chars@.take(i as int));
        assert(chars@.take(i + 1).last() == c);
        if c == '\n' {
            read_line(&mut section, &mut profile, &line);
            line = Vec::new();
        } else {
            line.push(c);
        }
        i = i + 1;
    }
    assert(chars@.take(n as int) =~= chars@);
    read_line(&mut section, &mut profile, &line);
    match profile {
        Some(v) => {
            if is_word(&v, &skk_word()) {
                KeybindingProfile::Skk
            } else {
                KeybindingProfile::Default
            }
        },
        None => KeybindingProfile::Default,
    }
}

} // verus!
