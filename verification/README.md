# karukan-tsf

The core of a Japanese input method for the Windows Text Services Framework
(TSF), written in Verus: the decisions are verified Rust with contracts,
and a thin layer of COM and Win32 code carries them out on Windows.

## Layout

- `src/` — the verified library (`karukan_tsf`):
  - `engine` — the input engine: input modes (hiragana, katakana, half-width
    katakana, alphabet), the composition state, and `process_key`, whose
    result is stated exactly by `spec_process_key`. Letters are composed
    through romaji; Return commits, BackSpace deletes, Escape cancels, and
    Ctrl+k while composing selects katakana. Zenkaku/Hankaku and Ctrl+Space
    toggle direct input, and Ctrl+Shift+L switches live conversion. With the
    SKK profile, Ctrl+j, `l`, `q`, Ctrl+q, Henkan and Muhenkan switch modes
    too. A mode switch commits what is being composed first. A conversion
    starts from the candidates a converter offers; Space, Down and Up move
    the selection.
  - `romaji`, `kana` — the romaji syllable table and the katakana and
    half-width katakana forms of a reading.
  - `engine_laws` — properties of key handling proved over the engine's
    model (SKK mode keys, round trips, what unused keys leave unchanged).
  - `bridge` — from Windows virtual keys, `ToUnicode` results and
    `GetKeyState` results to engine key events; the conversions the user
    chose are learned and offered first when their reading is converted
    again.
  - `service` — the text service's bookkeeping: activation, deactivation
    (which hands out the learning to save), and the test-then-deliver round
    trip of key events.
  - `learning` — the learning file (reading, tab, text per line); reading it
    back gives what was written.
  - `config` — the key-binding profile chosen in `config.toml`.
  - `edit` — the edits a list of engine actions makes to a composition, and
    UTF-16 encoding.
  - `candidate` — the candidate window: its size, the commands each
    operation issues, the painted rows and the window messages it answers.
  - `text` — string helpers.
- `tests/` — tests of the library, including the SKK keybinding scenarios.
- `app/` — the TSF COM objects and the native candidate window (Windows
  only), which call the library, and the reading and writing of the
  configuration and learning files.

## Building

The library and its tests build on any platform. The `app/` modules use the
`windows` crate and are compiled only for Windows targets.
