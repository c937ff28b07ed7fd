//! Parsing hotkey binding strings such as "Ctrl+Space" or "Alt+R".
//!
//! The host's shortcut service registers key chords with the window
//! system; what it registers is decided here: a binding string is split
//! on `+`, each part is trimmed and matched case-insensitively (by
//! ASCII case) against the modifier and key names, and the result is a
//! chord of modifier flags and one key code of the library's own.

use vstd::prelude::*;

verus! {

/// Modifier keys held as part of a chord.
#[derive(PartialEq, Eq, Structural, Clone, Copy, Debug)]
pub struct Modifiers {
    pub control: bool,
    pub alt: bool,
    pub shift: bool,
    /// The platform key: Super, Win, Cmd or Meta.
    pub meta: bool,
}

impl Modifiers {
    /// No modifier held.
    pub fn none() -> (r: Self)
        ensures
            r == (Modifiers { control: false, alt: false, shift: false, meta: false }),
    {
        Modifiers { control: false, alt: false, shift: false, meta: false }
    }
}

/// The non-modifier key of a chord.
#[derive(PartialEq, Eq, Structural, Clone, Copy, Debug)]
pub enum KeyCode {
    Space,
    Enter,
    Tab,
    Escape,
    Backspace,
    Delete,
    Insert,
    Home,
    End,
    PageUp,
    PageDown,
    ArrowUp,
    ArrowDown,
    ArrowLeft,
    ArrowRight,
    F1,
    F2,
    F3,
    F4,
    F5,
    F6,
    F7,
    F8,
    F9,
    F10,
    F11,
    F12,
    Equal,
    Minus,
    BracketLeft,
    BracketRight,
    Semicolon,
    Quote,
    Backquote,
    Backslash,
    Comma,
    Period,
    Slash,
    Numpad0,
    Numpad1,
    Numpad2,
    Numpad3,
    Numpad4,
    Numpad5,
    Numpad6,
    Numpad7,
    Numpad8,
    Numpad9,
    NumpadAdd,
    NumpadSubtract,
    NumpadMultiply,
    NumpadDivide,
    NumpadDecimal,
    NumpadEnter,
    KeyA,
    KeyB,
    KeyC,
    KeyD,
    KeyE,
    KeyF,
    KeyG,
    KeyH,
    KeyI,
    KeyJ,
    KeyK,
    KeyL,
    KeyM,
    KeyN,
    KeyO,
    KeyP,
    KeyQ,
    KeyR,
    KeyS,
    KeyT,
    KeyU,
    KeyV,
    KeyW,
    KeyX,
    KeyY,
    KeyZ,
    Digit0,
    Digit1,
    Digit2,
    Digit3,
    Digit4,
    Digit5,
    Digit6,
    Digit7,
    Digit8,
    Digit9,
}

/// A parsed chord: modifier flags and one key.
#[derive(PartialEq, Eq, Structural, Clone, Copy, Debug)]
pub struct Shortcut {
    pub modifiers: Modifiers,
    pub code: KeyCode,
}

/// A character's code point with ASCII lower case folded to upper case.
pub open spec fn spec_norm(c: char) -> int {
    if 'a' <= c && c <= 'z' {
        c as int - 32
    } else {
        c as int
    }
}

/// Whether two names are the same up to ASCII case.
pub open spec fn spec_name_eq(a: Seq<char>, b: Seq<char>) -> bool {
    a.len() == b.len() && forall|i: int| 0 <= i < a.len() ==> spec_norm(a[i]) == spec_norm(b[i])
}

/// ASCII whitespace, as trimming sees it.
pub open spec fn spec_is_space(c: char) -> bool {
    c == ' ' || c == '\t' || c == '\r' || c == '\n'
}

/// A name without its leading whitespace.
pub open spec fn spec_trim_start(p: Seq<char>) -> Seq<char>
    decreases p.len(),
{
    if p.len() > 0 && spec_is_space(p[0]) {
        spec_trim_start(p.skip(1))
    } else {
        p
    }
}

/// A name without its trailing whitespace.
pub open spec fn spec_trim_end(p: Seq<char>) -> Seq<char>
    decreases p.len(),
{
    if p.len() > 0 && spec_is_space(p.last()) {
        spec_trim_end(p.drop_last())
    } else {
        p
    }
}

/// A name without its surrounding whitespace.
pub open spec fn spec_trim(p: Seq<char>) -> Seq<char> {
    spec_trim_end(spec_trim_start(p))
}

/// The position of the first `+` in `s`, or its length when none.
pub open spec fn spec_first_plus(s: Seq<char>) -> nat
    decreases s.len(),
{
    if s.len() == 0 {
        0
    } else if s[0] == '+' {
        0
    } else {
        (1 + spec_first_plus(s.skip(1))) as nat
    }
}

/// The parts of a binding string, split on `+`.
pub open spec fn spec_split_parts(s: Seq<char>) -> Seq<Seq<char>>
    decreases s.len(),
{
    let i = spec_first_plus(s);
    if i >= s.len() {
        seq![s]
    } else {
        seq![s.take(i as int)] + spec_split_parts(s.skip(i as int + 1))
    }
}

/// What one trimmed part of a binding string means.
pub enum PartAction {
    AddControl,
    AddAlt,
    AddShift,
    AddMeta,
    SetCode(KeyCode),
    /// A single character, resolved by `spec_char_code`.
    Single(char),
    /// No keyword and not a single character.
    Unknown,
}

/// The key code of a single character: letters (either case) and
/// digits.
pub open spec fn spec_char_code(c: char) -> Option<KeyCode> {
    let n = spec_norm(c);
    if n == 'A' as int { Some(KeyCode::KeyA) }
    else if n == 'B' as int { Some(KeyCode::KeyB) }
    else if n == 'C' as int { Some(KeyCode::KeyC) }
    else if n == 'D' as int { Some(KeyCode::KeyD) }
    else if n == 'E' as int { Some(KeyCode::KeyE) }
    else if n == 'F' as int { Some(KeyCode::KeyF) }
    else if n == 'G' as int { Some(KeyCode::KeyG) }
    else if n == 'H' as int { Some(KeyCode::KeyH) }
    else if n == 'I' as int { Some(KeyCode::KeyI) }
    else if n == 'J' as int { Some(KeyCode::KeyJ) }
    else if n == 'K' as int { Some(KeyCode::KeyK) }
    else if n == 'L' as int { Some(KeyCode::KeyL) }
    else if n == 'M' as int { Some(KeyCode::KeyM) }
    else if n == 'N' as int { Some(KeyCode::KeyN) }
    else if n == 'O' as int { Some(KeyCode::KeyO) }
    else if n == 'P' as int { Some(KeyCode::KeyP) }
    else if n == 'Q' as int { Some(KeyCode::KeyQ) }
    else if n == 'R' as int { Some(KeyCode::KeyR) }
    else if n == 'S' as int { Some(KeyCode::KeyS) }
    else if n == 'T' as int { Some(KeyCode::KeyT) }
    else if n == 'U' as int { Some(KeyCode::KeyU) }
    else if n == 'V' as int { Some(KeyCode::KeyV) }
    else if n == 'W' as int { Some(KeyCode::KeyW) }
    else if n == 'X' as int { Some(KeyCode::KeyX) }
    else if n == 'Y' as int { Some(KeyCode::KeyY) }
    else if n == 'Z' as int { Some(KeyCode::KeyZ) }
    else if n == '0' as int { Some(KeyCode::Digit0) }
    else if n == '1' as int { Some(KeyCode::Digit1) }
    else if n == '2' as int { Some(KeyCode::Digit2) }
    else if n == '3' as int { Some(KeyCode::Digit3) }
    else if n == '4' as int { Some(KeyCode::Digit4) }
    else if n == '5' as int { Some(KeyCode::Digit5) }
    else if n == '6' as int { Some(KeyCode::Digit6) }
    else if n == '7' as int { Some(KeyCode::Digit7) }
    else if n == '8' as int { Some(KeyCode::Digit8) }
    else if n == '9' as int { Some(KeyCode::Digit9) }
    else { None }
}

/// The action of one trimmed part.
pub open spec fn spec_part_action(p: Seq<char>) -> PartAction {
    if spec_name_eq(p, "CTRL"@) || spec_name_eq(p, "CONTROL"@) { PartAction::AddControl }
    else if spec_name_eq(p, "ALT"@) { PartAction::AddAlt }
    else if spec_name_eq(p, "SHIFT"@) { PartAction::AddShift }
    else if spec_name_eq(p, "SUPER"@) || spec_name_eq(p, "WIN"@) || spec_name_eq(p, "CMD"@)
        || spec_name_eq(p, "META"@) { PartAction::AddMeta }
    else if spec_name_eq(p, "SPACE"@) { PartAction::SetCode(KeyCode::Space) }
    else if spec_name_eq(p, "ENTER"@) || spec_name_eq(p, "RETURN"@) {
        PartAction::SetCode(KeyCode::Enter)
    }
    else if spec_name_eq(p, "TAB"@) { PartAction::SetCode(KeyCode::Tab) }
    else if spec_name_eq(p, "ESCAPE"@) || spec_name_eq(p, "ESC"@) {
        PartAction::SetCode(KeyCode::Escape)
    }
    else if spec_name_eq(p, "BACKSPACE"@) { PartAction::SetCode(KeyCode::Backspace) }
    else if spec_name_eq(p, "DELETE"@) { PartAction::SetCode(KeyCode::Delete) }
    else if spec_name_eq(p, "INSERT"@) { PartAction::SetCode(KeyCode::Insert) }
    else if spec_name_eq(p, "HOME"@) { PartAction::SetCode(KeyCode::Home) }
    else if spec_name_eq(p, "END"@) { PartAction::SetCode(KeyCode::End) }
    else if spec_name_eq(p, "PAGEUP"@) { PartAction::SetCode(KeyCode::PageUp) }
    else if spec_name_eq(p, "PAGEDOWN"@) { PartAction::SetCode(KeyCode::PageDown) }
    else if spec_name_eq(p, "UP"@) { PartAction::SetCode(KeyCode::ArrowUp) }
    else if spec_name_eq(p, "DOWN"@) { PartAction::SetCode(KeyCode::ArrowDown) }
    else if spec_name_eq(p, "LEFT"@) { PartAction::SetCode(KeyCode::ArrowLeft) }
    else if spec_name_eq(p, "RIGHT"@) { PartAction::SetCode(KeyCode::ArrowRight) }
    else if spec_name_eq(p, "F1"@) { PartAction::SetCode(KeyCode::F1) }
    else if spec_name_eq(p, "F2"@) { PartAction::SetCode(KeyCode::F2) }
    else if spec_name_eq(p, "F3"@) { PartAction::SetCode(KeyCode::F3) }
    else if spec_name_eq(p, "F4"@) { PartAction::SetCode(KeyCode::F4) }
    else if spec_name_eq(p, "F5"@) { PartAction::SetCode(KeyCode::F5) }
    else if spec_name_eq(p, "F6"@) { PartAction::SetCode(KeyCode::F6) }
    else if spec_name_eq(p, "F7"@) { PartAction::SetCode(KeyCode::F7) }
    else if spec_name_eq(p, "F8"@) { PartAction::SetCode(KeyCode::F8) }
    else if spec_name_eq(p, "F9"@) { PartAction::SetCode(KeyCode::F9) }
    else if spec_name_eq(p, "F10"@) { PartAction::SetCode(KeyCode::F10) }
    else if spec_name_eq(p, "F11"@) { PartAction::SetCode(KeyCode::F11) }
    else if spec_name_eq(p, "F12"@) { PartAction::SetCode(KeyCode::F12) }
    else if spec_name_eq(p, "EQUAL"@) { PartAction::SetCode(KeyCode::Equal) }
    else if spec_name_eq(p, "MINUS"@) { PartAction::SetCode(KeyCode::Minus) }
    else if spec_name_eq(p, "BRACKETLEFT"@) { PartAction::SetCode(KeyCode::BracketLeft) }
    else if spec_name_eq(p, "BRACKETRIGHT"@) { PartAction::SetCode(KeyCode::BracketRight) }
    else if spec_name_eq(p, "SEMICOLON"@) { PartAction::SetCode(KeyCode::Semicolon) }
    else if spec_name_eq(p, "QUOTE"@) { PartAction::SetCode(KeyCode::Quote) }
    else if spec_name_eq(p, "BACKQUOTE"@) { PartAction::SetCode(KeyCode::Backquote) }
    else if spec_name_eq(p, "BACKSLASH"@) { PartAction::SetCode(KeyCode::Backslash) }
    else if spec_name_eq(p, "COMMA"@) { PartAction::SetCode(KeyCode::Comma) }
    else if spec_name_eq(p, "PERIOD"@) { PartAction::SetCode(KeyCode::Period) }
    else if spec_name_eq(p, "SLASH"@) { PartAction::SetCode(KeyCode::Slash) }
    else if spec_name_eq(p, "NUMPAD0"@) { PartAction::SetCode(KeyCode::Numpad0) }
    else if spec_name_eq(p, "NUMPAD1"@) { PartAction::SetCode(KeyCode::Numpad1) }
    else if spec_name_eq(p, "NUMPAD2"@) { PartAction::SetCode(KeyCode::Numpad2) }
    else if spec_name_eq(p, "NUMPAD3"@) { PartAction::SetCode(KeyCode::Numpad3) }
    else if spec_name_eq(p, "NUMPAD4"@) { PartAction::SetCode(KeyCode::Numpad4) }
    else if spec_name_eq(p, "NUMPAD5"@) { PartAction::SetCode(KeyCode::Numpad5) }
    else if spec_name_eq(p, "NUMPAD6"@) { PartAction::SetCode(KeyCode::Numpad6) }
    else if spec_name_eq(p, "NUMPAD7"@) { PartAction::SetCode(KeyCode::Numpad7) }
    else if spec_name_eq(p, "NUMPAD8"@) { PartAction::SetCode(KeyCode::Numpad8) }
    else if spec_name_eq(p, "NUMPAD9"@) { PartAction::SetCode(KeyCode::Numpad9) }
    else if spec_name_eq(p, "NUMPADADD"@) { PartAction::SetCode(KeyCode::NumpadAdd) }
    else if spec_name_eq(p, "NUMPADSUBTRACT"@) { PartAction::SetCode(KeyCode::NumpadSubtract) }
    else if spec_name_eq(p, "NUMPADMULTIPLY"@) { PartAction::SetCode(KeyCode::NumpadMultiply) }
    else if spec_name_eq(p, "NUMPADDIVIDE"@) { PartAction::SetCode(KeyCode::NumpadDivide) }
    else if spec_name_eq(p, "NUMPADDECIMAL"@) { PartAction::SetCode(KeyCode::NumpadDecimal) }
    else if spec_name_eq(p, "NUMPADENTER"@) { PartAction::SetCode(KeyCode::NumpadEnter) }
    else if p.len() == 1 { PartAction::Single(p[0]) }
    else { PartAction::Unknown }
}

/// How a parse can come out, before error strings are rendered.
pub enum ParseOutcome {
    Found(Shortcut),
    /// A part that names no modifier and no key; carries the trimmed
    /// part.
    UnknownKey(Seq<char>),
    /// A single character that names no key.
    UnknownChar(char),
    /// Modifiers only, no key.
    NoKey,
}

/// Fold the remaining parts over the modifiers and key gathered so far.
pub open spec fn spec_fold_parts(
    parts: Seq<Seq<char>>,
    mods: Modifiers,
    code: Option<KeyCode>,
) -> ParseOutcome
    decreases parts.len(),
{
    if parts.len() == 0 {
        match code {
            Some(c) => ParseOutcome::Found(Shortcut { modifiers: mods, code: c }),
            None => ParseOutcome::NoKey,
        }
    } else {
        let p = spec_trim(parts[0]);
        let rest = parts.skip(1);
        match spec_part_action(p) {
            PartAction::AddControl => spec_fold_parts(
                rest,
                Modifiers { control: true, ..mods },
                code,
            ),
            PartAction::AddAlt => spec_fold_parts(rest, Modifiers { alt: true, ..mods }, code),
            PartAction::AddShift => spec_fold_parts(rest, Modifiers { shift: true, ..mods }, code),
            PartAction::AddMeta => spec_fold_parts(rest, Modifiers { meta: true, ..mods }, code),
            PartAction::SetCode(c) => spec_fold_parts(rest, mods, Some(c)),
            PartAction::Single(ch) => match spec_char_code(ch) {
                Some(c) => spec_fold_parts(rest, mods, Some(c)),
                None => ParseOutcome::UnknownChar(ch),
            },
            PartAction::Unknown => ParseOutcome::UnknownKey(p),
        }
    }
}

/// What a whole binding string parses to.
pub open spec fn spec_parse_shortcut(s: Seq<char>) -> ParseOutcome {
    spec_fold_parts(
        spec_split_parts(s),
        Modifiers { control: false, alt: false, shift: false, meta: false },
        None,
    )
}

fn norm_char(c: char) -> (r: u32)
    ensures
        r == spec_norm(c),
{
    let u = c as u32;
    if 97 <= u && u <= 122 {
        u - 32
    } else {
        u
    }
}

fn is_space_char(c: char) -> (r: bool)
    ensures
        r == spec_is_space(c),
{
    c == ' ' || c == '\t' || c == '\r' || c == '\n'
}

/// Whether the characters of `s` between `lo` and `hi` spell `kw`,
/// ignoring ASCII case.
fn name_matches(s: &str, lo: usize, hi: usize, kw: &str) -> (r: bool)
    requires
        lo <= hi <= s@.len(),
    ensures
        r == spec_name_eq(s@.subrange(lo as int, hi as int), kw@),
{
    let _sn: usize = s.unicode_len();
    let m: usize = kw.unicode_len();
    if hi - lo != m {
        return false;
    }
    let mut j: usize = 0;
    while j < m
        invariant
            j <= m,
            m == kw@.len(),
            lo + m == hi <= s@.len(),
            s@.len() <= usize::MAX,
            forall|k: int| 0 <= k < j ==> spec_norm(s@[lo + k]) == spec_norm(kw@[k]),
        decreases m - j,
    {
        if norm_char(s.get_char(lo + j)) != norm_char(kw.get_char(j)) {
            assert(!spec_name_eq(s@.subrange(lo as int, hi as int), kw@)) by {
                assert(s@.subrange(lo as int, hi as int)[j as int] == s@[lo + j]);
            }
            return false;
        }
        j = j + 1;
    }
    assert forall|i: int|
        0 <= i < hi - lo implies spec_norm(s@.subrange(lo as int, hi as int)[i]) == spec_norm(
        kw@[i],
    ) by {
        assert(s@.subrange(lo as int, hi as int)[i] == s@[lo + i]);
    }
    true
}

/// The key code of a single character: letters (either case) and
/// digits.
fn char_code(c: char) -> (r: Option<KeyCode>)
    ensures
        r == spec_char_code(c),
{
    let n = norm_char(c);
    if n == 'A' as u32 { Some(KeyCode::KeyA) }
    else if n == 'B' as u32 { Some(KeyCode::KeyB) }
    else if n == 'C' as u32 { Some(KeyCode::KeyC) }
    else if n == 'D' as u32 { Some(KeyCode::KeyD) }
    else if n == 'E' as u32 { Some(KeyCode::KeyE) }
    else if n == 'F' as u32 { Some(KeyCode::KeyF) }
    else if n == 'G' as u32 { Some(KeyCode::KeyG) }
    else if n == 'H' as u32 { Some(KeyCode::KeyH) }
    else if n == 'I' as u32 { Some(KeyCode::KeyI) }
    else if n == 'J' as u32 { Some(KeyCode::KeyJ) }
    else if n == 'K' as u32 { Some(KeyCode::KeyK) }
    else if n == 'L' as u32 { Some(KeyCode::KeyL) }
    else if n == 'M' as u32 { Some(KeyCode::KeyM) }
    else if n == 'N' as u32 { Some(KeyCode::KeyN) }
    else if n == 'O' as u32 { Some(KeyCode::KeyO) }
    else if n == 'P' as u32 { Some(KeyCode::KeyP) }
    else if n == 'Q' as u32 { Some(KeyCode::KeyQ) }
    else if n == 'R' as u32 { Some(KeyCode::KeyR) }
    else if n == 'S' as u32 { Some(KeyCode::KeyS) }
    else if n == 'T' as u32 { Some(KeyCode::KeyT) }
    else if n == 'U' as u32 { Some(KeyCode::KeyU) }
    else if n == 'V' as u32 { Some(KeyCode::KeyV) }
    else if n == 'W' as u32 { Some(KeyCode::KeyW) }
    else if n == 'X' as u32 { Some(KeyCode::KeyX) }
    else if n == 'Y' as u32 { Some(KeyCode::KeyY) }
    else if n == 'Z' as u32 { Some(KeyCode::KeyZ) }
    else if n == '0' as u32 { Some(KeyCode::Digit0) }
    else if n == '1' as u32 { Some(KeyCode::Digit1) }
    else if n == '2' as u32 { Some(KeyCode::Digit2) }
    else if n == '3' as u32 { Some(KeyCode::Digit3) }
    else if n == '4' as u32 { Some(KeyCode::Digit4) }
    else if n == '5' as u32 { Some(KeyCode::Digit5) }
    else if n == '6' as u32 { Some(KeyCode::Digit6) }
    else if n == '7' as u32 { Some(KeyCode::Digit7) }
    else if n == '8' as u32 { Some(KeyCode::Digit8) }
    else if n == '9' as u32 { Some(KeyCode::Digit9) }
    else { None }
}

/// The action of the trimmed part between `lo` and `hi`.
#[verifier::rlimit(50)]
fn part_action(s: &str, lo: usize, hi: usize) -> (r: PartAction)
    requires
        lo <= hi <= s@.len(),
    ensures
        r == spec_part_action(s@.subrange(lo as int, hi as int)),
{
    if name_matches(s, lo, hi, "CTRL") || name_matches(s, lo, hi, "CONTROL") {
        PartAction::AddControl
    } else if name_matches(s, lo, hi, "ALT") {
        PartAction::AddAlt
    } else if name_matches(s, lo, hi, "SHIFT") {
        PartAction::AddShift
    } else if name_matches(s, lo, hi, "SUPER") || name_matches(s, lo, hi, "WIN") || name_matches(
        s,
        lo,
        hi,
        "CMD",
    ) || name_matches(s, lo, hi, "META") {
        PartAction::AddMeta
    } else if name_matches(s, lo, hi, "SPACE") {
        PartAction::SetCode(KeyCode::Space)
    } else if name_matches(s, lo, hi, "ENTER") || name_matches(s, lo, hi, "RETURN") {
        PartAction::SetCode(KeyCode::Enter)
    } else if name_matches(s, lo, hi, "TAB") {
        PartAction::SetCode(KeyCode::Tab)
    } else if name_matches(s, lo, hi, "ESCAPE") || name_matches(s, lo, hi, "ESC") {
        PartAction::SetCode(KeyCode::Escape)
    } else if name_matches(s, lo, hi, "BACKSPACE") {
        PartAction::SetCode(KeyCode::Backspace)
    } else if name_matches(s, lo, hi, "DELETE") {
        PartAction::SetCode(KeyCode::Delete)
    } else if name_matches(s, lo, hi, "INSERT") {
        PartAction::SetCode(KeyCode::Insert)
    } else if name_matches(s, lo, hi, "HOME") {
        PartAction::SetCode(KeyCode::Home)
    } else if name_matches(s, lo, hi, "END") {
        PartAction::SetCode(KeyCode::End)
    } else if name_matches(s, lo, hi, "PAGEUP") {
        PartAction::SetCode(KeyCode::PageUp)
    } else if name_matches(s, lo, hi, "PAGEDOWN") {
        PartAction::SetCode(KeyCode::PageDown)
    } else if name_matches(s, lo, hi, "UP") {
        PartAction::SetCode(KeyCode::ArrowUp)
    } else if name_matches(s, lo, hi, "DOWN") {
        PartAction::SetCode(KeyCode::ArrowDown)
    } else if name_matches(s, lo, hi, "LEFT") {
        PartAction::SetCode(KeyCode::ArrowLeft)
    } else if name_matches(s, lo, hi, "RIGHT") {
        PartAction::SetCode(KeyCode::ArrowRight)
    } else if name_matches(s, lo, hi, "F1") {
        PartAction::SetCode(KeyCode::F1)
    } else if name_matches(s, lo, hi, "F2") {
        PartAction::SetCode(KeyCode::F2)
    } else if name_matches(s, lo, hi, "F3") {
        PartAction::SetCode(KeyCode::F3)
    } else if name_matches(s, lo, hi, "F4") {
        PartAction::SetCode(KeyCode::F4)
    } else if name_matches(s, lo, hi, "F5") {
        PartAction::SetCode(KeyCode::F5)
    } else if name_matches(s, lo, hi, "F6") {
        PartAction::SetCode(KeyCode::F6)
    } else if name_matches(s, lo, hi, "F7") {
        PartAction::SetCode(KeyCode::F7)
    } else if name_matches(s, lo, hi, "F8") {
        PartAction::SetCode(KeyCode::F8)
    } else if name_matches(s, lo, hi, "F9") {
        PartAction::SetCode(KeyCode::F9)
    } else if name_matches(s, lo, hi, "F10") {
        PartAction::SetCode(KeyCode::F10)
    } else if name_matches(s, lo, hi, "F11") {
        PartAction::SetCode(KeyCode::F11)
    } else if name_matches(s, lo, hi, "F12") {
        PartAction::SetCode(KeyCode::F12)
    } else if name_matches(s, lo, hi, "EQUAL") {
        PartAction::SetCode(KeyCode::Equal)
    } else if name_matches(s, lo, hi, "MINUS") {
        PartAction::SetCode(KeyCode::Minus)
    } else if name_matches(s, lo, hi, "BRACKETLEFT") {
        PartAction::SetCode(KeyCode::BracketLeft)
    } else if name_matches(s, lo, hi, "BRACKETRIGHT") {
        PartAction::SetCode(KeyCode::BracketRight)
    } else if name_matches(s, lo, hi, "SEMICOLON") {
        PartAction::SetCode(KeyCode::Semicolon)
    } else if name_matches(s, lo, hi, "QUOTE") {
        PartAction::SetCode(KeyCode::Quote)
    } else if name_matches(s, lo, hi, "BACKQUOTE") {
        PartAction::SetCode(KeyCode::Backquote)
    } else if name_matches(s, lo, hi, "BACKSLASH") {
        PartAction::SetCode(KeyCode::Backslash)
    } else if name_matches(s, lo, hi, "COMMA") {
        PartAction::SetCode(KeyCode::Comma)
    } else if name_matches(s, lo, hi, "PERIOD") {
        PartAction::SetCode(KeyCode::Period)
    } else if name_matches(s, lo, hi, "SLASH") {
        PartAction::SetCode(KeyCode::Slash)
    } else if name_matches(s, lo, hi, "NUMPAD0") {
        PartAction::SetCode(KeyCode::Numpad0)
    } else if name_matches(s, lo, hi, "NUMPAD1") {
        PartAction::SetCode(KeyCode::Numpad1)
    } else if name_matches(s, lo, hi, "NUMPAD2") {
        PartAction::SetCode(KeyCode::Numpad2)
    } else if name_matches(s, lo, hi, "NUMPAD3") {
        PartAction::SetCode(KeyCode::Numpad3)
    } else if name_matches(s, lo, hi, "NUMPAD4") {
        PartAction::SetCode(KeyCode::Numpad4)
    } else if name_matches(s, lo, hi, "NUMPAD5") {
        PartAction::SetCode(KeyCode::Numpad5)
    } else if name_matches(s, lo, hi, "NUMPAD6") {
        PartAction::SetCode(KeyCode::Numpad6)
    } else if name_matches(s, lo, hi, "NUMPAD7") {
        PartAction::SetCode(KeyCode::Numpad7)
    } else if name_matches(s, lo, hi, "NUMPAD8") {
        PartAction::SetCode(KeyCode::Numpad8)
    } else if name_matches(s, lo, hi, "NUMPAD9") {
        PartAction::SetCode(KeyCode::Numpad9)
    } else if name_matches(s, lo, hi, "NUMPADADD") {
        PartAction::SetCode(KeyCode::NumpadAdd)
    } else if name_matches(s, lo, hi, "NUMPADSUBTRACT") {
        PartAction::SetCode(KeyCode::NumpadSubtract)
    } else if name_matches(s, lo, hi, "NUMPADMULTIPLY") {
        PartAction::SetCode(KeyCode::NumpadMultiply)
    } else if name_matches(s, lo, hi, "NUMPADDIVIDE") {
        PartAction::SetCode(KeyCode::NumpadDivide)
    } else if name_matches(s, lo, hi, "NUMPADDECIMAL") {
        PartAction::SetCode(KeyCode::NumpadDecimal)
    } else if name_matches(s, lo, hi, "NUMPADENTER") {
        PartAction::SetCode(KeyCode::NumpadEnter)
    } else if hi - lo == 1 {
        let c = s.get_char(lo);
        proof {
            assert(s@.subrange(lo as int, hi as int)[0] == s@[lo as int]);
        }
        PartAction::Single(c)
    } else {
        PartAction::Unknown
    }
}

proof fn lemma_first_plus_at(s: Seq<char>, i: int)
    requires
        0 <= i <= s.len(),
        forall|k: int| 0 <= k < i ==> s[k] != '+',
        i < s.len() ==> s[i] == '+',
    ensures
        spec_first_plus(s) == i,
    decreases i,
{
    if i == 0 {
    } else {
        assert(s[0] != '+');
        lemma_first_plus_at(s.skip(1), i - 1);
    }
}

/// Parse a shortcut string like "Ctrl+Space" into a chord.
pub fn parse_shortcut(shortcut_str: &str) -> (r: Result<Shortcut, String>)
    ensures
        (spec_parse_shortcut(shortcut_str@) matches ParseOutcome::Found(sc) ==> r == Ok::<
            Shortcut,
            String,
        >(sc)),
        (spec_parse_shortcut(shortcut_str@) matches ParseOutcome::UnknownKey(p) ==> (r matches Err(
            m,
        ) && m@ == "Unknown key: "@ + p)),
        (spec_parse_shortcut(shortcut_str@) matches ParseOutcome::UnknownChar(c) ==> (r matches Err(
            m,
        ) && m@ == "Unknown character: "@ + seq![c])),
        (spec_parse_shortcut(shortcut_str@) is NoKey ==> (r matches Err(m) && m@
            == "No key specified"@)),
{
    let n: usize = shortcut_str.unicode_len();
    let mut mods = Modifiers::none();
    let mut code: Option<KeyCode> = None;
    let mut start: usize = 0;
    let mut done: bool = false;
    let ghost mut rem = spec_split_parts(shortcut_str@);
    proof {
        assert(shortcut_str@.skip(0) =~= shortcut_str@);
    }
    while !done
        invariant
            n == shortcut_str@.len(),
            !done ==> start <= n && rem == spec_split_parts(shortcut_str@.skip(start as int)),
            done ==> rem.len() == 0,
            spec_fold_parts(rem, mods, code) == spec_parse_shortcut(shortcut_str@),
        decreases n - start, (if done { 0int } else { 1int }),
    {
        let ghost mods0 = mods;
        let ghost code0 = code;
        // The current part runs to the next `+` or the end.
        let mut end: usize = start;
        while end < n && shortcut_str.get_char(end) != '+'
            invariant
                start <= end <= n,
                n == shortcut_str@.len(),
                forall|k: int| start <= k < end ==> shortcut_str@[k] != '+',
            decreases n - end,
        {
            end = end + 1;
        }
        let ghost part = shortcut_str@.subrange(start as int, end as int);
        let ghost suffix = shortcut_str@.skip(start as int);
        proof {
            assert forall|k: int| 0 <= k < end - start implies suffix[k] != '+' by {
                assert(suffix[k] == shortcut_str@[start + k]);
            }
            if end < n {
                assert(suffix[end - start] == shortcut_str@[end as int]);
            }
            lemma_first_plus_at(suffix, end - start);
            assert(suffix.take(end - start) =~= part);
            if end == n {
                assert(suffix =~= part);
                assert(rem == seq![part]);
                assert(rem.skip(1) =~= Seq::<Seq<char>>::empty());
            } else {
                assert(suffix.skip(end - start + 1) =~= shortcut_str@.skip(end + 1));
                assert(rem == seq![part] + spec_split_parts(shortcut_str@.skip(end + 1)));
                assert(rem.skip(1) =~= spec_split_parts(shortcut_str@.skip(end + 1)));
            }
            assert(rem.len() > 0 && rem[0] == part);
        }
        // Trim surrounding whitespace.
        let mut tlo: usize = start;
        while tlo < end && is_space_char(shortcut_str.get_char(tlo))
            invariant
                start <= tlo <= end <= n,
                n == shortcut_str@.len(),
                spec_trim_start(shortcut_str@.subrange(start as int, end as int))
                    == spec_trim_start(shortcut_str@.subrange(tlo as int, end as int)),
            decreases end - tlo,
        {
            proof {
                let cur = shortcut_str@.subrange(tlo as int, end as int);
                assert(cur[0] == shortcut_str@[tlo as int]);
                assert(cur.skip(1) =~= shortcut_str@.subrange(tlo + 1, end as int));
            }
            tlo = tlo + 1;
        }
        proof {
            let cur = shortcut_str@.subrange(tlo as int, end as int);
            if tlo < end {
                assert(cur[0] == shortcut_str@[tlo as int]);
            }
            assert(spec_trim_start(part) == cur);
        }
        let mut thi: usize = end;
        while thi > tlo && is_space_char(shortcut_str.get_char(thi - 1))
            invariant
                tlo <= thi <= end <= n,
                n == shortcut_str@.len(),
                spec_trim_end(shortcut_str@.subrange(tlo as int, end as int)) == spec_trim_end(
                    shortcut_str@.subrange(tlo as int, thi as int),
                ),
            decreases thi,
        {
            proof {
                let cur = shortcut_str@.subrange(tlo as int, thi as int);
                assert(cur.last() == shortcut_str@[thi - 1]);
                assert(cur.drop_last() =~= shortcut_str@.subrange(tlo as int, thi - 1));
            }
            thi = thi - 1;
        }
        proof {
            let cur = shortcut_str@.subrange(tlo as int, thi as int);
            if thi > tlo {
                assert(cur.last() == shortcut_str@[thi - 1]);
            }
            assert(spec_trim(part) == cur);
        }
        let action = part_action(shortcut_str, tlo, thi);
        match action {
            PartAction::AddControl => {
                mods = Modifiers { control: true, ..mods };
            },
            PartAction::AddAlt => {
                mods = Modifiers { alt: true, ..mods };
            },
            PartAction::AddShift => {
                mods = Modifiers { shift: true, ..mods };
            },
            PartAction::AddMeta => {
                mods = Modifiers { meta: true, ..mods };
            },
            PartAction::SetCode(k) => {
                code = Some(k);
            },
            PartAction::Single(c) => {
                match char_code(c) {
                    Some(k) => {
                        code = Some(k);
                    },
                    None => {
                        let mut msg = "Unknown character: ".to_owned();
                        msg.append(shortcut_str.substring_char(tlo, tlo + 1));
                        proof {
                            assert(shortcut_str@.subrange(tlo as int, tlo + 1) =~= seq![c]);
                        }
                        return Err(msg);
                    },
                }
            },
            PartAction::Unknown => {
                let mut msg = "Unknown key: ".to_owned();
                msg.append(shortcut_str.substring_char(tlo, thi));
                return Err(msg);
            },
        }
        proof {
            rem = rem.skip(1);
        }
        if end == n {
            done = true;
        } else {
            start = end + 1;
        }
    }
    match code {
        Some(k) => Ok(Shortcut { modifiers: mods, code: k }),
        None => Err("No key specified".to_owned()),
    }
}

} // verus!
