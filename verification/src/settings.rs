//! Settings page decisions: where each section of the scrolling settings
//! page starts and which section a scroll position shows, the proxy fields,
//! the interface language, and the editing of keyboard shortcuts.

use vstd::prelude::*;

use crate::navigation::SettingsSection;
use crate::strings::str_equal;

verus! {

/// Extra height of the account section when logged in, in pixels.
pub const LOGGED_IN_OFFSET: i64 = 80;

/// A section counts as shown this many pixels before it reaches the top.
pub const SECTION_LEAD: i64 = 50;

/// Where a section starts on the page of a logged-out user, in pixels.
pub open spec fn section_base(s: SettingsSection) -> int {
    match s {
        SettingsSection::Account => 0,
        SettingsSection::Playback => 150,
        SettingsSection::Display => 500,
        SettingsSection::System => 850,
        SettingsSection::Network => 1000,
        SettingsSection::Storage => 1150,
        SettingsSection::Shortcuts => 1390,
        SettingsSection::About => 1965,
    }
}

fn section_base_exec(s: SettingsSection) -> (r: u32)
    ensures
        r == section_base(s),
{
    match s {
        SettingsSection::Account => 0,
        SettingsSection::Playback => 150,
        SettingsSection::Display => 500,
        SettingsSection::System => 850,
        SettingsSection::Network => 1000,
        SettingsSection::Storage => 1150,
        SettingsSection::Shortcuts => 1390,
        SettingsSection::About => 1965,
    }
}

/// Where a section starts: below the account section every section moves
/// down when logged in.
pub open spec fn section_position(s: SettingsSection, logged_in: bool) -> int {
    if logged_in && s != SettingsSection::Account {
        section_base(s) + LOGGED_IN_OFFSET
    } else {
        section_base(s)
    }
}

/// The scroll position, in pixels, at which a section starts.
pub fn section_scroll_position(section: SettingsSection, is_logged_in: bool) -> (r: u32)
    ensures
        r == section_position(section, is_logged_in),
{
    let base = section_base_exec(section);
    if is_logged_in && section != SettingsSection::Account {
        base + 80
    } else {
        base
    }
}

/// The section shown at a scroll position: the last section (in page
/// order) that starts at or above the position plus the lead, the account
/// section when none does.
pub open spec fn section_at(y: int, logged_in: bool) -> SettingsSection {
    let probe = (if logged_in {
        y - LOGGED_IN_OFFSET
    } else {
        y
    }) + SECTION_LEAD;
    if probe >= 1965 {
        SettingsSection::About
    } else if probe >= 1390 {
        SettingsSection::Shortcuts
    } else if probe >= 1150 {
        SettingsSection::Storage
    } else if probe >= 1000 {
        SettingsSection::Network
    } else if probe >= 850 {
        SettingsSection::System
    } else if probe >= 500 {
        SettingsSection::Display
    } else if probe >= 150 {
        SettingsSection::Playback
    } else {
        SettingsSection::Account
    }
}

/// The section shown at a scroll position, given in whole pixels (the
/// positions of sections are whole pixels, so the fraction does not count).
pub fn section_from_scroll_position(y_offset: i64, is_logged_in: bool) -> (r: SettingsSection)
    requires
        i64::MIN + LOGGED_IN_OFFSET <= y_offset <= i64::MAX - SECTION_LEAD,
    ensures
        r == section_at(y_offset as int, is_logged_in),
{
    let adjusted = if is_logged_in {
        y_offset - LOGGED_IN_OFFSET
    } else {
        y_offset
    };
    let probe = adjusted + SECTION_LEAD;
    if probe >= 1965 {
        SettingsSection::About
    } else if probe >= 1390 {
        SettingsSection::Shortcuts
    } else if probe >= 1150 {
        SettingsSection::Storage
    } else if probe >= 1000 {
        SettingsSection::Network
    } else if probe >= 850 {
        SettingsSection::System
    } else if probe >= 500 {
        SettingsSection::Display
    } else if probe >= 150 {
        SettingsSection::Playback
    } else {
        SettingsSection::Account
    }
}

/// Scrolling to where a section starts shows that section.
pub proof fn lemma_scroll_to_section_shows_it(s: SettingsSection, logged_in: bool)
    ensures
        section_at(section_position(s, logged_in), logged_in) == s,
{
}

/// Whether a character is a decimal digit.
pub open spec fn is_digit(c: char) -> bool {
    '0' <= c && c <= '9'
}

/// The number that decimal digits write.
pub open spec fn digits_value(d: Seq<char>) -> nat
    decreases d.len(),
{
    if d.len() == 0 {
        0
    } else {
        digits_value(d.drop_last()) * 10 + ((d.last() as int) - ('0' as int)) as nat
    }
}

/// The digits of a number text: the text without a leading `+`.
pub open spec fn number_digits(s: Seq<char>) -> Seq<char> {
    if s.len() > 0 && s[0] == '+' {
        s.drop_first()
    } else {
        s
    }
}

/// Whether a text is one or more decimal digits.
pub open spec fn all_digits(d: Seq<char>) -> bool {
    d.len() > 0 && forall|i: int| 0 <= i < d.len() ==> is_digit(#[trigger] d[i])
}

/// The number a text writes, as `str::parse::<u16>` reads it: an optional
/// `+`, then at least one decimal digit and nothing else, for a value that
/// fits in sixteen bits.
pub open spec fn parsed_u16(s: Seq<char>) -> Option<u16> {
    if all_digits(number_digits(s)) && digits_value(number_digits(s)) <= 65535 {
        Some(digits_value(number_digits(s)) as u16)
    } else {
        None
    }
}

/// The value of digits, capped just above the largest 16-bit number.
pub open spec fn capped(v: nat) -> nat {
    if v > 65535 {
        65536
    } else {
        v
    }
}

/// Reads a number as `str::parse::<u16>` does.
fn parse_u16(s: &str) -> (r: Option<u16>)
    ensures
        r == parsed_u16(s@),
{
    let n = s.unicode_len();
    let start: usize = if n > 0 && s.get_char(0) == '+' {
        1
    } else {
        0
    };
    let ghost d = s@.skip(start as int);
    assert(d =~= number_digits(s@));
    if start == n {
        return None;
    }
    let mut val: u32 = 0;
    let mut i: usize = start;
    while i < n
        invariant
            n == s@.len(),
            start <= i <= n,
            d == s@.skip(start as int),
            d == number_digits(s@),
            forall|j: int| 0 <= j < i - start ==> is_digit(#[trigger] d[j]),
            val == capped(digits_value(d.take(i - start))),
        decreases n - i,
    {
        let c = s.get_char(i);
        if !('0' <= c && c <= '9') {
            assert(d[i - start] == c);
            assert(!is_digit(d[i - start]));
            return None;
        }
        let ghost k = i - start;
        let ghost before = digits_value(d.take(k));
        assert(d.take(k + 1).drop_last() =~= d.take(k));
        assert(d.take(k + 1).last() == c);
        let dv = (c as u32) - 48;
        if val == 65536 {
            assert(before * 10 + dv >= 65536) by (nonlinear_arith)
                requires
                    before > 65535,
            ;
        } else {
            val = val * 10 + dv;
            if val > 65535 {
                val = 65536;
            }
        }
        i = i + 1;
    }
    assert(d.take(n - start) =~= d);
    if val > 65535 {
        None
    } else {
        Some(val as u16)
    }
}

/// What an edit of the proxy port field leads to.
#[derive(Debug, Clone, Copy, PartialEq, Eq, Structural)]
pub enum PortEdit {
    /// The field holds a port: it is taken, saved and applied.
    Port(u16),
    /// The field was emptied: the port becomes 0, nothing is saved.
    Cleared,
    /// The field holds no port: nothing changes.
    Ignored,
}

/// Reads an edit of the proxy port field.
pub fn proxy_port_edit(port_str: &str) -> (r: PortEdit)
    ensures
        parsed_u16(port_str@) matches Some(p) ==> r == PortEdit::Port(p),
        parsed_u16(port_str@) is None && port_str@.len() == 0 ==> r == PortEdit::Cleared,
        parsed_u16(port_str@) is None && port_str@.len() > 0 ==> r == PortEdit::Ignored,
{
    match parse_u16(port_str) {
        Some(p) => PortEdit::Port(p),
        None => if port_str.unicode_len() == 0 {
            PortEdit::Cleared
        } else {
            PortEdit::Ignored
        },
    }
}

/// An optional credential field: an empty field is no credential.
pub fn optional_field(value: &String) -> (r: Option<String>)
    ensures
        value@.len() == 0 ==> r is None,
        value@.len() > 0 ==> (r matches Some(v) && v@ == value@),
{
    if value.as_str().unicode_len() == 0 {
        None
    } else {
        Some(value.clone())
    }
}

/// The languages of the interface.
#[derive(Debug, Clone, Copy, PartialEq, Eq, Structural)]
pub enum Language {
    Chinese,
    English,
}

/// The language of a language setting: Chinese for "zh", English for any
/// other.
pub fn language_of(setting: &str) -> (r: Language)
    ensures
        setting@ == "zh"@ ==> r == Language::Chinese,
        setting@ != "zh"@ ==> r == Language::English,
{
    if str_equal(setting, "zh") {
        Language::Chinese
    } else {
        Language::English
    }
}

/// Keys that a shortcut can be bound to.
#[derive(Debug, Clone, Copy, PartialEq, Eq, Structural)]
pub enum KeyCode {
    A, B, C, D, E, F, G, H, I, J, K, L, M, N, O, P, Q, R, S, T, U, V, W, X, Y, Z,
    Key0, Key1, Key2, Key3, Key4, Key5, Key6, Key7, Key8, Key9,
    Space, Enter, Escape, Tab, Backspace, Delete,
    Up, Down, Left, Right, Home, End, PageUp, PageDown,
    F1, F2, F3, F4, F5, F6, F7, F8, F9, F10, F11, F12,
}

/// Named keys as the keyboard reports them.
#[derive(Debug, Clone, Copy, PartialEq, Eq, Structural)]
pub enum NamedKey {
    Space, Enter, Escape, Tab, Backspace, Delete,
    ArrowUp, ArrowDown, ArrowLeft, ArrowRight, Home, End, PageUp, PageDown,
    F1, F2, F3, F4, F5, F6, F7, F8, F9, F10, F11, F12,
    /// Any other named key.
    Other,
}

/// A key press as the keyboard reports it.
#[derive(Debug)]
pub enum KeyInput {
    /// A key that types text.
    Character(String),
    Named(NamedKey),
    Unidentified,
}

/// The key code of a named key.
pub open spec fn named_code(n: NamedKey) -> Option<KeyCode> {
    match n {
        NamedKey::Space => Some(KeyCode::Space),
        NamedKey::Enter => Some(KeyCode::Enter),
        NamedKey::Escape => Some(KeyCode::Escape),
        NamedKey::Tab => Some(KeyCode::Tab),
        NamedKey::Backspace => Some(KeyCode::Backspace),
        NamedKey::Delete => Some(KeyCode::Delete),
        NamedKey::ArrowUp => Some(KeyCode::Up),
        NamedKey::ArrowDown => Some(KeyCode::Down),
        NamedKey::ArrowLeft => Some(KeyCode::Left),
        NamedKey::ArrowRight => Some(KeyCode::Right),
        NamedKey::Home => Some(KeyCode::Home),
        NamedKey::End => Some(KeyCode::End),
        NamedKey::PageUp => Some(KeyCode::PageUp),
        NamedKey::PageDown => Some(KeyCode::PageDown),
        NamedKey::F1 => Some(KeyCode::F1),
        NamedKey::F2 => Some(KeyCode::F2),
        NamedKey::F3 => Some(KeyCode::F3),
        NamedKey::F4 => Some(KeyCode::F4),
        NamedKey::F5 => Some(KeyCode::F5),
        NamedKey::F6 => Some(KeyCode::F6),
        NamedKey::F7 => Some(KeyCode::F7),
        NamedKey::F8 => Some(KeyCode::F8),
        NamedKey::F9 => Some(KeyCode::F9),
        NamedKey::F10 => Some(KeyCode::F10),
        NamedKey::F11 => Some(KeyCode::F11),
        NamedKey::F12 => Some(KeyCode::F12),
        NamedKey::Other => None,
    }
}

/// The key code of a typed character (in lower case): the letters and the
/// digits.
pub open spec fn char_code(c: char) -> Option<KeyCode> {
    if c == 'a' { Some(KeyCode::A) }
    else if c == 'b' { Some(KeyCode::B) }
    else if c == 'c' { Some(KeyCode::C) }
    else if c == 'd' { Some(KeyCode::D) }
    else if c == 'e' { Some(KeyCode::E) }
    else if c == 'f' { Some(KeyCode::F) }
    else if c == 'g' { Some(KeyCode::G) }
    else if c == 'h' { Some(KeyCode::H) }
    else if c == 'i' { Some(KeyCode::I) }
    else if c == 'j' { Some(KeyCode::J) }
    else if c == 'k' { Some(KeyCode::K) }
    else if c == 'l' { Some(KeyCode::L) }
    else if c == 'm' { Some(KeyCode::M) }
    else if c == 'n' { Some(KeyCode::N) }
    else if c == 'o' { Some(KeyCode::O) }
    else if c == 'p' { Some(KeyCode::P) }
    else if c == 'q' { Some(KeyCode::Q) }
    else if c == 'r' { Some(KeyCode::R) }
    else if c == 's' { Some(KeyCode::S) }
    else if c == 't' { Some(KeyCode::T) }
    else if c == 'u' { Some(KeyCode::U) }
    else if c == 'v' { Some(KeyCode::V) }
    else if c == 'w' { Some(KeyCode::W) }
    else if c == 'x' { Some(KeyCode::X) }
    else if c == 'y' { Some(KeyCode::Y) }
    else if c == 'z' { Some(KeyCode::Z) }
    else if c == '0' { Some(KeyCode::Key0) }
    else if c == '1' { Some(KeyCode::Key1) }
    else if c == '2' { Some(KeyCode::Key2) }
    else if c == '3' { Some(KeyCode::Key3) }
    else if c == '4' { Some(KeyCode::Key4) }
    else if c == '5' { Some(KeyCode::Key5) }
    else if c == '6' { Some(KeyCode::Key6) }
    else if c == '7' { Some(KeyCode::Key7) }
    else if c == '8' { Some(KeyCode::Key8) }
    else if c == '9' { Some(KeyCode::Key9) }
    else { None }
}

fn char_code_exec(c: char) -> (r: Option<KeyCode>)
    ensures
        r == char_code(c),
{
    if c == 'a' { Some(KeyCode::A) }
    else if c == 'b' { Some(KeyCode::B) }
    else if c == 'c' { Some(KeyCode::C) }
    else if c == 'd' { Some(KeyCode::D) }
    else if c == 'e' { Some(KeyCode::E) }
    else if c == 'f' { Some(KeyCode::F) }
    else if c == 'g' { Some(KeyCode::G) }
    else if c == 'h' { Some(KeyCode::H) }
    else if c == 'i' { Some(KeyCode::I) }
    else if c == 'j' { Some(KeyCode::J) }
    else if c == 'k' { Some(KeyCode::K) }
    else if c == 'l' { Some(KeyCode::L) }
    else if c == 'm' { Some(KeyCode::M) }
    else if c == 'n' { Some(KeyCode::N) }
    else if c == 'o' { Some(KeyCode::O) }
    else if c == 'p' { Some(KeyCode::P) }
    else if c == 'q' { Some(KeyCode::Q) }
    else if c == 'r' { Some(KeyCode::R) }
    else if c == 's' { Some(KeyCode::S) }
    else if c == 't' { Some(KeyCode::T) }
    else if c == 'u' { Some(KeyCode::U) }
    else if c == 'v' { Some(KeyCode::V) }
    else if c == 'w' { Some(KeyCode::W) }
    else if c == 'x' { Some(KeyCode::X) }
    else if c == 'y' { Some(KeyCode::Y) }
    else if c == 'z' { Some(KeyCode::Z) }
    else if c == '0' { Some(KeyCode::Key0) }
    else if c == '1' { Some(KeyCode::Key1) }
    else if c == '2' { Some(KeyCode::Key2) }
    else if c == '3' { Some(KeyCode::Key3) }
    else if c == '4' { Some(KeyCode::Key4) }
    else if c == '5' { Some(KeyCode::Key5) }
    else if c == '6' { Some(KeyCode::Key6) }
    else if c == '7' { Some(KeyCode::Key7) }
    else if c == '8' { Some(KeyCode::Key8) }
    else if c == '9' { Some(KeyCode::Key9) }
    else { None }
}

/// The lower case form of a text, as `str::to_lowercase` gives it.
pub uninterp spec fn lowercase(s: Seq<char>) -> Seq<char>;

/// Whether every character of a text is ASCII.
pub open spec fn all_ascii(s: Seq<char>) -> bool {
    forall|i: int| 0 <= i < s.len() ==> (#[trigger] s[i] as u32) < 128
}

/// The ASCII lower case of a character: `A` to `Z` become `a` to `z`, every
/// other character stays.
pub open spec fn ascii_lower_char(c: char) -> char {
    if 'A' <= c && c <= 'Z' {
        ((c as u32) + 32) as char
    } else {
        c
    }
}

/// `str::to_lowercase`: the lower case of a text by Unicode's case mapping.
/// The contract names the result; of an ASCII text it states it, as the
/// Unicode mapping gives it: `A` to `Z` become `a` to `z`, one for one,
/// and every other ASCII character stays.
#[verifier::external_body]
fn to_lowercase(s: &str) -> (r: String)
    ensures
        r@ == lowercase(s@),
        all_ascii(s@) ==> r@ == s@.map_values(|c: char| ascii_lower_char(c)),
{
    s.to_lowercase()
}

/// The key code of a typed text given in lower case: a single letter or
/// digit has one.
pub open spec fn text_code(lower: Seq<char>) -> Option<KeyCode> {
    if lower.len() == 1 {
        char_code(lower[0])
    } else {
        None
    }
}

/// The key code of a typed text, once it is in lower case.
pub fn keycode_of_lowercase(lower: &str) -> (r: Option<KeyCode>)
    ensures
        r == text_code(lower@),
{
    if lower.unicode_len() == 1 {
        char_code_exec(lower.get_char(0))
    } else {
        None
    }
}

/// The key code of a key press, where it has one.
pub open spec fn key_code_of(k: KeyInput) -> Option<KeyCode> {
    match k {
        KeyInput::Character(s) => text_code(lowercase(s@)),
        KeyInput::Named(n) => named_code(n),
        KeyInput::Unidentified => None,
    }
}

/// Converts a key press into a key code.
pub fn key_to_keycode(key: &KeyInput) -> (r: Option<KeyCode>)
    ensures
        r == key_code_of(*key),
        (key matches KeyInput::Character(t) && all_ascii(t@)) ==> r == text_code(
            key->Character_0@.map_values(|c: char| ascii_lower_char(c)),
        ),
{
    match key {
        KeyInput::Character(c) => {
            let lower = to_lowercase(c.as_str());
            keycode_of_lowercase(lower.as_str())
        },
        KeyInput::Named(n) => match n {
            NamedKey::Space => Some(KeyCode::Space),
            NamedKey::Enter => Some(KeyCode::Enter),
            NamedKey::Escape => Some(KeyCode::Escape),
            NamedKey::Tab => Some(KeyCode::Tab),
            NamedKey::Backspace => Some(KeyCode::Backspace),
            NamedKey::Delete => Some(KeyCode::Delete),
            NamedKey::ArrowUp => Some(KeyCode::Up),
            NamedKey::ArrowDown => Some(KeyCode::Down),
            NamedKey::ArrowLeft => Some(KeyCode::Left),
            NamedKey::ArrowRight => Some(KeyCode::Right),
            NamedKey::Home => Some(KeyCode::Home),
            NamedKey::End => Some(KeyCode::End),
            NamedKey::PageUp => Some(KeyCode::PageUp),
            NamedKey::PageDown => Some(KeyCode::PageDown),
            NamedKey::F1 => Some(KeyCode::F1),
            NamedKey::F2 => Some(KeyCode::F2),
            NamedKey::F3 => Some(KeyCode::F3),
            NamedKey::F4 => Some(KeyCode::F4),
            NamedKey::F5 => Some(KeyCode::F5),
            NamedKey::F6 => Some(KeyCode::F6),
            NamedKey::F7 => Some(KeyCode::F7),
            NamedKey::F8 => Some(KeyCode::F8),
            NamedKey::F9 => Some(KeyCode::F9),
            NamedKey::F10 => Some(KeyCode::F10),
            NamedKey::F11 => Some(KeyCode::F11),
            NamedKey::F12 => Some(KeyCode::F12),
            NamedKey::Other => None,
        },
        KeyInput::Unidentified => None,
    }
}

/// The modifier keys of a shortcut.
#[derive(Debug, Clone, Copy, PartialEq, Eq, Structural)]
pub struct ModifierSet {
    pub ctrl: bool,
    pub cmd: bool,
    pub alt: bool,
    pub shift: bool,
}

/// A keyboard shortcut.
#[derive(Debug, Clone, Copy, PartialEq, Eq, Structural)]
pub struct KeyBinding {
    pub modifiers: ModifierSet,
    pub key: KeyCode,
}

/// What a key press during the editing of a shortcut does.
#[derive(Debug, Clone, Copy)]
pub enum BindingEdit<A> {
    /// Nothing is being edited, or the key cannot be bound.
    Nothing,
    /// Delete or Backspace: the action loses its shortcut.
    Clear(A),
    /// The action gets this shortcut.
    Bind(A, KeyBinding),
}

/// The editing of a keyboard shortcut: the action whose shortcut is being
/// recorded.
#[derive(Debug, Clone, Copy)]
pub struct BindingEditor<A> {
    pub editing: Option<A>,
}

impl<A: Copy> BindingEditor<A> {
    pub fn new() -> (r: Self)
        ensures
            r.editing is None,
    {
        BindingEditor { editing: None }
    }

    /// Starts recording a shortcut for an action.
    pub fn start(&mut self, action: A)
        ensures
            final(self).editing == Some(action),
    {
        self.editing = Some(action);
    }

    /// Stops recording.
    pub fn cancel(&mut self)
        ensures
            final(self).editing is None,
    {
        self.editing = None;
    }

    /// A key was pressed while recording: Delete or Backspace clears the
    /// shortcut, a bindable key becomes the shortcut (with the modifiers
    /// held); either ends the recording. Other keys change nothing.
    pub fn key_pressed(&mut self, key: &KeyInput, modifiers: ModifierSet) -> (r: BindingEdit<A>)
        ensures
            old(self).editing is None ==> r == BindingEdit::<A>::Nothing && final(self).editing
                is None,
            old(self).editing matches Some(a) ==> (if (*key matches KeyInput::Named(n) && (n
                == NamedKey::Delete || n == NamedKey::Backspace)) {
                r == BindingEdit::Clear(a) && final(self).editing is None
            } else if key_code_of(*key) is Some {
                r == BindingEdit::Bind(a, KeyBinding { modifiers, key: key_code_of(*key)->0 })
                    && final(self).editing is None
            } else {
                r == BindingEdit::<A>::Nothing && final(self).editing == old(self).editing
            }),
    {
        let action = match self.editing {
            None => return BindingEdit::Nothing,
            Some(a) => a,
        };
        let clears = match key {
            KeyInput::Named(NamedKey::Delete) | KeyInput::Named(NamedKey::Backspace) => true,
            _ => false,
        };
        if clears {
            self.editing = None;
            return BindingEdit::Clear(action);
        }
        match key_to_keycode(key) {
            Some(code) => {
                self.editing = None;
                BindingEdit::Bind(action, KeyBinding { modifiers, key: code })
            },
            None => BindingEdit::Nothing,
        }
    }
}

} // verus!
