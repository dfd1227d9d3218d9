use rustle::navigation::SettingsSection;
use rustle::settings::{
    key_to_keycode, keycode_of_lowercase, language_of, optional_field, proxy_port_edit,
    section_from_scroll_position, section_scroll_position, BindingEdit, BindingEditor, KeyCode,
    KeyInput, Language, ModifierSet, NamedKey, PortEdit,
};

const SECTIONS: [SettingsSection; 8] = [
    SettingsSection::Account,
    SettingsSection::Playback,
    SettingsSection::Display,
    SettingsSection::System,
    SettingsSection::Network,
    SettingsSection::Storage,
    SettingsSection::Shortcuts,
    SettingsSection::About,
];

#[test]
fn section_positions() {
    assert_eq!(section_scroll_position(SettingsSection::Account, true), 0);
    assert_eq!(section_scroll_position(SettingsSection::Playback, false), 150);
    assert_eq!(section_scroll_position(SettingsSection::Playback, true), 230);
    assert_eq!(section_scroll_position(SettingsSection::About, false), 1965);
}

#[test]
fn scroll_positions_select_sections() {
    assert_eq!(section_from_scroll_position(0, false), SettingsSection::Account);
    assert_eq!(section_from_scroll_position(99, false), SettingsSection::Account);
    assert_eq!(section_from_scroll_position(100, false), SettingsSection::Playback);
    assert_eq!(section_from_scroll_position(100, true), SettingsSection::Account);
    assert_eq!(section_from_scroll_position(180, true), SettingsSection::Playback);
    assert_eq!(section_from_scroll_position(5000, false), SettingsSection::About);
    for s in SECTIONS {
        for logged_in in [false, true] {
            let y = section_scroll_position(s, logged_in) as i64;
            assert_eq!(section_from_scroll_position(y, logged_in), s);
        }
    }
}

#[test]
fn proxy_fields() {
    assert_eq!(proxy_port_edit("8080"), PortEdit::Port(8080));
    assert_eq!(proxy_port_edit(""), PortEdit::Cleared);
    assert_eq!(proxy_port_edit("70000"), PortEdit::Ignored);
    assert_eq!(proxy_port_edit("80a"), PortEdit::Ignored);
    assert_eq!(optional_field(&String::new()), None);
    assert_eq!(optional_field(&"bob".to_string()), Some("bob".to_string()));
    assert_eq!(language_of("zh"), Language::Chinese);
    assert_eq!(language_of("en"), Language::English);
}

#[test]
fn key_codes() {
    assert_eq!(key_to_keycode(&KeyInput::Character("A".to_string())), Some(KeyCode::A));
    assert_eq!(key_to_keycode(&KeyInput::Character("7".to_string())), Some(KeyCode::Key7));
    assert_eq!(key_to_keycode(&KeyInput::Character("ab".to_string())), None);
    assert_eq!(key_to_keycode(&KeyInput::Character("?".to_string())), None);
    assert_eq!(key_to_keycode(&KeyInput::Named(NamedKey::ArrowUp)), Some(KeyCode::Up));
    assert_eq!(key_to_keycode(&KeyInput::Named(NamedKey::Other)), None);
    assert_eq!(key_to_keycode(&KeyInput::Unidentified), None);
    assert_eq!(keycode_of_lowercase("z"), Some(KeyCode::Z));
}

#[test]
fn recording_shortcuts() {
    let mods = ModifierSet { ctrl: true, cmd: false, alt: false, shift: true };
    let mut e: BindingEditor<u8> = BindingEditor::new();
    assert!(matches!(e.key_pressed(&KeyInput::Named(NamedKey::Space), mods), BindingEdit::Nothing));
    e.start(3);
    assert!(matches!(e.key_pressed(&KeyInput::Named(NamedKey::Other), mods), BindingEdit::Nothing));
    assert_eq!(e.editing, Some(3));
    match e.key_pressed(&KeyInput::Character("K".to_string()), mods) {
        BindingEdit::Bind(a, b) => {
            assert_eq!(a, 3);
            assert_eq!(b.key, KeyCode::K);
            assert_eq!(b.modifiers, mods);
        }
        _ => panic!("expected a binding"),
    }
    assert_eq!(e.editing, None);
    e.start(4);
    assert!(matches!(e.key_pressed(&KeyInput::Named(NamedKey::Backspace), mods), BindingEdit::Clear(4)));
    e.start(5);
    e.cancel();
    assert_eq!(e.editing, None);
}

#[test]
fn port_text_reads_like_std_parse() {
    for text in ["+80", "-1", "+", "0", "65535", "65536", "007", " 80", "99999999999", "٣"] {
        let expected = match text.parse::<u16>() {
            Ok(p) => PortEdit::Port(p),
            Err(_) => PortEdit::Ignored,
        };
        assert_eq!(proxy_port_edit(text), expected, "text {:?}", text);
    }
}
