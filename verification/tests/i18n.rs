use rustle::i18n::{translate, translations, Key, KEY_COUNT};
use std::collections::HashSet;

#[test]
fn chinese_texts() {
    assert_eq!(translate(Key::AppName), "Rustle");
    assert_eq!(translate(Key::NavHome), "首页");
    assert_eq!(translate(Key::ExitDialogMinimize), "最小化到托盘");
}

#[test]
fn table_lists_every_key_once() {
    let t = translations();
    assert_eq!(t.len(), KEY_COUNT);
    let keys: HashSet<Key> = t.iter().map(|(k, _)| *k).collect();
    assert_eq!(keys.len(), KEY_COUNT);
    for (k, text) in &t {
        assert_eq!(translate(*k), *text);
        assert!(!text.is_empty());
    }
}
