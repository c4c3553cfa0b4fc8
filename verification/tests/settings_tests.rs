use snaplate::settings::AppSettings;
use snaplate::settings::PrimaryAction;

fn sample() -> AppSettings {
    AppSettings {
        shortcut: String::from("Ctrl+Shift+A"),
        view_image_shortcut: String::from("F3"),
        target_lang: String::from("en"),
        primary_action: PrimaryAction::RecognizeTranslate,
        autostart: true,
        enable_ocr: true,
        enable_translation: true,
        preserve_line_breaks: false,
    }
}

fn assert_same(a: &AppSettings, b: &AppSettings) {
    assert_eq!(a.shortcut, b.shortcut);
    assert_eq!(a.view_image_shortcut, b.view_image_shortcut);
    assert_eq!(a.target_lang, b.target_lang);
    assert_eq!(a.primary_action, b.primary_action);
    assert_eq!(a.autostart, b.autostart);
    assert_eq!(a.enable_ocr, b.enable_ocr);
    assert_eq!(a.enable_translation, b.enable_translation);
    assert_eq!(a.preserve_line_breaks, b.preserve_line_breaks);
}

#[test]
fn default_settings_match_first_run_expectations() {
    let d = AppSettings::default();
    assert_eq!(d.shortcut, "F1");
    assert_eq!(d.view_image_shortcut, "F3");
    assert_eq!(d.target_lang, "zh");
    assert_eq!(d.primary_action, PrimaryAction::RecognizeOnly);
    assert!(!d.autostart);
    assert!(!d.enable_ocr);
    assert!(!d.enable_translation);
    assert!(!d.preserve_line_breaks);
}

#[test]
fn save_then_load_round_trips() {
    let s = sample();
    let bytes = s.save();
    let loaded = AppSettings::load(&bytes).expect("canonical form must load");
    assert_same(&s, &loaded);
}

#[test]
fn save_then_load_round_trips_default() {
    let s = AppSettings::default();
    let loaded = AppSettings::load(&s.save()).expect("canonical form must load");
    assert_same(&s, &loaded);
}

#[test]
fn round_trip_keeps_quotes_and_backslashes() {
    let mut s = sample();
    s.shortcut = String::from("a\"b\\c");
    s.target_lang = String::from("\\\"");
    let loaded = AppSettings::load(&s.save()).expect("escaped form must load");
    assert_same(&s, &loaded);
}

#[test]
fn round_trip_keeps_non_ascii_text() {
    let mut s = sample();
    s.target_lang = String::from("中文");
    let loaded = AppSettings::load(&s.save()).expect("non-ascii form must load");
    assert_eq!(loaded.target_lang, "中文");
}

#[test]
fn saved_form_is_plain_json() {
    let s = sample();
    let bytes = s.save();
    let v: serde_json::Value = serde_json::from_slice(&bytes).expect("save must emit valid JSON");
    assert_eq!(v["shortcut"].as_str(), Some("Ctrl+Shift+A"));
    assert_eq!(v["target_lang"].as_str(), Some("en"));
    assert_eq!(v["primary_action"].as_i64(), Some(1));
    assert_eq!(v["autostart"].as_bool(), Some(true));
    assert_eq!(v["enable_ocr"].as_bool(), Some(true));
    assert_eq!(v["enable_translation"].as_bool(), Some(true));
    assert_eq!(v["preserve_line_breaks"].as_bool(), Some(false));
}

#[test]
fn saved_form_escapes_quotes_as_json() {
    let mut s = sample();
    s.shortcut = String::from("a\"b\\c");
    let v: serde_json::Value = serde_json::from_slice(&s.save()).expect("valid JSON");
    assert_eq!(v["shortcut"].as_str(), Some("a\"b\\c"));
}

#[test]
fn load_rejects_garbage() {
    assert!(AppSettings::load(b"not json at all").is_none());
    assert!(AppSettings::load(b"").is_none());
    assert!(AppSettings::load(b"{}").is_none());
}

#[test]
fn load_rejects_truncated_record() {
    let s = sample();
    let mut bytes = s.save();
    bytes.pop();
    assert!(AppSettings::load(&bytes).is_none());
}

#[test]
fn load_rejects_trailing_bytes() {
    let s = sample();
    let mut bytes = s.save();
    bytes.push(b' ');
    assert!(AppSettings::load(&bytes).is_none());
}

#[test]
fn clone_copies_every_field() {
    let s = sample();
    let c = s.clone();
    assert_same(&s, &c);
}
