use lisca::language::{detect_language_family, family_of_detected, family_to_lang, lang_from_iso, lang_iso_code, lang_to_family, Lang};

fn all_langs() -> Vec<String> {
    vec![
        "en", "fr", "de", "es", "it", "pt", "nl", "ru", "pl", "sv", "da", "fi", "no", "cs", "hu",
        "tr", "el", "ro", "uk", "hi",
    ]
    .into_iter()
    .map(String::from)
    .collect()
}

#[test]
fn detects_english() {
    assert_eq!(detect_language_family("Hello, world! This is a test.", &all_langs()), Some("en"));
}

#[test]
fn detects_french() {
    assert_eq!(
        detect_language_family("Bonjour, comment allez-vous aujourd'hui?", &all_langs()),
        Some("fr")
    );
}

#[test]
fn detects_german() {
    assert_eq!(detect_language_family("Guten Tag, wie geht es Ihnen?", &all_langs()), Some("de"));
}

#[test]
fn detects_spanish() {
    assert_eq!(
        detect_language_family("Hola, ¿cómo estás? Espero que bien.", &all_langs()),
        Some("es")
    );
}

#[test]
fn detects_italian() {
    assert_eq!(detect_language_family("Buongiorno, come stai oggi?", &all_langs()), Some("it"));
}

#[test]
fn detects_russian() {
    assert_eq!(
        detect_language_family("Привет, как дела? Сегодня хорошая погода.", &all_langs()),
        Some("ru")
    );
}

#[test]
fn detects_symptomes() {
    let fr_only = vec!["fr".to_string()];
    assert_eq!(detect_language_family("symptômes", &fr_only), Some("fr"));
}

#[test]
fn returns_none_for_empty() {
    assert_eq!(detect_language_family("", &all_langs()), None);
}

#[test]
fn returns_none_for_no_installed_langs() {
    assert_eq!(detect_language_family("Hello world", &Vec::new()), None);
}

#[test]
fn family_to_lang_roundtrip() {
    for code in &[
        "en", "fr", "de", "es", "it", "pt", "nl", "ru", "pl", "sv", "da", "fi", "no", "cs", "hu",
        "tr", "el", "ro", "uk", "hi",
    ] {
        let lang = family_to_lang(code).unwrap();
        assert_eq!(lang_to_family(lang), Some(*code));
    }
}

#[test]
fn family_to_lang_rejects_unknown() {
    assert_eq!(family_to_lang("xx"), None);
    assert_eq!(family_to_lang(""), None);
}

#[test]
fn unknown_installed_families_are_ignored() {
    let langs = vec!["xx".to_string(), "zz".to_string()];
    assert_eq!(detect_language_family("Hello, world! This is a test.", &langs), None);
}

#[test]
fn iso_codes_roundtrip() {
    assert_eq!(lang_iso_code(Lang::Nob), "nob");
    assert_eq!(lang_from_iso("nob"), Some(Lang::Nob));
    assert_eq!(lang_from_iso("eng"), Some(Lang::Eng));
    assert_eq!(lang_from_iso("jpn"), None);
}

#[test]
fn detected_code_maps_to_family() {
    assert_eq!(family_of_detected(Some("deu")), Some("de"));
    assert_eq!(family_of_detected(Some("ukr")), Some("uk"));
    assert_eq!(family_of_detected(Some("jpn")), None);
    assert_eq!(family_of_detected(None), None);
}

#[test]
fn detected_family_must_be_installed() {
    let en_only = vec!["en".to_string()];
    assert_eq!(detect_language_family("Καλημέρα, τι κάνεις σήμερα;", &en_only), None);
    assert_eq!(detect_language_family("Hello, world! This is a test.", &en_only), Some("en"));
}
