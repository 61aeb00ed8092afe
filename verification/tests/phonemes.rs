use lisca::phonemes::{
    default_espeak_voice, default_sample_rate, espeak_lang_code, CharIdMap, KokoroPhonemizer,
    KokoroTokenizerConfig, ModelConfig, NormalizerConfig, PatternConfig, PiperPhonemizer,
    PostProcessorConfig, SpecialToken,
};

fn piper_map() -> Vec<(String, Vec<i64>)> {
    vec![
        ("_".to_string(), vec![0]),
        ("^".to_string(), vec![1]),
        ("$".to_string(), vec![2]),
        (" ".to_string(), vec![3]),
        ("a".to_string(), vec![10]),
        ("e".to_string(), vec![11]),
        ("\u{301}".to_string(), vec![12]),
        ("x".to_string(), vec![]),
    ]
}

#[test]
fn char_id_map_last_entry_wins() {
    let mut m = CharIdMap::new();
    assert_eq!(m.get('a'), None);
    m.insert('a', 1);
    m.insert('b', 2);
    m.insert('a', 3);
    assert_eq!(m.get('a'), Some(3));
    assert_eq!(m.get('b'), Some(2));
    assert_eq!(m.get_or('c', 9), 9);
}

#[test]
fn espeak_defaults_and_language_code() {
    assert_eq!(default_espeak_voice(), "en-us");
    assert_eq!(default_sample_rate(), 22050);
    assert_eq!(espeak_lang_code("en-us"), "en");
    assert_eq!(espeak_lang_code("fr"), "fr");
    assert_eq!(espeak_lang_code("-x"), "");
}

#[test]
fn piper_ids_are_framed_and_padded() {
    let p = PiperPhonemizer::new("en-us".to_string(), &piper_map());
    assert_eq!(p.phoneme_to_id.get('x'), None);
    assert_eq!(p.ids_from_decomposed("a a"), vec![1, 10, 0, 3, 0, 10, 0, 2]);
    assert_eq!(p.ids_from_decomposed("^_$"), vec![1, 2]);
    assert_eq!(p.ids_from_decomposed("q"), vec![1, 2]);
    assert_eq!(p.ids_from_decomposed(""), vec![1, 2]);
}

#[test]
fn piper_ids_use_defaults_without_markers() {
    let p = PiperPhonemizer::new("en-us".to_string(), &vec![("a".to_string(), vec![7, 8])]);
    assert_eq!(p.ids_from_decomposed("a"), vec![1, 7, 0, 2]);
    assert_eq!(p.ids_from_decomposed(" "), vec![1, 2]);
}

#[test]
fn ipa_is_decomposed_before_lookup() {
    let p = PiperPhonemizer::new("en-us".to_string(), &piper_map());
    assert_eq!(p.ids_from_ipa("\u{e9}"), vec![1, 11, 0, 12, 0, 2]);
}

#[test]
fn kokoro_tokenizer_table_and_pad() {
    let config = KokoroTokenizerConfig {
        normalizer: NormalizerConfig { pattern: PatternConfig { Regex: "[^ a-z]".to_string() } },
        post_processor: PostProcessorConfig {
            special_tokens: vec![
                ("$".to_string(), SpecialToken { id: "$".to_string(), ids: vec![4] }),
                ("^".to_string(), SpecialToken { id: "^".to_string(), ids: vec![5] }),
            ],
        },
        model: ModelConfig {
            vocab: vec![("a".to_string(), 43), ("bc".to_string(), 44), ("".to_string(), 45)],
        },
    };
    let (table, pad) = config.build_tokenizer();
    assert_eq!(pad, 4);
    assert_eq!(table.get('a'), Some(43));
    assert_eq!(table.get('b'), Some(44));
    assert_eq!(table.get('c'), None);
    assert_eq!(table.entries.len(), 2);
}

#[test]
fn kokoro_tokenizer_pad_defaults_to_zero() {
    let config = KokoroTokenizerConfig {
        normalizer: NormalizerConfig { pattern: PatternConfig { Regex: String::new() } },
        post_processor: PostProcessorConfig { special_tokens: vec![] },
        model: ModelConfig { vocab: vec![] },
    };
    let (table, pad) = config.build_tokenizer();
    assert_eq!(pad, 0);
    assert!(table.entries.is_empty());
}

#[test]
fn kokoro_phonemizer_keeps_language() {
    assert_eq!(KokoroPhonemizer::new("en-us").lang_code, "en-us");
}

#[test]
fn espeak_answer_becomes_ids_or_nothing() {
    let p = PiperPhonemizer::new("en-us".to_string(), &piper_map());
    assert_eq!(p.ids_from_espeak(Ok("a\u{e9}".to_string())), vec![1, 10, 0, 11, 0, 12, 0, 2]);
    assert!(p.ids_from_espeak(Err(espeak_ng::Error::NotSupported)).is_empty());
}

#[test]
fn espeak_answer_is_decomposed_or_empty() {
    assert_eq!(KokoroPhonemizer::decomposed_ipa(Ok("\u{e9}".to_string())), "e\u{301}");
    assert_eq!(KokoroPhonemizer::decomposed_ipa(Err(espeak_ng::Error::NotSupported)), "");
}
