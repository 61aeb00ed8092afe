use lisca::catalog::{
    checksum_matches, complete, downloading, piper_config_file_name, piper_model_file_name, simple_hash_hex,
    uninstall_backend, verify_checksum, DownloadProgress, InstalledVoice, KokoroCatalog, ModelType,
    PiperCatalog, VoiceCatalog, VoiceEntry,
};

fn amy() -> VoiceEntry {
    VoiceEntry {
        voice_key: "en_US-amy-medium".to_string(),
        name: "Amy (English, US)".to_string(),
        language: "en".to_string(),
        quality: "medium".to_string(),
        size_bytes: 52_000_000,
        speed: Some("1.0x".to_string()),
        model_type: ModelType::Piper,
        checksum: None,
        download_url: Some("https://example.com/en_US-amy-medium.onnx".to_string()),
        config_url: Some("https://example.com/en_US-amy-medium.onnx.json".to_string()),
    }
}

fn heart() -> VoiceEntry {
    VoiceEntry {
        voice_key: "af_heart".to_string(),
        name: "Heart (American Female)".to_string(),
        language: "en".to_string(),
        quality: "high".to_string(),
        size_bytes: 15_000_000,
        speed: Some("1.0x".to_string()),
        model_type: ModelType::Kokoro,
        checksum: None,
        download_url: Some("https://example.com/af_heart.bin".to_string()),
        config_url: None,
    }
}

fn setup_voice_catalog() -> VoiceCatalog {
    VoiceCatalog::new("piper_models".to_string(), "kokoro".to_string(), vec![amy(), heart()])
}

#[test]
fn list_available_returns_hardcoded_voices() {
    let catalog = KokoroCatalog::new("kokoro".to_string());
    let voices = catalog.list_available();
    assert_eq!(voices.len(), 1);
    assert_eq!(voices[0].voice_key, "af_heart");
    assert_eq!(voices[0].model_type, ModelType::Kokoro);
}

#[test]
fn unified_catalog_lists_all_voices() {
    let catalog = setup_voice_catalog();
    let voices = catalog.list_available();
    assert_eq!(voices.len(), 2);
    let keys: Vec<&str> = voices.iter().map(|v| v.voice_key.as_str()).collect();
    assert!(keys.contains(&"en_US-amy-medium"));
    assert!(keys.contains(&"af_heart"));
}

#[test]
fn unified_catalog_install_unknown_fails() {
    let catalog = setup_voice_catalog();
    let result = catalog.install_backend("nonexistent");
    assert!(result.is_err());
    assert_eq!(result.unwrap_err(), "voice 'nonexistent' not found in catalog");
}

#[test]
fn unified_catalog_picks_backend_by_entry() {
    let catalog = setup_voice_catalog();
    assert_eq!(catalog.install_backend("en_US-amy-medium"), Ok(ModelType::Piper));
    assert_eq!(catalog.install_backend("af_heart"), Ok(ModelType::Kokoro));
    assert_eq!(catalog.piper.entries.len(), 1);
    assert_eq!(catalog.piper.entries[0].voice_key, "en_US-amy-medium");
    assert_eq!(catalog.kokoro.models_dir, "kokoro");
}

#[test]
fn kokoro_shared_engine_file_name() {
    let catalog = KokoroCatalog::new("models".to_string());
    assert_eq!(catalog.shared_engine_file, "kokoro_engine.onnx");
}

#[test]
fn kokoro_download_url_format() {
    assert_eq!(
        KokoroCatalog::download_url("onnx/model_q4.onnx"),
        "https://huggingface.co/onnx-community/Kokoro-82M-v1.0-ONNX/resolve/main/onnx/model_q4.onnx"
    );
}

#[test]
fn kokoro_install_plan_for_heart() {
    let catalog = KokoroCatalog::new("models".to_string());
    let plan = catalog.install_plan("af_heart").unwrap();
    assert_eq!(plan.entry.name, "Heart (American Female)");
    assert_eq!(plan.voice_file, "af_heart.bin");
    assert_eq!(
        plan.voice_url,
        "https://huggingface.co/onnx-community/Kokoro-82M-v1.0-ONNX/resolve/main/voices/af_heart.bin"
    );
    let voice = KokoroCatalog::installed_voice(&plan, "models/af_heart.bin".to_string());
    assert_eq!(voice.voice_key, "af_heart");
    assert_eq!(voice.model_type, ModelType::Kokoro);
    assert_eq!(voice.model_path, "models/af_heart.bin");
}

#[test]
fn kokoro_install_plan_unknown_voice() {
    let catalog = KokoroCatalog::new("models".to_string());
    assert_eq!(
        catalog.install_plan("nope").unwrap_err(),
        "voice 'nope' not found in catalog"
    );
}

#[test]
fn kokoro_found_voice_reads_bin_names() {
    let v = KokoroCatalog::found_voice("af_heart.bin", "d/af_heart.bin".to_string()).unwrap();
    assert_eq!(v.voice_key, "af_heart");
    assert_eq!(v.name, "Heart (American Female)");
    assert_eq!(v.quality, "high");
    let other = KokoroCatalog::found_voice("bf_emma.bin", "d/bf_emma.bin".to_string()).unwrap();
    assert_eq!(other.voice_key, "bf_emma");
    assert_eq!(other.name, "bf_emma");
    assert_eq!(other.language, "unknown");
    assert!(KokoroCatalog::found_voice("af_heart.txt", "x".to_string()).is_none());
    assert!(KokoroCatalog::found_voice("engine.onnx", "x".to_string()).is_none());
    let twice = KokoroCatalog::found_voice("a.bin.bin", "x".to_string()).unwrap();
    assert_eq!(twice.voice_key, "a");
}

#[test]
fn piper_install_plan_and_files() {
    let catalog = PiperCatalog::new("piper".to_string(), vec![amy()]);
    let plan = catalog.install_plan("en_US-amy-medium").unwrap();
    assert_eq!(plan.model_file, "en_US-amy-medium.onnx");
    assert_eq!(plan.config_file, "en_US-amy-medium.onnx.json");
    assert_eq!(plan.model_url, "https://example.com/en_US-amy-medium.onnx");
    assert_eq!(
        plan.config_url,
        Some("https://example.com/en_US-amy-medium.onnx.json".to_string())
    );
    assert_eq!(piper_model_file_name("x"), "x.onnx");
    assert_eq!(piper_config_file_name("x"), "x.onnx.json");
    let voice = PiperCatalog::installed_voice(&plan, "piper/en_US-amy-medium/en_US-amy-medium.onnx".to_string());
    assert_eq!(voice.name, "Amy (English, US)");
    assert_eq!(voice.model_type, ModelType::Piper);
}

#[test]
fn piper_install_plan_errors() {
    let mut no_url = amy();
    no_url.download_url = None;
    let catalog = PiperCatalog::new("piper".to_string(), vec![no_url]);
    assert_eq!(
        catalog.install_plan("en_US-amy-medium").unwrap_err(),
        "no download_url for voice 'en_US-amy-medium'"
    );
    assert_eq!(
        catalog.install_plan("missing").unwrap_err(),
        "voice 'missing' not found in catalog"
    );
}

#[test]
fn piper_found_voice_unknown_and_known() {
    let catalog = PiperCatalog::new("piper".to_string(), vec![amy()]);
    let known = catalog.found_voice("en_US-amy-medium", "m.onnx".to_string());
    assert_eq!(known.name, "Amy (English, US)");
    assert_eq!(known.language, "en");
    let unknown = catalog.found_voice("de_DE-x", "n.onnx".to_string());
    assert_eq!(unknown.name, "de_DE-x");
    assert_eq!(unknown.quality, "unknown");
    assert_eq!(catalog.find_entry("de_DE-x"), None);
}

#[test]
fn checksum_is_sixteen_hex_digits_and_matches_itself() {
    let data = b"model bytes";
    let sum = simple_hash_hex(data);
    assert_eq!(sum.len(), 16);
    assert!(sum.chars().all(|c| c.is_ascii_hexdigit() && !c.is_ascii_uppercase()));
    assert_eq!(simple_hash_hex(data), sum);
    assert!(verify_checksum(data, &sum));
    assert!(!verify_checksum(data, "0000"));
}

#[test]
fn uninstall_backend_by_installed_voice() {
    let installed = vec![
        InstalledVoice {
            voice_key: "a".to_string(),
            name: "a".to_string(),
            language: "en".to_string(),
            quality: "q".to_string(),
            model_type: ModelType::Piper,
            model_path: "p".to_string(),
        },
        InstalledVoice {
            voice_key: "b".to_string(),
            name: "b".to_string(),
            language: "en".to_string(),
            quality: "q".to_string(),
            model_type: ModelType::Kokoro,
            model_path: "k".to_string(),
        },
    ];
    assert_eq!(uninstall_backend(&installed, "b"), Some(ModelType::Kokoro));
    assert_eq!(uninstall_backend(&installed, "a"), Some(ModelType::Piper));
    assert_eq!(uninstall_backend(&installed, "c"), None);
}

#[test]
fn progress_events() {
    assert_eq!(
        downloading("v", 10, 20),
        DownloadProgress::Downloading { voice_key: "v".to_string(), bytes_downloaded: 10, total_bytes: 20 }
    );
    assert_eq!(complete("v"), DownloadProgress::Complete { voice_key: "v".to_string() });
}

#[test]
fn checksum_compares_sixteen_hex_digits() {
    assert!(checksum_matches(0x1f, "000000000000001f"));
    assert!(checksum_matches(u64::MAX, "ffffffffffffffff"));
    assert!(!checksum_matches(0x1f, "000000000000001F"));
    assert!(!checksum_matches(0x1f, "1f"));
    let data = b"voice";
    assert!(verify_checksum(data, &simple_hash_hex(data)));
}
