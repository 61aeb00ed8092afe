use lisca::errors::{
    CatalogError, ClipboardError, HotkeyError, ModelError, OverlayError, PersistError, QueueError,
    TranscriberError,
};

#[test]
fn queue_error_display() {
    assert_eq!(QueueError::Full.to_string(), "queue is full");
    assert_eq!(QueueError::NotFound(42).to_string(), "item with id 42 not found");
    assert_eq!(QueueError::WrongItemType.to_string(), "item is not the expected type");
    assert_eq!(QueueError::NoConfigPath.to_string(), "no config path configured");
}

#[test]
fn queue_error_into_string() {
    let err: String = QueueError::Full.into();
    assert_eq!(err, "queue is full");
}

#[test]
fn model_error_display() {
    assert_eq!(ModelError::NotFound("voice-a".to_string()).to_string(), "model not found: voice-a");
    assert_eq!(
        ModelError::LoadFailed("file missing".to_string()).to_string(),
        "failed to load model: file missing"
    );
}

#[test]
fn catalog_error_display() {
    assert_eq!(
        CatalogError::VoiceNotFound("x".to_string()).to_string(),
        "voice 'x' not found in catalog"
    );
}

#[test]
fn overlay_error_display() {
    assert_eq!(OverlayError::WindowNotFound.to_string(), "overlay window not found");
}

#[test]
fn persist_error_display() {
    assert_eq!(
        PersistError::IoError("perm denied".to_string()).to_string(),
        "I/O error: perm denied"
    );
}

#[test]
fn hotkey_error_display() {
    assert_eq!(
        HotkeyError::ParseError("empty".to_string()).to_string(),
        "shortcut parse error: empty"
    );
}

#[test]
fn clipboard_error_display() {
    assert_eq!(ClipboardError::NotInitialized.to_string(), "clipboard not initialized");
}

#[test]
fn transcriber_error_display() {
    assert_eq!(
        TranscriberError::SynthesisFailed("timeout".to_string()).to_string(),
        "synthesis failed: timeout"
    );
}

#[test]
fn queue_error_ids_are_written_in_decimal() {
    assert_eq!(QueueError::NotFound(0).to_string(), "item with id 0 not found");
    assert_eq!(
        QueueError::NotFound(u64::MAX).to_string(),
        "item with id 18446744073709551615 not found"
    );
}

#[test]
fn transcriber_error_wraps_queue_error() {
    let e: TranscriberError = QueueError::NotFound(7).into();
    assert_eq!(e, TranscriberError::QueueError(QueueError::NotFound(7)));
    assert_eq!(e.to_string(), "queue error: item with id 7 not found");
}

#[test]
fn other_error_messages() {
    assert_eq!(ModelError::NotInitialized("x".into()).to_string(), "model not initialized: x");
    assert_eq!(ModelError::InferenceFailed("x".into()).to_string(), "inference failed: x");
    assert_eq!(CatalogError::DownloadFailed("x".into()).to_string(), "download failed: x");
    assert_eq!(CatalogError::InstallFailed("x".into()).to_string(), "install failed: x");
    assert_eq!(CatalogError::UninstallFailed("x".into()).to_string(), "uninstall failed: x");
    assert_eq!(PersistError::SerializationError("x".into()).to_string(), "serialization error: x");
    assert_eq!(
        OverlayError::WindowCreationFailed("x".into()).to_string(),
        "failed to create overlay window: x"
    );
    assert_eq!(OverlayError::OperationFailed("x".into()).to_string(), "overlay operation failed: x");
    assert_eq!(HotkeyError::RegistrationFailed("x".into()).to_string(), "registration failed: x");
    assert_eq!(HotkeyError::IoError("x".into()).to_string(), "I/O error: x");
    assert_eq!(ClipboardError::ReadFailed("x".into()).to_string(), "clipboard read failed: x");
}
