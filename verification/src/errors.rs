//! Error types of each domain, with the message shown for each.
//! Messages cross the boundary to the user interface as plain strings.
use vstd::prelude::*;
use crate::text::{decimal, owned, push_decimal, push_str};

verus! {

// ── Queue errors ────────────────────────────────────────────────

/// Why a queue operation failed.
#[derive(Debug, Clone, Copy, PartialEq, Eq, Structural)]
pub enum QueueError {
    Full,
    NotFound(u64),
    WrongItemType,
    NoConfigPath,
}

/// The message of a queue error.
pub open spec fn queue_error_message(e: QueueError) -> Seq<char> {
    match e {
        QueueError::Full => "queue is full"@,
        QueueError::NotFound(id) => "item with id "@ + decimal(id as nat) + " not found"@,
        QueueError::WrongItemType => "item is not the expected type"@,
        QueueError::NoConfigPath => "no config path configured"@,
    }
}

impl QueueError {
    /// The message shown for the error.
    pub fn to_string(&self) -> (s: String)
        ensures
            s@ == queue_error_message(*self),
    {
        match self {
            QueueError::Full => owned("queue is full"),
            QueueError::NotFound(id) => {
                let mut s = owned("item with id ");
                push_decimal(&mut s, *id);
                push_str(&mut s, " not found");
                s
            },
            QueueError::WrongItemType => owned("item is not the expected type"),
            QueueError::NoConfigPath => owned("no config path configured"),
        }
    }
}

impl From<QueueError> for String {
    /// The error's message.
    fn from(e: QueueError) -> (s: String)
        ensures
            s@ == queue_error_message(e),
    {
        e.to_string()
    }
}

impl vstd::std_specs::convert::FromSpecImpl<QueueError> for String {
    open spec fn obeys_from_spec() -> bool {
        false
    }

    open spec fn from_spec(e: QueueError) -> String {
        vstd::pervasive::arbitrary()
    }
}

// ── Transcriber errors ──────────────────────────────────────────

/// Why a transcription failed.
#[derive(Debug, Clone, PartialEq, Eq)]
pub enum TranscriberError {
    SynthesisFailed(String),
    QueueError(QueueError),
}

impl TranscriberError {
    /// The message shown for the error.
    pub fn to_string(&self) -> (s: String)
        ensures
            s@ == match self {
                TranscriberError::SynthesisFailed(msg) => "synthesis failed: "@ + msg@,
                TranscriberError::QueueError(e) => "queue error: "@ + queue_error_message(*e),
            },
    {
        match self {
            TranscriberError::SynthesisFailed(msg) => {
                let mut s = owned("synthesis failed: ");
                push_str(&mut s, msg.as_str());
                s
            },
            TranscriberError::QueueError(e) => {
                let mut s = owned("queue error: ");
                let m = e.to_string();
                push_str(&mut s, m.as_str());
                s
            },
        }
    }
}

impl From<QueueError> for TranscriberError {
    fn from(e: QueueError) -> (r: TranscriberError) {
        TranscriberError::QueueError(e)
    }
}

impl vstd::std_specs::convert::FromSpecImpl<QueueError> for TranscriberError {
    open spec fn obeys_from_spec() -> bool {
        true
    }

    open spec fn from_spec(e: QueueError) -> TranscriberError {
        TranscriberError::QueueError(e)
    }
}

/// A prefix followed by a detail message.
fn prefixed(prefix: &str, detail: &String) -> (s: String)
    ensures
        s@ == prefix@ + detail@,
{
    let mut s = owned(prefix);
    push_str(&mut s, detail.as_str());
    s
}

// ── Model errors ────────────────────────────────────────────────

/// Why a voice model could not be used.
#[derive(Debug, Clone, PartialEq, Eq)]
pub enum ModelError {
    NotFound(String),
    LoadFailed(String),
    NotInitialized(String),
    InferenceFailed(String),
}

impl ModelError {
    /// The message shown for the error.
    pub fn to_string(&self) -> (s: String)
        ensures
            s@ == match self {
                ModelError::NotFound(k) => "model not found: "@ + k@,
                ModelError::LoadFailed(m) => "failed to load model: "@ + m@,
                ModelError::NotInitialized(m) => "model not initialized: "@ + m@,
                ModelError::InferenceFailed(m) => "inference failed: "@ + m@,
            },
    {
        match self {
            ModelError::NotFound(k) => prefixed("model not found: ", k),
            ModelError::LoadFailed(m) => prefixed("failed to load model: ", m),
            ModelError::NotInitialized(m) => prefixed("model not initialized: ", m),
            ModelError::InferenceFailed(m) => prefixed("inference failed: ", m),
        }
    }
}

// ── Catalog errors ──────────────────────────────────────────────

/// Why a catalog operation failed.
#[derive(Debug, Clone, PartialEq, Eq)]
pub enum CatalogError {
    VoiceNotFound(String),
    DownloadFailed(String),
    InstallFailed(String),
    UninstallFailed(String),
}

impl CatalogError {
    /// The message shown for the error.
    pub fn to_string(&self) -> (s: String)
        ensures
            s@ == match self {
                CatalogError::VoiceNotFound(k) => "voice '"@ + k@ + "' not found in catalog"@,
                CatalogError::DownloadFailed(m) => "download failed: "@ + m@,
                CatalogError::InstallFailed(m) => "install failed: "@ + m@,
                CatalogError::UninstallFailed(m) => "uninstall failed: "@ + m@,
            },
    {
        match self {
            CatalogError::VoiceNotFound(k) => {
                let mut s = prefixed("voice '", k);
                push_str(&mut s, "' not found in catalog");
                s
            },
            CatalogError::DownloadFailed(m) => prefixed("download failed: ", m),
            CatalogError::InstallFailed(m) => prefixed("install failed: ", m),
            CatalogError::UninstallFailed(m) => prefixed("uninstall failed: ", m),
        }
    }
}

// ── Persist errors ──────────────────────────────────────────────

/// Why saving or loading a file failed.
#[derive(Debug, Clone, PartialEq, Eq)]
pub enum PersistError {
    IoError(String),
    SerializationError(String),
}

impl PersistError {
    /// The message shown for the error.
    pub fn to_string(&self) -> (s: String)
        ensures
            s@ == match self {
                PersistError::IoError(m) => "I/O error: "@ + m@,
                PersistError::SerializationError(m) => "serialization error: "@ + m@,
            },
    {
        match self {
            PersistError::IoError(m) => prefixed("I/O error: ", m),
            PersistError::SerializationError(m) => prefixed("serialization error: ", m),
        }
    }
}

// ── Overlay errors ──────────────────────────────────────────────

/// Why an overlay operation failed.
#[derive(Debug, Clone, PartialEq, Eq)]
pub enum OverlayError {
    WindowNotFound,
    WindowCreationFailed(String),
    OperationFailed(String),
}

impl OverlayError {
    /// The message shown for the error.
    pub fn to_string(&self) -> (s: String)
        ensures
            s@ == match self {
                OverlayError::WindowNotFound => "overlay window not found"@,
                OverlayError::WindowCreationFailed(m) => "failed to create overlay window: "@ + m@,
                OverlayError::OperationFailed(m) => "overlay operation failed: "@ + m@,
            },
    {
        match self {
            OverlayError::WindowNotFound => owned("overlay window not found"),
            OverlayError::WindowCreationFailed(m) => prefixed("failed to create overlay window: ", m),
            OverlayError::OperationFailed(m) => prefixed("overlay operation failed: ", m),
        }
    }
}

// ── Hotkey errors ───────────────────────────────────────────────

/// Why a shortcut could not be set.
#[derive(Debug, Clone, PartialEq, Eq)]
pub enum HotkeyError {
    ParseError(String),
    RegistrationFailed(String),
    IoError(String),
}

impl HotkeyError {
    /// The message shown for the error.
    pub fn to_string(&self) -> (s: String)
        ensures
            s@ == match self {
                HotkeyError::ParseError(m) => "shortcut parse error: "@ + m@,
                HotkeyError::RegistrationFailed(m) => "registration failed: "@ + m@,
                HotkeyError::IoError(m) => "I/O error: "@ + m@,
            },
    {
        match self {
            HotkeyError::ParseError(m) => prefixed("shortcut parse error: ", m),
            HotkeyError::RegistrationFailed(m) => prefixed("registration failed: ", m),
            HotkeyError::IoError(m) => prefixed("I/O error: ", m),
        }
    }
}

// ── Clipboard errors ────────────────────────────────────────────

/// Why the clipboard could not be read.
#[derive(Debug, Clone, PartialEq, Eq)]
pub enum ClipboardError {
    ReadFailed(String),
    NotInitialized,
}

impl ClipboardError {
    /// The message shown for the error.
    pub fn to_string(&self) -> (s: String)
        ensures
            s@ == match self {
                ClipboardError::ReadFailed(m) => "clipboard read failed: "@ + m@,
                ClipboardError::NotInitialized => "clipboard not initialized"@,
            },
    {
        match self {
            ClipboardError::ReadFailed(m) => prefixed("clipboard read failed: ", m),
            ClipboardError::NotInitialized => owned("clipboard not initialized"),
        }
    }
}

} // verus!
