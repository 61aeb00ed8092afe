//! The shapes the user interface receives, and how domain values become
//! them.
use vstd::prelude::*;
use crate::catalog::{InstalledVoice, ModelType, VoiceEntry};
use crate::queue::{Queue, QueueControllable, QueueItem, SpeechStatus, TextMessageStatus};
use crate::text::owned;

verus! {

/// The lower-case name of a text status.
pub open spec fn text_status_name(s: TextMessageStatus) -> Seq<char> {
    match s {
        TextMessageStatus::Pending => "pending"@,
        TextMessageStatus::Processing => "processing"@,
    }
}

/// The lower-case name of a speech status.
pub open spec fn speech_status_name(s: SpeechStatus) -> Seq<char> {
    match s {
        SpeechStatus::ToPlay => "toplay"@,
        SpeechStatus::Playing => "playing"@,
        SpeechStatus::Paused => "paused"@,
        SpeechStatus::Played => "played"@,
    }
}

/// The lower-case name of an engine.
pub open spec fn model_type_name(t: ModelType) -> Seq<char> {
    match t {
        ModelType::Piper => "piper"@,
        ModelType::Kokoro => "kokoro"@,
    }
}

/// The status names the user interface shows: each status is the lower-case
/// name of its variant ("pending", "processing"; "toplay", "playing",
/// "paused", "played"), and no two statuses share a name.
pub proof fn law_status_names(a: SpeechStatus, b: SpeechStatus, x: TextMessageStatus, y: TextMessageStatus)
    ensures
        text_status_name(TextMessageStatus::Pending) == "pending"@,
        text_status_name(TextMessageStatus::Processing) == "processing"@,
        speech_status_name(SpeechStatus::ToPlay) == "toplay"@,
        speech_status_name(SpeechStatus::Playing) == "playing"@,
        speech_status_name(SpeechStatus::Paused) == "paused"@,
        speech_status_name(SpeechStatus::Played) == "played"@,
        speech_status_name(a) == speech_status_name(b) ==> a == b,
        text_status_name(x) == text_status_name(y) ==> x == y,
{
    reveal_strlit("pending");
    reveal_strlit("processing");
    reveal_strlit("toplay");
    reveal_strlit("playing");
    reveal_strlit("paused");
    reveal_strlit("played");
    assert("pending"@.len() == 7 && "processing"@.len() == 10);
    assert("toplay"@[0] == 't' && "playing"@[2] == 'a' && "paused"@[0] == 'p' && "paused"@[1] == 'a'
        && "played"@[2] == 'a' && "played"@.len() == 6 && "playing"@.len() == 7);
    assert("played"@[4] == 'e' && "paused"@[4] == 'e' && "played"@[1] == 'l');
}

fn text_status_string(s: TextMessageStatus) -> (r: String)
    ensures
        r@ == text_status_name(s),
{
    match s {
        TextMessageStatus::Pending => owned("pending"),
        TextMessageStatus::Processing => owned("processing"),
    }
}

fn speech_status_string(s: SpeechStatus) -> (r: String)
    ensures
        r@ == speech_status_name(s),
{
    match s {
        SpeechStatus::ToPlay => owned("toplay"),
        SpeechStatus::Playing => owned("playing"),
        SpeechStatus::Paused => owned("paused"),
        SpeechStatus::Played => owned("played"),
    }
}

/// The name of an engine as the user interface knows it.
pub fn model_type_string(t: ModelType) -> (r: String)
    ensures
        r@ == model_type_name(t),
{
    match t {
        ModelType::Piper => owned("piper"),
        ModelType::Kokoro => owned("kokoro"),
    }
}

/// A queue item as the user interface sees it (without its audio).
#[derive(Debug, Clone, PartialEq)]
pub enum QueueItemDto {
    TextMessage { id: u64, text: String, status: String },
    Speech {
        id: u64,
        text: String,
        language: Option<String>,
        voice_key: Option<String>,
        status: String,
    },
}

/// Whether a transfer item shows a queue item.
pub open spec fn shows_item(d: QueueItemDto, item: QueueItem) -> bool {
    match (d, item) {
        (
            QueueItemDto::TextMessage { id: di, text: dt, status: ds },
            QueueItem::TextMessage { id, text, status },
        ) => di == id && dt == text && ds@ == text_status_name(status),
        (
            QueueItemDto::Speech { id: di, text: dt, language: dl, voice_key: dv, status: ds },
            QueueItem::Speech { id, text, language, voice_key, status, .. },
        ) => di == id && dt == text && dl == language && dv == voice_key && ds@ == speech_status_name(
            status,
        ),
        _ => false,
    }
}

fn copy_opt(s: &Option<String>) -> (r: Option<String>)
    ensures
        r == *s,
{
    match s {
        Some(t) => Some(t.clone()),
        None => None,
    }
}

impl QueueItemDto {
    /// How the user interface sees a queue item.
    pub fn from_item(item: &QueueItem) -> (d: QueueItemDto)
        ensures
            shows_item(d, *item),
    {
        match item {
            QueueItem::TextMessage { id, text, status } => QueueItemDto::TextMessage {
                id: *id,
                text: text.clone(),
                status: text_status_string(*status),
            },
            QueueItem::Speech { id, text, language, voice_key, status, .. } => QueueItemDto::Speech {
                id: *id,
                text: text.clone(),
                language: copy_opt(language),
                voice_key: copy_opt(voice_key),
                status: speech_status_string(*status),
            },
        }
    }
}

/// The queue as the user interface sees it.
#[derive(Debug, Clone, PartialEq)]
pub struct QueueSnapshotDto {
    pub items: Vec<QueueItemDto>,
    pub show_overlay: bool,
}

/// The queue's items, in order, and whether the overlay is shown.
pub fn snapshot(queue: &Queue) -> (d: QueueSnapshotDto)
    ensures
        d.items@.len() == queue@.len(),
        forall|k: int| 0 <= k < queue@.len() ==> shows_item(#[trigger] d.items@[k], queue@[k]),
        d.show_overlay == queue.spec_config().show_overlay,
{
    let items = queue.items();
    let mut out: Vec<QueueItemDto> = Vec::new();
    let mut i: usize = 0;
    while i < items.len()
        invariant
            items@ == queue@,
            i <= items@.len(),
            out@.len() == i,
            forall|k: int| 0 <= k < i ==> shows_item(#[trigger] out@[k], items@[k]),
        decreases items.len() - i,
    {
        out.push(QueueItemDto::from_item(&items[i]));
        i = i + 1;
    }
    QueueSnapshotDto { items: out, show_overlay: queue.config().show_overlay }
}

/// A catalog voice as the user interface sees it.
#[derive(Debug, Clone, PartialEq)]
pub struct VoiceEntryDto {
    pub voice_key: String,
    pub name: String,
    pub language: String,
    pub quality: String,
    pub size_bytes: u64,
    pub speed: Option<String>,
    pub model_type: String,
}

impl VoiceEntryDto {
    /// How the user interface sees a catalog voice.
    pub fn from_entry(e: VoiceEntry) -> (d: VoiceEntryDto)
        ensures
            d.voice_key == e.voice_key && d.name == e.name && d.language == e.language && d.quality
                == e.quality && d.size_bytes == e.size_bytes && d.speed == e.speed && d.model_type@
                == model_type_name(e.model_type),
    {
        VoiceEntryDto {
            voice_key: e.voice_key,
            name: e.name,
            language: e.language,
            quality: e.quality,
            size_bytes: e.size_bytes,
            speed: e.speed,
            model_type: model_type_string(e.model_type),
        }
    }
}

/// An installed voice as the user interface sees it.
#[derive(Debug, Clone, PartialEq)]
pub struct InstalledVoiceDto {
    pub voice_key: String,
    pub name: String,
    pub language: String,
    pub quality: String,
    pub model_type: String,
    pub model_path: String,
}

impl InstalledVoiceDto {
    /// How the user interface sees an installed voice.
    pub fn from_voice(v: InstalledVoice) -> (d: InstalledVoiceDto)
        ensures
            d.voice_key == v.voice_key && d.name == v.name && d.language == v.language && d.quality
                == v.quality && d.model_path == v.model_path && d.model_type@ == model_type_name(
                v.model_type,
            ),
    {
        InstalledVoiceDto {
            voice_key: v.voice_key,
            name: v.name,
            language: v.language,
            quality: v.quality,
            model_type: model_type_string(v.model_type),
            model_path: v.model_path,
        }
    }
}

/// The player settings as the user interface sees them.
#[derive(Debug, Clone, Copy, PartialEq, Eq, Structural)]
pub struct PlayerSnapshotDto {
    pub auto_read: bool,
}

} // verus!
