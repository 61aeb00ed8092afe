use lisca::catalog::{InstalledVoice, ModelType};
use lisca::queue::{Queue, QueueControllable, QueueItem, SpeechStatus, TextMessageStatus};
use lisca::transcriber::{
    begin_transcription, finish_transcription, no_voice_error, not_installed_error,
    plan_transcription, select_backend, synthesis_outcome, TranscriptionEvent, TranscriptionPlan, VoiceMapping,
};

fn voice(key: &str, language: &str) -> InstalledVoice {
    InstalledVoice {
        voice_key: key.to_string(),
        name: key.to_string(),
        language: language.to_string(),
        quality: "medium".to_string(),
        model_type: ModelType::Piper,
        model_path: format!("{key}.onnx"),
    }
}

#[test]
fn mapping_prefers_language_voice_then_fallback() {
    let mut m = VoiceMapping::new();
    assert_eq!(m.resolve(Some("en")), None);
    m.set_fallback(Some("fallback".to_string()));
    m.set_voice("en".to_string(), "amy".to_string());
    assert_eq!(m.resolve(Some("en")), Some("amy".to_string()));
    assert_eq!(m.resolve(Some("fr")), Some("fallback".to_string()));
    assert_eq!(m.resolve(None), Some("fallback".to_string()));
    m.set_voice("en".to_string(), "joe".to_string());
    assert_eq!(m.resolve(Some("en")), Some("joe".to_string()));
}

#[test]
fn plan_detects_among_installed_languages() {
    let installed = vec![voice("amy", "en"), voice("siwis", "fr")];
    let mut m = VoiceMapping::new();
    m.set_voice("fr".to_string(), "siwis".to_string());
    let plan = plan_transcription("Bonjour, comment allez-vous aujourd'hui?", &installed, &m);
    assert_eq!(plan.language, Some("fr".to_string()));
    assert_eq!(plan.voice_key, Some("siwis".to_string()));
}

#[test]
fn plan_without_installed_voices_has_no_language() {
    let mut m = VoiceMapping::new();
    m.set_fallback(Some("amy".to_string()));
    let plan = plan_transcription("Hello world", &Vec::new(), &m);
    assert_eq!(plan, TranscriptionPlan { language: None, voice_key: Some("amy".to_string()) });
}

#[test]
fn begin_marks_first_pending_text_processing() {
    let mut q = Queue::new();
    let id1 = q.add_text("first".to_string()).unwrap();
    q.add_text("second".to_string()).unwrap();
    let item = begin_transcription(&mut q).unwrap();
    assert_eq!(item.id, id1);
    assert_eq!(item.text, "first");
    match &q.items()[0] {
        QueueItem::TextMessage { status, .. } => assert_eq!(*status, TextMessageStatus::Processing),
        _ => panic!("expected TextMessage"),
    }
    let second = begin_transcription(&mut q).unwrap();
    assert_eq!(second.text, "second");
    assert!(begin_transcription(&mut q).is_none());
}

#[test]
fn finish_success_turns_text_into_speech() {
    let mut q = Queue::new();
    let id = q.add_text("hello".to_string()).unwrap();
    let plan = TranscriptionPlan { language: Some("en".to_string()), voice_key: Some("amy".to_string()) };
    let (ev, ready) = finish_transcription(&mut q, id, Ok("a.wav".to_string()), plan);
    assert_eq!(ev, TranscriptionEvent::Completed(id));
    assert!(ready);
    match &q.items()[0] {
        QueueItem::Speech { id: sid, text, audio_path, voice_key, language, status } => {
            assert_eq!(*sid, id);
            assert_eq!(text, "hello");
            assert_eq!(audio_path.as_deref(), Some("a.wav"));
            assert_eq!(voice_key.as_deref(), Some("amy"));
            assert_eq!(language.as_deref(), Some("en"));
            assert_eq!(*status, SpeechStatus::ToPlay);
        }
        _ => panic!("expected Speech"),
    }
}

#[test]
fn finish_failure_drops_item() {
    let mut q = Queue::new();
    let id = q.add_text("hello".to_string()).unwrap();
    let plan = TranscriptionPlan { language: None, voice_key: None };
    let (ev, ready) = finish_transcription(&mut q, id, Err(no_voice_error()), plan);
    assert_eq!(ev, TranscriptionEvent::Failed(id, "no voice resolved for language".to_string()));
    assert!(!ready);
    assert!(q.items().is_empty());
}

#[test]
fn finish_success_for_removed_item_changes_nothing() {
    let mut q = Queue::new();
    let id = q.add_text("hello".to_string()).unwrap();
    q.remove(id).unwrap();
    let keep = q.add_text("other".to_string()).unwrap();
    let plan = TranscriptionPlan { language: None, voice_key: None };
    let (ev, ready) = finish_transcription(&mut q, id, Ok("a.wav".to_string()), plan);
    assert_eq!(ev, TranscriptionEvent::Completed(id));
    assert!(!ready);
    assert_eq!(q.items().len(), 1);
    assert_eq!(q.items()[0].id(), keep);
}

#[test]
fn backend_prefers_piper() {
    assert_eq!(select_backend(true, true), Some(ModelType::Piper));
    assert_eq!(select_backend(false, true), Some(ModelType::Kokoro));
    assert_eq!(select_backend(false, false), None);
    assert_eq!(not_installed_error("x"), "voice 'x' not installed in any backend");
}

#[test]
fn outcome_without_voice_is_the_no_voice_error() {
    let none = TranscriptionPlan { language: Some("en".to_string()), voice_key: None };
    assert_eq!(synthesis_outcome(&none, None), Err("no voice resolved for language".to_string()));
    assert_eq!(synthesis_outcome(&none, Some(Ok("a".to_string()))), Err("no voice resolved for language".to_string()));
    let amy = TranscriptionPlan { language: Some("en".to_string()), voice_key: Some("amy".to_string()) };
    assert_eq!(synthesis_outcome(&amy, Some(Ok("a.f32".to_string()))), Ok("a.f32".to_string()));
    assert_eq!(synthesis_outcome(&amy, Some(Err("boom".to_string()))), Err("boom".to_string()));
}
