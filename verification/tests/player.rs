use lisca::player::{PlayerAction, PlayerConfig, PlayerState};
use lisca::queue::PendingSpeechItem;

#[test]
fn new_player_is_idle() {
    let p = PlayerState::new(true);
    assert!(p.auto_read);
    assert!(!p.stopped);
    assert_eq!(p.current_id, None);
    assert!(PlayerConfig::default_config().auto_read);
    assert_eq!(p.config(), PlayerConfig { auto_read: true });
}

#[test]
fn play_next_fetches_only_when_free() {
    let p = PlayerState::new(true);
    assert_eq!(p.on_play_next(true), vec![PlayerAction::FetchNextSpeech]);
    assert!(p.on_play_next(false).is_empty());
}

#[test]
fn next_speech_with_audio_starts_playing() {
    let mut p = PlayerState::new(true);
    let item = PendingSpeechItem { id: 4, audio_path: Some("a.wav".to_string()) };
    let r = p.on_next_speech(Some(item), true);
    assert_eq!(
        r,
        vec![
            PlayerAction::EmitStarted(4),
            PlayerAction::PlayAudio { id: 4, audio_path: "a.wav".to_string() }
        ]
    );
    assert_eq!(p.current_id, Some(4));
}

#[test]
fn next_speech_without_sink_reports_stopped() {
    let mut p = PlayerState::new(true);
    let item = PendingSpeechItem { id: 2, audio_path: Some("b.wav".to_string()) };
    let r = p.on_next_speech(Some(item), false);
    assert_eq!(r, vec![PlayerAction::EmitStarted(2), PlayerAction::EmitStopped]);
}

#[test]
fn next_speech_without_audio_is_completed() {
    let mut p = PlayerState::new(true);
    let r = p.on_next_speech(Some(PendingSpeechItem { id: 9, audio_path: None }), true);
    assert_eq!(r, vec![PlayerAction::MarkCompleted(9)]);
    assert_eq!(p.current_id, None);
    assert!(p.on_next_speech(None, true).is_empty());
}

#[test]
fn completion_plays_next_unless_stopped() {
    let mut p = PlayerState::new(true);
    p.set_current_id(Some(3));
    assert_eq!(
        p.on_playback_complete(3),
        vec![PlayerAction::MarkCompleted(3), PlayerAction::PlayNext]
    );
    assert_eq!(p.current_id, None);
    p.on_stop();
    assert!(p.on_playback_complete(3).is_empty());
}

#[test]
fn stop_silences_until_resume() {
    let mut p = PlayerState::new(true);
    p.set_current_id(Some(5));
    assert_eq!(
        p.on_stop(),
        vec![PlayerAction::SinkStop, PlayerAction::MarkStopped(5), PlayerAction::EmitStopped]
    );
    assert!(p.stopped);
    assert_eq!(p.current_id, None);
    assert!(p.on_play_next(true).is_empty());
    assert_eq!(
        p.on_resume(Some(true)),
        vec![PlayerAction::SinkPlay, PlayerAction::PlayNext, PlayerAction::EmitResumed]
    );
    assert!(!p.stopped);
    assert_eq!(p.on_play_next(true), vec![PlayerAction::FetchNextSpeech]);
}

#[test]
fn pause_and_resume_mark_current_item() {
    let mut p = PlayerState::new(false);
    p.set_current_id(Some(7));
    assert_eq!(
        p.on_pause(),
        vec![PlayerAction::SinkPause, PlayerAction::MarkPaused(7), PlayerAction::EmitPaused]
    );
    assert_eq!(
        p.on_resume(Some(false)),
        vec![PlayerAction::SinkPlay, PlayerAction::MarkResumed(7), PlayerAction::EmitResumed]
    );
    assert_eq!(p.on_resume(None), vec![PlayerAction::MarkResumed(7), PlayerAction::EmitResumed]);
}

#[test]
fn skip_restart_replay() {
    let mut p = PlayerState::new(true);
    assert_eq!(
        p.on_skip(),
        vec![PlayerAction::SinkStop, PlayerAction::EmitStopped, PlayerAction::PlayNext]
    );
    p.set_current_id(Some(1));
    assert_eq!(
        p.on_skip(),
        vec![
            PlayerAction::SinkStop,
            PlayerAction::MarkSkipped(1),
            PlayerAction::EmitStopped,
            PlayerAction::PlayNext
        ]
    );
    assert_eq!(p.on_restart(), vec![PlayerAction::SinkRestart]);
    assert_eq!(
        p.on_replay(8),
        vec![PlayerAction::SinkStop, PlayerAction::Replay(8), PlayerAction::PlayNext]
    );
}

#[test]
fn speech_ready_follows_auto_read() {
    assert_eq!(PlayerState::new(true).on_speech_ready(), vec![PlayerAction::PlayNext]);
    assert!(PlayerState::new(false).on_speech_ready().is_empty());
}

#[test]
fn toggle_auto_read_twice_restores() {
    let mut p = PlayerState::new(false);
    p.on_stop();
    let (on, actions) = p.on_toggle_auto_read();
    assert!(on);
    assert!(!p.stopped);
    assert_eq!(
        actions,
        vec![PlayerAction::SaveConfig, PlayerAction::EmitConfigChanged, PlayerAction::PlayNext]
    );
    let (off, actions) = p.on_toggle_auto_read();
    assert!(!off);
    assert_eq!(actions, vec![PlayerAction::SaveConfig, PlayerAction::EmitConfigChanged]);
    assert!(!p.auto_read);
}
