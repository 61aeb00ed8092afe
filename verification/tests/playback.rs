use lisca::playback::{EndNotifier, PlaybackController, PlaybackState, TickAction};

#[test]
fn new_creates_idle_state() {
    let ctrl = PlaybackController::new();
    assert!(ctrl.is_idle());
    assert_eq!(ctrl.playback_state(), PlaybackState::Idle);
    assert!(!ctrl.stop_flag());
    assert!(!ctrl.pause_flag());
}

#[test]
fn stop_sets_idle_and_flags() {
    let mut ctrl = PlaybackController::new();
    ctrl.stop();
    assert!(ctrl.is_idle());
    assert!(ctrl.stop_flag());
    assert!(!ctrl.pause_flag());
}

#[test]
fn pause_only_works_when_playing() {
    let mut ctrl = PlaybackController::new();
    ctrl.pause();
    assert!(ctrl.is_idle());

    ctrl.set_state(PlaybackState::Playing);
    ctrl.pause();
    assert!(!ctrl.is_idle());
    assert_eq!(ctrl.playback_state(), PlaybackState::Paused);
    assert!(ctrl.pause_flag());
}

#[test]
fn resume_only_works_when_paused() {
    let mut ctrl = PlaybackController::new();
    ctrl.resume();
    assert!(ctrl.is_idle());

    ctrl.set_state(PlaybackState::Paused);
    ctrl.resume();
    assert!(!ctrl.is_idle());
    assert_eq!(ctrl.playback_state(), PlaybackState::Playing);
    assert!(!ctrl.pause_flag());
}

#[test]
fn stop_clears_pause_flag() {
    let mut ctrl = PlaybackController::new();
    ctrl.set_state(PlaybackState::Playing);
    ctrl.pause();
    assert!(ctrl.pause_flag());

    ctrl.stop();
    assert!(!ctrl.pause_flag());
    assert!(ctrl.is_idle());
}

#[test]
fn state_arc_shares_state() {
    let mut ctrl = PlaybackController::new();
    ctrl.set_state(PlaybackState::Playing);
    assert_eq!(ctrl.playback_state(), PlaybackState::Playing);
}

#[test]
fn state_bytes_roundtrip() {
    for s in [PlaybackState::Idle, PlaybackState::Playing, PlaybackState::Paused] {
        assert_eq!(PlaybackState::from(s.to_u8()), s);
    }
    assert_eq!(PlaybackState::from(7u8), PlaybackState::Idle);
    assert_eq!(PlaybackState::Paused.to_u8(), 2);
}

#[test]
fn tick_serves_stop_then_pause() {
    let mut ctrl = PlaybackController::new();
    ctrl.start();
    assert_eq!(ctrl.on_tick(), TickAction::Continue);
    ctrl.pause();
    assert_eq!(ctrl.on_tick(), TickAction::WaitWhilePaused);
    assert!(ctrl.keeps_waiting());
    ctrl.resume();
    assert!(!ctrl.keeps_waiting());
    assert!(!ctrl.on_wake());
    assert_eq!(ctrl.playback_state(), PlaybackState::Playing);
    ctrl.stop();
    assert_eq!(ctrl.on_tick(), TickAction::Interrupt);
    assert!(!ctrl.stop_flag());
    assert!(ctrl.is_idle());
}

#[test]
fn stop_during_pause_interrupts_on_wake() {
    let mut ctrl = PlaybackController::new();
    ctrl.start();
    ctrl.pause();
    ctrl.stop();
    assert!(!ctrl.keeps_waiting());
    assert!(ctrl.on_wake());
    assert_eq!(ctrl, PlaybackController::new());
}

struct VecSource {
    data: Vec<f32>,
    pos: usize,
}

impl Iterator for VecSource {
    type Item = f32;
    fn next(&mut self) -> Option<f32> {
        if self.pos < self.data.len() {
            let v = self.data[self.pos];
            self.pos += 1;
            Some(v)
        } else {
            None
        }
    }
}

fn make_source(data: Vec<f32>) -> VecSource {
    VecSource { data, pos: 0 }
}

/// Drains a source through the end latch, as the audio sink does.
fn drain(source: &mut VecSource, latch: &mut EndNotifier, ended: &mut Vec<u64>) -> Vec<f32> {
    let mut items = Vec::new();
    while latch.wants_next() {
        let (out, end) = latch.observe(source.next());
        if let Some(id) = end {
            ended.push(id);
        }
        match out {
            Some(v) => items.push(v),
            None => break,
        }
    }
    items
}

#[test]
fn delegates_to_inner_source() {
    let mut source = make_source(vec![0.1, 0.2, 0.3]);
    let mut latch = EndNotifier::new(4);
    let mut ended = Vec::new();
    let items: Vec<f32> = drain(&mut source, &mut latch, &mut ended);
    assert_eq!(items, vec![0.1, 0.2, 0.3]);
}

#[test]
fn empty_source_yields_nothing() {
    let mut source = make_source(vec![]);
    let mut latch = EndNotifier::new(4);
    let mut ended = Vec::new();
    let items: Vec<f32> = drain(&mut source, &mut latch, &mut ended);
    assert!(items.is_empty());
}

#[test]
fn end_is_reported_once() {
    let mut source = make_source(vec![0.5]);
    let mut latch = EndNotifier::new(9);
    let mut ended = Vec::new();
    drain(&mut source, &mut latch, &mut ended);
    assert_eq!(ended, vec![9]);
    assert!(!latch.wants_next());
    assert_eq!(latch.observe(Some(1.0f32)), (None, None));
    assert_eq!(ended, vec![9]);
}
