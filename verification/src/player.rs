//! Decisions of the speech player.
//!
//! The player reacts to events (a request to play the next item, the end of
//! an item, the user's pause, resume, stop, skip, restart, replay and
//! auto-read toggle) by changing its own state and answering with the list of
//! actions to perform on the audio sink, the queue and the user interface.
//! Performing them is left to the caller.
use vstd::prelude::*;
use crate::queue::PendingSpeechItem;

verus! {

/// What the player asks to be done, in order.
#[derive(Debug, Clone, PartialEq)]
pub enum PlayerAction {
    /// Ask the player itself to play the next item.
    PlayNext,
    /// Fetch the next speech to play from the queue.
    FetchNextSpeech,
    /// Start playing the audio file of the given item.
    PlayAudio { id: u64, audio_path: String },
    /// Pause the audio sink.
    SinkPause,
    /// Let the audio sink play.
    SinkPlay,
    /// Stop the audio sink and drop what it holds.
    SinkStop,
    /// Seek the audio sink back to the start.
    SinkRestart,
    /// Mark the item as played in the queue.
    MarkCompleted(u64),
    /// Mark the item as skipped (played) in the queue.
    MarkSkipped(u64),
    /// Mark the item as paused in the queue.
    MarkPaused(u64),
    /// Mark the item as playing again in the queue.
    MarkResumed(u64),
    /// Mark the item as stopped (played) in the queue.
    MarkStopped(u64),
    /// Put the item back in front of the queue.
    Replay(u64),
    /// Save the player settings.
    SaveConfig,
    /// Tell the user interface that playback of an item started.
    EmitStarted(u64),
    /// Tell the user interface that playback paused.
    EmitPaused,
    /// Tell the user interface that playback resumed.
    EmitResumed,
    /// Tell the user interface that playback stopped.
    EmitStopped,
    /// Tell the user interface that the settings changed.
    EmitConfigChanged,
}

/// Player settings that outlive a run.
#[derive(Debug, Clone, Copy, PartialEq, Eq, Structural)]
pub struct PlayerConfig {
    pub auto_read: bool,
}

impl PlayerConfig {
    /// Auto-read is on by default.
    pub fn default_config() -> (c: PlayerConfig)
        ensures
            c.auto_read,
    {
        PlayerConfig { auto_read: true }
    }
}

/// The state the player decides by.
#[derive(Debug, Clone, Copy, PartialEq, Eq, Structural)]
pub struct PlayerState {
    /// Whether a speech that becomes ready is played without being asked.
    pub auto_read: bool,
    /// Whether the user stopped playback; cleared by resume and by turning
    /// auto-read on.
    pub stopped: bool,
    /// The item being played, if any.
    pub current_id: Option<u64>,
}

impl PlayerState {
    /// A player that has played nothing yet.
    pub fn new(auto_read: bool) -> (p: PlayerState)
        ensures
            p == (PlayerState { auto_read, stopped: false, current_id: None }),
    {
        PlayerState { auto_read, stopped: false, current_id: None }
    }

    /// The settings to save.
    pub fn config(&self) -> (c: PlayerConfig)
        ensures
            c.auto_read == self.auto_read,
    {
        PlayerConfig { auto_read: self.auto_read }
    }

    /// A request to play the next item: nothing while stopped or while the
    /// sink still plays, else fetch the next speech.
    pub fn on_play_next(&self, sink_empty: bool) -> (r: Vec<PlayerAction>)
        ensures
            r@ == play_next_plan(*self, sink_empty),
    {
        let mut r = Vec::new();
        if self.stopped || !sink_empty {
            return r;
        }
        r.push(PlayerAction::FetchNextSpeech);
        r
    }

    /// The queue's answer to a fetch.  A speech without audio is completed
    /// at once; one with audio starts playing if there is a sink, and
    /// playback is reported stopped otherwise.
    pub fn on_next_speech(&mut self, next: Option<PendingSpeechItem>, sink_ready: bool) -> (r: Vec<
        PlayerAction,
    >)
        ensures
            match next {
                None => r@ == Seq::<PlayerAction>::empty() && *final(self) == *old(self),
                Some(item) => match item.audio_path {
                    None => {
                        &&& r@ == seq![PlayerAction::MarkCompleted(item.id)]
                        &&& *final(self) == (PlayerState { current_id: None, ..*old(self) })
                    },
                    Some(path) => {
                        &&& *final(self) == (PlayerState { current_id: Some(item.id), ..*old(self) })
                        &&& r@ == (if sink_ready {
                            seq![
                                PlayerAction::EmitStarted(item.id),
                                PlayerAction::PlayAudio { id: item.id, audio_path: path },
                            ]
                        } else {
                            seq![PlayerAction::EmitStarted(item.id), PlayerAction::EmitStopped]
                        })
                    },
                },
            },
    {
        let mut r = Vec::new();
        let item = match next {
            None => return r,
            Some(item) => item,
        };
        let id = item.id;
        self.current_id = Some(id);
        match item.audio_path {
            None => {
                r.push(PlayerAction::MarkCompleted(id));
                self.current_id = None;
            },
            Some(path) => {
                r.push(PlayerAction::EmitStarted(id));
                if sink_ready {
                    r.push(PlayerAction::PlayAudio { id, audio_path: path });
                } else {
                    r.push(PlayerAction::EmitStopped);
                }
            },
        }
        r
    }

    /// The sink finished an item: mark it played and play the next, unless
    /// stopped.
    pub fn on_playback_complete(&mut self, id: u64) -> (r: Vec<PlayerAction>)
        ensures
            (*final(self), r@) == complete_result(*old(self), id),
    {
        let mut r = Vec::new();
        if self.stopped {
            return r;
        }
        self.current_id = None;
        r.push(PlayerAction::MarkCompleted(id));
        r.push(PlayerAction::PlayNext);
        r
    }

    /// A speech became ready: play it if auto-read is on.
    pub fn on_speech_ready(&self) -> (r: Vec<PlayerAction>)
        ensures
            r@ == (if self.auto_read {
                seq![PlayerAction::PlayNext]
            } else {
                Seq::<PlayerAction>::empty()
            }),
    {
        let mut r = Vec::new();
        if self.auto_read {
            r.push(PlayerAction::PlayNext);
        }
        r
    }

    /// The user paused.
    pub fn on_pause(&self) -> (r: Vec<PlayerAction>)
        ensures
            r@ == pause_plan(*self),
    {
        let mut r = Vec::new();
        r.push(PlayerAction::SinkPause);
        if let Some(id) = self.current_id {
            r.push(PlayerAction::MarkPaused(id));
        }
        r.push(PlayerAction::EmitPaused);
        r
    }

    /// The user resumed.  `sink_empty_after_play` is `None` when there is no
    /// sink, else whether the sink is empty once it plays again; an empty
    /// sink asks for the next item.
    pub fn on_resume(&mut self, sink_empty_after_play: Option<bool>) -> (r: Vec<PlayerAction>)
        ensures
            (*final(self), r@) == resume_result(*old(self), sink_empty_after_play),
    {
        let mut r = Vec::new();
        self.stopped = false;
        match sink_empty_after_play {
            None => {},
            Some(empty) => {
                r.push(PlayerAction::SinkPlay);
                if empty {
                    r.push(PlayerAction::PlayNext);
                }
            },
        }
        if let Some(id) = self.current_id {
            r.push(PlayerAction::MarkResumed(id));
        }
        r.push(PlayerAction::EmitResumed);
        proof {
            let a = match sink_empty_after_play {
                None => Seq::<PlayerAction>::empty(),
                Some(true) => seq![PlayerAction::SinkPlay, PlayerAction::PlayNext],
                Some(false) => seq![PlayerAction::SinkPlay],
            };
            let b = match old(self).current_id {
                Some(id) => seq![PlayerAction::MarkResumed(id)],
                None => Seq::<PlayerAction>::empty(),
            };
            assert(r@ =~= a + b + seq![PlayerAction::EmitResumed]);
        }
        r
    }

    /// The user stopped: the sink is cleared, the current item is marked
    /// stopped and forgotten, and nothing more plays until resumed.
    pub fn on_stop(&mut self) -> (r: Vec<PlayerAction>)
        ensures
            (*final(self), r@) == stop_result(*old(self)),
    {
        let mut r = Vec::new();
        r.push(PlayerAction::SinkStop);
        if let Some(id) = self.current_id {
            r.push(PlayerAction::MarkStopped(id));
            self.current_id = None;
        }
        self.stopped = true;
        r.push(PlayerAction::EmitStopped);
        r
    }

    /// The user skipped: the sink is cleared, the current item is marked
    /// skipped, and the next one is asked for.
    pub fn on_skip(&self) -> (r: Vec<PlayerAction>)
        ensures
            r@ == match self.current_id {
                Some(id) => seq![
                    PlayerAction::SinkStop,
                    PlayerAction::MarkSkipped(id),
                    PlayerAction::EmitStopped,
                    PlayerAction::PlayNext,
                ],
                None => seq![
                    PlayerAction::SinkStop,
                    PlayerAction::EmitStopped,
                    PlayerAction::PlayNext,
                ],
            },
    {
        let mut r = Vec::new();
        r.push(PlayerAction::SinkStop);
        if let Some(id) = self.current_id {
            r.push(PlayerAction::MarkSkipped(id));
        }
        r.push(PlayerAction::EmitStopped);
        r.push(PlayerAction::PlayNext);
        r
    }

    /// The user asked to hear the current item from its start.
    pub fn on_restart(&self) -> (r: Vec<PlayerAction>)
        ensures
            r@ == seq![PlayerAction::SinkRestart],
    {
        let mut r = Vec::new();
        r.push(PlayerAction::SinkRestart);
        r
    }

    /// The user asked to hear an item again.
    pub fn on_replay(&self, id: u64) -> (r: Vec<PlayerAction>)
        ensures
            r@ == seq![PlayerAction::SinkStop, PlayerAction::Replay(id), PlayerAction::PlayNext],
    {
        let mut r = Vec::new();
        r.push(PlayerAction::SinkStop);
        r.push(PlayerAction::Replay(id));
        r.push(PlayerAction::PlayNext);
        r
    }

    /// The user flipped auto-read.  Turning it on also lifts a stop and asks
    /// for the next item.  Returns the new setting with the actions.
    pub fn on_toggle_auto_read(&mut self) -> (r: (bool, Vec<PlayerAction>))
        ensures
            r.0 == final(self).auto_read,
            (*final(self), r.1@) == toggle_result(*old(self)),
    {
        let mut r = Vec::new();
        self.auto_read = !self.auto_read;
        r.push(PlayerAction::SaveConfig);
        r.push(PlayerAction::EmitConfigChanged);
        if self.auto_read {
            self.stopped = false;
            r.push(PlayerAction::PlayNext);
        }
        (self.auto_read, r)
    }

    /// Records which item is playing.
    pub fn set_current_id(&mut self, id: Option<u64>)
        ensures
            *final(self) == (PlayerState { current_id: id, ..*old(self) }),
    {
        self.current_id = id;
    }
}

/// What a request to play next asks for.
pub open spec fn play_next_plan(p: PlayerState, sink_empty: bool) -> Seq<PlayerAction> {
    if p.stopped || !sink_empty {
        Seq::<PlayerAction>::empty()
    } else {
        seq![PlayerAction::FetchNextSpeech]
    }
}

/// The player after the end of an item, and what it asks for.
pub open spec fn complete_result(p: PlayerState, id: u64) -> (PlayerState, Seq<PlayerAction>) {
    if p.stopped {
        (p, Seq::<PlayerAction>::empty())
    } else {
        (
            PlayerState { current_id: None, ..p },
            seq![PlayerAction::MarkCompleted(id), PlayerAction::PlayNext],
        )
    }
}

/// What a pause asks for.
pub open spec fn pause_plan(p: PlayerState) -> Seq<PlayerAction> {
    match p.current_id {
        Some(id) => seq![PlayerAction::SinkPause, PlayerAction::MarkPaused(id), PlayerAction::EmitPaused],
        None => seq![PlayerAction::SinkPause, PlayerAction::EmitPaused],
    }
}

/// The player after a resume, and what it asks for.
pub open spec fn resume_result(p: PlayerState, sink_empty_after_play: Option<bool>) -> (
    PlayerState,
    Seq<PlayerAction>,
) {
    (
        PlayerState { stopped: false, ..p },
        (match sink_empty_after_play {
            None => Seq::<PlayerAction>::empty(),
            Some(true) => seq![PlayerAction::SinkPlay, PlayerAction::PlayNext],
            Some(false) => seq![PlayerAction::SinkPlay],
        }) + (match p.current_id {
            Some(id) => seq![PlayerAction::MarkResumed(id)],
            None => Seq::<PlayerAction>::empty(),
        }) + seq![PlayerAction::EmitResumed],
    )
}

/// The player after a stop, and what it asks for.
pub open spec fn stop_result(p: PlayerState) -> (PlayerState, Seq<PlayerAction>) {
    (
        PlayerState { stopped: true, current_id: None, ..p },
        match p.current_id {
            Some(id) => seq![PlayerAction::SinkStop, PlayerAction::MarkStopped(id), PlayerAction::EmitStopped],
            None => seq![PlayerAction::SinkStop, PlayerAction::EmitStopped],
        },
    )
}

/// The player after flipping auto-read, and what it asks for.
pub open spec fn toggle_result(p: PlayerState) -> (PlayerState, Seq<PlayerAction>) {
    if !p.auto_read {
        (
            PlayerState { auto_read: true, stopped: false, ..p },
            seq![PlayerAction::SaveConfig, PlayerAction::EmitConfigChanged, PlayerAction::PlayNext],
        )
    } else {
        (
            PlayerState { auto_read: false, ..p },
            seq![PlayerAction::SaveConfig, PlayerAction::EmitConfigChanged],
        )
    }
}

/// After a stop the player plays nothing on its own: a request to play next
/// fetches nothing and the end of an item changes nothing, until the user
/// resumes or turns auto-read on; a later pause marks no item.
pub proof fn law_stop_silences_player(p: PlayerState, sink_empty: bool, id: u64)
    ensures
        play_next_plan(stop_result(p).0, sink_empty) == Seq::<PlayerAction>::empty(),
        complete_result(stop_result(p).0, id) == (stop_result(p).0, Seq::<PlayerAction>::empty()),
        pause_plan(stop_result(p).0) == seq![PlayerAction::SinkPause, PlayerAction::EmitPaused],
{
}

/// A resume lifts a stop: afterwards an empty sink fetches the next speech.
pub proof fn law_resume_lifts_stop(p: PlayerState, sink: Option<bool>)
    ensures
        !resume_result(p, sink).0.stopped,
        play_next_plan(resume_result(p, sink).0, true) == seq![PlayerAction::FetchNextSpeech],
{
}

/// Flipping auto-read twice gives back the setting, and each flip asks for
/// the settings to be saved.
pub proof fn law_toggle_twice_restores(p: PlayerState)
    ensures
        toggle_result(toggle_result(p).0).0.auto_read == p.auto_read,
        toggle_result(toggle_result(p).0).0.current_id == p.current_id,
        toggle_result(p).1[0] == PlayerAction::SaveConfig,
{
}

} // verus!
