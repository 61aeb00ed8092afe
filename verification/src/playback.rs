//! The playback control state: the flags the user interface raises and the
//! state the playback loop reports, with the decisions the loop takes on
//! each tick; and the latch that reports the end of a played item once.
use vstd::prelude::*;

verus! {

/// Whether audio is idle, playing or paused.
#[derive(Debug, Clone, Copy, PartialEq, Eq, Structural)]
pub enum PlaybackState {
    Idle,
    Playing,
    Paused,
}

/// The state a stored byte stands for: 1 playing, 2 paused, anything else
/// idle.
pub open spec fn state_of_byte(v: u8) -> PlaybackState {
    if v == 1 {
        PlaybackState::Playing
    } else if v == 2 {
        PlaybackState::Paused
    } else {
        PlaybackState::Idle
    }
}

impl PlaybackState {
    /// The byte a state is stored as: idle 0, playing 1, paused 2.
    pub fn to_u8(self) -> (v: u8)
        ensures
            v == (match self {
                PlaybackState::Idle => 0u8,
                PlaybackState::Playing => 1u8,
                PlaybackState::Paused => 2u8,
            }),
            state_of_byte(v) == self,
    {
        match self {
            PlaybackState::Idle => 0,
            PlaybackState::Playing => 1,
            PlaybackState::Paused => 2,
        }
    }
}

impl From<u8> for PlaybackState {
    fn from(v: u8) -> (s: PlaybackState) {
        if v == 1 {
            PlaybackState::Playing
        } else if v == 2 {
            PlaybackState::Paused
        } else {
            PlaybackState::Idle
        }
    }
}

impl vstd::std_specs::convert::FromSpecImpl<u8> for PlaybackState {
    open spec fn obeys_from_spec() -> bool {
        true
    }

    open spec fn from_spec(v: u8) -> PlaybackState {
        state_of_byte(v)
    }
}

/// What the playback loop does after a tick.
#[derive(Debug, Clone, Copy, PartialEq, Eq, Structural)]
pub enum TickAction {
    /// Stop playing and report the item as interrupted.
    Interrupt,
    /// Pause the sink and wait until resumed or stopped.
    WaitWhilePaused,
    /// Keep playing (and finish once the sink runs empty).
    Continue,
}

/// The flags and state shared between the controls and the playback loop.
#[derive(Debug, Clone, Copy, PartialEq, Eq, Structural)]
pub struct PlaybackController {
    pub stop_flag: bool,
    pub pause_flag: bool,
    pub state: PlaybackState,
}

/// The controller after a stop request.
pub open spec fn stopped(c: PlaybackController) -> PlaybackController {
    PlaybackController { stop_flag: true, pause_flag: false, state: PlaybackState::Idle }
}

/// The controller after a pause request: only a playing controller pauses.
pub open spec fn paused(c: PlaybackController) -> PlaybackController {
    if c.state == PlaybackState::Playing {
        PlaybackController { pause_flag: true, state: PlaybackState::Paused, ..c }
    } else {
        c
    }
}

/// The controller after a resume request: only a paused controller resumes.
pub open spec fn resumed(c: PlaybackController) -> PlaybackController {
    if c.state == PlaybackState::Paused {
        PlaybackController { pause_flag: false, state: PlaybackState::Playing, ..c }
    } else {
        c
    }
}

/// The controller and decision after a tick of the playback loop.
pub open spec fn ticked(c: PlaybackController) -> (PlaybackController, TickAction) {
    if c.stop_flag {
        (
            PlaybackController { stop_flag: false, pause_flag: false, state: PlaybackState::Idle },
            TickAction::Interrupt,
        )
    } else if c.pause_flag {
        (PlaybackController { state: PlaybackState::Paused, ..c }, TickAction::WaitWhilePaused)
    } else {
        (c, TickAction::Continue)
    }
}

/// The controller after the loop wakes from a pause, and whether the item
/// was interrupted.
pub open spec fn woken(c: PlaybackController) -> (PlaybackController, bool) {
    if c.stop_flag {
        (
            PlaybackController { stop_flag: false, pause_flag: false, state: PlaybackState::Idle },
            true,
        )
    } else {
        (PlaybackController { state: PlaybackState::Playing, ..c }, false)
    }
}

impl PlaybackController {
    /// An idle controller with both flags down.
    pub fn new() -> (c: PlaybackController)
        ensures
            c == (PlaybackController {
                stop_flag: false,
                pause_flag: false,
                state: PlaybackState::Idle,
            }),
    {
        PlaybackController { stop_flag: false, pause_flag: false, state: PlaybackState::Idle }
    }

    /// Asks the loop to stop: raises the stop flag, lowers the pause flag and
    /// reports idle.
    pub fn stop(&mut self)
        ensures
            *final(self) == stopped(*old(self)),
    {
        self.stop_flag = true;
        self.pause_flag = false;
        self.state = PlaybackState::Idle;
    }

    /// Asks the loop to pause, when playing.
    pub fn pause(&mut self)
        ensures
            *final(self) == paused(*old(self)),
    {
        if self.state == PlaybackState::Playing {
            self.pause_flag = true;
            self.state = PlaybackState::Paused;
        }
    }

    /// Asks the loop to resume, when paused.
    pub fn resume(&mut self)
        ensures
            *final(self) == resumed(*old(self)),
    {
        if self.state == PlaybackState::Paused {
            self.pause_flag = false;
            self.state = PlaybackState::Playing;
        }
    }

    /// Whether nothing plays.
    pub fn is_idle(&self) -> (r: bool)
        ensures
            r == (self.state == PlaybackState::Idle),
    {
        self.state == PlaybackState::Idle
    }

    /// The reported state.
    pub fn playback_state(&self) -> (r: PlaybackState)
        ensures
            r == self.state,
    {
        self.state
    }

    /// Whether a stop was requested that the loop has not served.
    pub fn stop_flag(&self) -> (r: bool)
        ensures
            r == self.stop_flag,
    {
        self.stop_flag
    }

    /// Whether a pause is in force.
    pub fn pause_flag(&self) -> (r: bool)
        ensures
            r == self.pause_flag,
    {
        self.pause_flag
    }

    /// Sets the reported state, as the playback loop does.
    pub fn set_state(&mut self, state: PlaybackState)
        ensures
            *final(self) == (PlaybackController { state, ..*old(self) }),
    {
        self.state = state;
    }

    /// The loop starts playing an item.
    pub fn start(&mut self)
        ensures
            *final(self) == (PlaybackController { state: PlaybackState::Playing, ..*old(self) }),
    {
        self.state = PlaybackState::Playing;
    }

    /// A tick of the playback loop: a pending stop interrupts the item and
    /// clears both flags; a pause makes the loop wait; otherwise it goes on.
    pub fn on_tick(&mut self) -> (r: TickAction)
        ensures
            (*final(self), r) == ticked(*old(self)),
    {
        if self.stop_flag {
            self.stop_flag = false;
            self.pause_flag = false;
            self.state = PlaybackState::Idle;
            TickAction::Interrupt
        } else if self.pause_flag {
            self.state = PlaybackState::Paused;
            TickAction::WaitWhilePaused
        } else {
            TickAction::Continue
        }
    }

    /// Whether the loop keeps waiting: paused and not asked to stop.
    pub fn keeps_waiting(&self) -> (r: bool)
        ensures
            r == (self.pause_flag && !self.stop_flag),
    {
        self.pause_flag && !self.stop_flag
    }

    /// The loop wakes from a pause: a stop interrupts the item, otherwise it
    /// plays on.  Returns whether the item was interrupted.
    pub fn on_wake(&mut self) -> (interrupted: bool)
        ensures
            (*final(self), interrupted) == woken(*old(self)),
    {
        if self.stop_flag {
            self.stop_flag = false;
            self.pause_flag = false;
            self.state = PlaybackState::Idle;
            true
        } else {
            self.state = PlaybackState::Playing;
            false
        }
    }
}

/// A stop request always ends the item being played at the next tick, and
/// leaves the controller idle with both flags down.
pub proof fn law_stop_interrupts(c: PlaybackController)
    ensures
        ticked(stopped(c)).1 == TickAction::Interrupt,
        ticked(stopped(c)).0 == PlaybackController::new_spec(),
        woken(stopped(c)).1,
{
}

/// Pausing a playing controller and resuming it gives it back as it was,
/// with the pause flag down.
pub proof fn law_pause_resume_roundtrip(c: PlaybackController)
    requires
        c.state == PlaybackState::Playing,
        !c.pause_flag,
    ensures
        resumed(paused(c)) == c,
{
}

/// Pause and resume change nothing on an idle controller.
pub proof fn law_idle_ignores_pause_and_resume(c: PlaybackController)
    requires
        c.state == PlaybackState::Idle,
    ensures
        paused(c) == c,
        resumed(c) == c,
{
}

impl PlaybackController {
    /// The controller `new` gives.
    pub open spec fn new_spec() -> PlaybackController {
        PlaybackController { stop_flag: false, pause_flag: false, state: PlaybackState::Idle }
    }
}

/// The latch that reports the end of an item's audio exactly once.
#[derive(Debug, Clone, Copy, PartialEq, Eq, Structural)]
pub struct EndNotifier {
    pub id: u64,
    pub done: bool,
}

impl EndNotifier {
    /// A latch for the item `id` whose audio has not ended.
    pub fn new(id: u64) -> (n: EndNotifier)
        ensures
            n == (EndNotifier { id, done: false }),
    {
        EndNotifier { id, done: false }
    }

    /// Whether the audio source should still be asked for samples.
    pub fn wants_next(&self) -> (r: bool)
        ensures
            r == !self.done,
    {
        !self.done
    }

    /// Passes on what the audio source gave.  The first time it gives
    /// nothing, the latch closes and names the item to report as ended;
    /// once closed it passes on nothing.
    pub fn observe<T>(&mut self, sample: Option<T>) -> (r: (Option<T>, Option<u64>))
        ensures
            (*final(self), r.0, r.1) == observed(*old(self), sample),
            old(self).done ==> r == (None::<T>, None::<u64>) && *final(self) == *old(self),
            !old(self).done ==> match sample {
                Some(x) => r == (Some(x), None::<u64>) && *final(self) == *old(self),
                None => r == (None::<T>, Some(old(self).id)) && *final(self) == (EndNotifier {
                    done: true,
                    ..*old(self)
                }),
            },
    {
        if self.done {
            return (None, None);
        }
        match sample {
            Some(x) => (Some(x), None),
            None => {
                self.done = true;
                (None, Some(self.id))
            },
        }
    }
}

/// One step of the latch: the latch after passing on what the source gave,
/// what it passes on, and the item it reports as ended.
pub open spec fn observed<T>(n: EndNotifier, sample: Option<T>) -> (EndNotifier, Option<T>, Option<u64>) {
    if n.done {
        (n, None, None)
    } else {
        match sample {
            Some(x) => (n, Some(x), None),
            None => (EndNotifier { done: true, ..n }, None, Some(n.id)),
        }
    }
}

/// A run of the latch over what the source gives on successive calls: what
/// each call passes on, and what each call reports as ended.
pub open spec fn latch_run<T>(n: EndNotifier, samples: Seq<Option<T>>) -> (Seq<Option<T>>, Seq<Option<u64>>)
    decreases samples.len(),
{
    if samples.len() == 0 {
        (Seq::<Option<T>>::empty(), Seq::<Option<u64>>::empty())
    } else {
        let (next, out, report) = observed(n, samples[0]);
        let rest = latch_run(next, samples.drop_first());
        (seq![out] + rest.0, seq![report] + rest.1)
    }
}

/// A closed latch passes on nothing and reports nothing.
proof fn lemma_closed_latch_run<T>(n: EndNotifier, samples: Seq<Option<T>>)
    requires
        n.done,
    ensures
        latch_run(n, samples).0.len() == samples.len(),
        latch_run(n, samples).1.len() == samples.len(),
        forall|i: int| 0 <= i < samples.len() ==> (#[trigger] latch_run(n, samples).0[i]) is None,
        forall|i: int| 0 <= i < samples.len() ==> (#[trigger] latch_run(n, samples).1[i]) is None,
    decreases samples.len(),
{
    if samples.len() > 0 {
        lemma_closed_latch_run(n, samples.drop_first());
        let r = latch_run(n, samples);
        let t = latch_run(n, samples.drop_first());
        assert forall|i: int| 0 <= i < samples.len() implies (#[trigger] r.0[i]) is None by {
            if i > 0 {
                assert(r.0[i] == t.0[i - 1]);
            }
        }
        assert forall|i: int| 0 <= i < samples.len() implies (#[trigger] r.1[i]) is None by {
            if i > 0 {
                assert(r.1[i] == t.1[i - 1]);
            }
        }
    }
}

/// A new latch over a source that yields `xs` and then runs out (whatever it
/// would give afterwards) passes on exactly `xs` and then nothing, and
/// reports the item as ended exactly once: on the first call that finds the
/// source empty, also when `xs` is empty.
pub proof fn law_end_reported_once<T>(id: u64, xs: Seq<T>, later: Seq<Option<T>>)
    ensures
        ({
            let samples = xs.map_values(|x: T| Some(x)) + seq![None::<T>] + later;
            let (outs, reports) = latch_run(EndNotifier::new_spec(id), samples);
            &&& outs.len() == samples.len()
            &&& reports.len() == samples.len()
            &&& forall|i: int| 0 <= i < xs.len() ==> #[trigger] outs[i] == Some(xs[i])
            &&& forall|i: int| xs.len() <= i < samples.len() ==> (#[trigger] outs[i]) is None
            &&& reports[xs.len() as int] == Some(id)
            &&& forall|i: int|
                0 <= i < samples.len() && i != xs.len() ==> (#[trigger] reports[i]) is None
        }),
    decreases xs.len(),
{
    let n = EndNotifier::new_spec(id);
    let samples = xs.map_values(|x: T| Some(x)) + seq![None::<T>] + later;
    let r = latch_run(n, samples);
    if xs.len() == 0 {
        assert(samples =~= seq![None::<T>] + later);
        assert(samples[0] is None);
        assert(samples.drop_first() =~= later);
        let closed = EndNotifier { done: true, ..n };
        lemma_closed_latch_run(closed, later);
        let t = latch_run(closed, later);
        assert forall|i: int| 0 <= i < samples.len() && i != 0 implies (#[trigger] r.1[i]) is None by {
            assert(r.1[i] == t.1[i - 1]);
        }
        assert forall|i: int| 0 <= i < samples.len() implies (#[trigger] r.0[i]) is None by {
            if i > 0 {
                assert(r.0[i] == t.0[i - 1]);
            }
        }
    } else {
        let ys = xs.drop_first();
        law_end_reported_once(id, ys, later);
        let rest = ys.map_values(|x: T| Some(x)) + seq![None::<T>] + later;
        assert(samples[0] == Some(xs[0]));
        assert(samples.drop_first() =~= rest);
        let t = latch_run(n, rest);
        assert forall|i: int| 0 <= i < xs.len() implies #[trigger] r.0[i] == Some(xs[i]) by {
            if i > 0 {
                assert(r.0[i] == t.0[i - 1]);
                assert(ys[i - 1] == xs[i]);
            }
        }
        assert forall|i: int| xs.len() <= i < samples.len() implies (#[trigger] r.0[i]) is None by {
            assert(r.0[i] == t.0[i - 1]);
        }
        assert(r.1[xs.len() as int] == t.1[ys.len() as int]);
        assert forall|i: int| 0 <= i < samples.len() && i != xs.len() implies (#[trigger] r.1[i]) is None by {
            if i > 0 {
                assert(r.1[i] == t.1[i - 1]);
            }
        }
    }
}

impl EndNotifier {
    /// The latch `new` gives.
    pub open spec fn new_spec(id: u64) -> EndNotifier {
        EndNotifier { id, done: false }
    }
}

} // verus!
