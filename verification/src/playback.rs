//! The one owner of the audio output: its queue, its transport state, its
//! volume and its speed.

use crate::router::{Change, Level, Transport, UNIT};
use crate::text::views;
use vstd::prelude::*;
use vstd::string::*;

verus! {

/// What the output is doing.
#[derive(Debug, PartialEq, Eq, Structural, Clone, Copy)]
pub enum PlaybackStatus {
    /// Nothing is queued.
    Stopped,
    /// Something is queued and the output runs.
    Playing,
    /// Something is queued and the output is held.
    Paused,
}

/// What the device is told to do. The coordinator decides; the device
/// layer performs.
#[derive(Debug)]
pub enum AudioCommand {
    /// Append the stored audio of `song_id` to the output queue.
    Append { song_id: String },
    /// Hold the output.
    Pause,
    /// Let the output run.
    Resume,
    /// Drop what is playing, then let the output run.
    Skip,
    /// Drop everything that is queued.
    Stop,
    /// Set the volume, in millionths of the nominal volume.
    SetVolume(Level),
    /// Set the speed, in millionths of the nominal speed.
    SetSpeed(Level),
}

/// Mathematical value of an `AudioCommand`.
pub enum AudioCommandView {
    Append { song_id: Seq<char> },
    Pause,
    Resume,
    Skip,
    Stop,
    SetVolume(nat),
    SetSpeed(nat),
}

impl View for AudioCommand {
    type V = AudioCommandView;

    open spec fn view(&self) -> AudioCommandView {
        match self {
            AudioCommand::Append { song_id } => AudioCommandView::Append { song_id: song_id@ },
            AudioCommand::Pause => AudioCommandView::Pause,
            AudioCommand::Resume => AudioCommandView::Resume,
            AudioCommand::Skip => AudioCommandView::Skip,
            AudioCommand::Stop => AudioCommandView::Stop,
            AudioCommand::SetVolume(l) => AudioCommandView::SetVolume(*l as nat),
            AudioCommand::SetSpeed(l) => AudioCommandView::SetSpeed(*l as nat),
        }
    }
}

/// The greatest level that can be held.
pub open spec fn max_level() -> nat {
    u64::MAX as nat
}

/// The level that `change` makes of `level`. A factor is applied exactly,
/// the quotient rounded down to a whole millionth; a product beyond
/// `max_level()` gives `max_level()`.
pub open spec fn changed_level(level: nat, change: Change) -> nat {
    match change {
        Change::Absolute(a) => a as nat,
        Change::Scale(percent) => {
            let scaled = (level * (percent as nat)) / 100;
            if scaled > max_level() {
                max_level()
            } else {
                scaled
            }
        },
    }
}

/// Mathematical value of a `PlaybackCoordinator`.
pub struct PlaybackView {
    /// The ids appended and not yet known to be gone, oldest first.
    pub queue: Seq<Seq<char>>,
    pub paused: bool,
    pub volume: nat,
    pub speed: nat,
}

impl PlaybackView {
    /// The coordinator before anything was asked of it.
    pub open spec fn initial() -> PlaybackView {
        PlaybackView { queue: Seq::empty(), paused: false, volume: UNIT as nat, speed: UNIT as nat }
    }

    pub open spec fn status(self) -> PlaybackStatus {
        if self.queue.len() == 0 {
            PlaybackStatus::Stopped
        } else if self.paused {
            PlaybackStatus::Paused
        } else {
            PlaybackStatus::Playing
        }
    }

    pub open spec fn play(self, song_id: Seq<char>) -> PlaybackView {
        PlaybackView { queue: self.queue.push(song_id), ..self }
    }

    pub open spec fn pause(self) -> PlaybackView {
        PlaybackView { paused: true, ..self }
    }

    pub open spec fn resume(self) -> PlaybackView {
        PlaybackView { paused: false, ..self }
    }

    pub open spec fn stop(self) -> PlaybackView {
        PlaybackView { queue: Seq::empty(), ..self }
    }

    pub open spec fn skip(self) -> PlaybackView {
        PlaybackView {
            queue: if self.queue.len() > 0 {
                self.queue.drop_first()
            } else {
                self.queue
            },
            paused: false,
            ..self
        }
    }

    pub open spec fn transport(self, t: Transport) -> PlaybackView {
        match t {
            Transport::Pause => self.pause(),
            Transport::Resume => self.resume(),
            Transport::Skip => self.skip(),
            Transport::Stop => self.stop(),
        }
    }

    pub open spec fn set_volume(self, change: Change) -> PlaybackView {
        PlaybackView { volume: changed_level(self.volume, change), ..self }
    }

    pub open spec fn set_speed(self, change: Change) -> PlaybackView {
        PlaybackView { speed: changed_level(self.speed, change), ..self }
    }

    /// What is known after the device reported whether its queue is empty.
    pub open spec fn observe(self, queue_empty: bool) -> PlaybackView {
        if queue_empty {
            PlaybackView { queue: Seq::empty(), ..self }
        } else {
            self
        }
    }
}

/// The command that tells the device of a transport transition.
pub open spec fn transport_command(t: Transport) -> AudioCommandView {
    match t {
        Transport::Pause => AudioCommandView::Pause,
        Transport::Resume => AudioCommandView::Resume,
        Transport::Skip => AudioCommandView::Skip,
        Transport::Stop => AudioCommandView::Stop,
    }
}

/// Applies `change` to `level`, as `changed_level` states.
pub fn change_level(level: Level, change: Change) -> (r: Level)
    ensures
        r as nat == changed_level(level as nat, change),
{
    match change {
        Change::Absolute(a) => a,
        Change::Scale(percent) => {
            assert((level as nat) * (percent as nat) <= (u64::MAX as nat) * (u64::MAX as nat))
                by (nonlinear_arith)
                requires
                    level as nat <= u64::MAX as nat,
                    percent as nat <= u64::MAX as nat,
            ;
            let product: u128 = (level as u128) * (percent as u128);
            let scaled: u128 = product / 100;
            if scaled > u64::MAX as u128 {
                u64::MAX
            } else {
                scaled as u64
            }
        },
    }
}

/// Owns the output. Every mutation goes through one of its methods and
/// takes effect at once; the last caller wins.
pub struct PlaybackCoordinator {
    queue: Vec<String>,
    paused: bool,
    volume: Level,
    speed: Level,
}

impl View for PlaybackCoordinator {
    type V = PlaybackView;

    closed spec fn view(&self) -> PlaybackView {
        PlaybackView {
            queue: views(self.queue@),
            paused: self.paused,
            volume: self.volume as nat,
            speed: self.speed as nat,
        }
    }
}

impl PlaybackCoordinator {
    /// A coordinator with an empty queue, running, at nominal volume and
    /// speed.
    pub fn new() -> (r: Self)
        ensures
            r@ == PlaybackView::initial(),
    {
        let r = PlaybackCoordinator { queue: Vec::new(), paused: false, volume: UNIT, speed: UNIT };
        assert(views(r.queue@) =~= Seq::<Seq<char>>::empty());
        r
    }

    pub fn status(&self) -> (r: PlaybackStatus)
        ensures
            r == self@.status(),
    {
        if self.queue.len() == 0 {
            PlaybackStatus::Stopped
        } else if self.paused {
            PlaybackStatus::Paused
        } else {
            PlaybackStatus::Playing
        }
    }

    pub fn volume(&self) -> (r: Level)
        ensures
            r as nat == self@.volume,
    {
        self.volume
    }

    pub fn speed(&self) -> (r: Level)
        ensures
            r as nat == self@.speed,
    {
        self.speed
    }

    /// How many ids are queued.
    pub fn queued(&self) -> (n: usize)
        ensures
            n == self@.queue.len(),
    {
        self.queue.len()
    }

    /// Appends the audio of `song_id` to the output queue.
    pub fn play(&mut self, song_id: &str) -> (cmd: AudioCommand)
        ensures
            final(self)@ == old(self)@.play(song_id@),
            cmd@ == (AudioCommandView::Append { song_id: song_id@ }),
    {
        let ghost before = self@;
        self.queue.push(String::from_str(song_id));
        assert(views(self.queue@) =~= before.queue.push(song_id@));
        AudioCommand::Append { song_id: String::from_str(song_id) }
    }

    pub fn pause(&mut self) -> (cmd: AudioCommand)
        ensures
            final(self)@ == old(self)@.pause(),
            cmd@ == AudioCommandView::Pause,
    {
        self.paused = true;
        AudioCommand::Pause
    }

    pub fn resume(&mut self) -> (cmd: AudioCommand)
        ensures
            final(self)@ == old(self)@.resume(),
            cmd@ == AudioCommandView::Resume,
    {
        self.paused = false;
        AudioCommand::Resume
    }

    /// Clears the queue.
    pub fn stop(&mut self) -> (cmd: AudioCommand)
        ensures
            final(self)@ == old(self)@.stop(),
            cmd@ == AudioCommandView::Stop,
    {
        self.queue.clear();
        assert(views(self.queue@) =~= Seq::<Seq<char>>::empty());
        AudioCommand::Stop
    }

    /// Drops what is playing and lets the output run.
    pub fn skip(&mut self) -> (cmd: AudioCommand)
        ensures
            final(self)@ == old(self)@.skip(),
            cmd@ == AudioCommandView::Skip,
    {
        let ghost before = self@;
        if self.queue.len() > 0 {
            let _ = self.queue.remove(0);
            assert(views(self.queue@) =~= before.queue.drop_first());
        }
        self.paused = false;
        AudioCommand::Skip
    }

    /// Performs a transport transition.
    pub fn transport(&mut self, t: Transport) -> (cmd: AudioCommand)
        ensures
            final(self)@ == old(self)@.transport(t),
            cmd@ == transport_command(t),
    {
        match t {
            Transport::Pause => self.pause(),
            Transport::Resume => self.resume(),
            Transport::Skip => self.skip(),
            Transport::Stop => self.stop(),
        }
    }

    /// Changes the volume: to a level, or by a factor of the volume in
    /// force.
    pub fn set_volume(&mut self, change: Change) -> (cmd: AudioCommand)
        ensures
            final(self)@ == old(self)@.set_volume(change),
            cmd@ == AudioCommandView::SetVolume(final(self)@.volume),
    {
        self.volume = change_level(self.volume, change);
        AudioCommand::SetVolume(self.volume)
    }

    /// Changes the speed: to a level, or by a factor of the speed in force.
    pub fn set_speed(&mut self, change: Change) -> (cmd: AudioCommand)
        ensures
            final(self)@ == old(self)@.set_speed(change),
            cmd@ == AudioCommandView::SetSpeed(final(self)@.speed),
    {
        self.speed = change_level(self.speed, change);
        AudioCommand::SetSpeed(self.speed)
    }

    /// Takes note of what the device reports of its queue, and says
    /// whether the output is idle.
    pub fn observe(&mut self, queue_empty: bool) -> (idle: bool)
        ensures
            final(self)@ == old(self)@.observe(queue_empty),
            idle == queue_empty,
    {
        if queue_empty {
            self.queue.clear();
            assert(views(self.queue@) =~= Seq::<Seq<char>>::empty());
        }
        queue_empty
    }
}

/// Turning the volume up and then down does not bring it back: from a
/// volume `v` whose raised value can be held, the result is `v` times 1.2
/// times 0.8, each product rounded down to a whole millionth. That is
/// below `v` for every `v` above zero, and exactly 0.96 `v` where `v` is a
/// multiple of 25 millionths.
pub proof fn lemma_up_then_down_loses_volume(v: nat)
    requires
        v * 120 / 100 <= max_level(),
    ensures
        changed_level(changed_level(v, Change::Scale(120)), Change::Scale(80)) == (v * 120 / 100)
            * 80 / 100,
        v > 0 ==> changed_level(changed_level(v, Change::Scale(120)), Change::Scale(80)) < v,
        v % 25 == 0 ==> changed_level(changed_level(v, Change::Scale(120)), Change::Scale(80)) * 100
            == v * 96,
{
    let up = v * 120 / 100;
    assert(changed_level(v, Change::Scale(120)) == up);
    let down = up * 80 / 100;
    assert(down <= up);
    assert(changed_level(up, Change::Scale(80)) == down);
    assert(up * 100 <= v * 120);
    assert(down * 100 <= up * 80);
    if v % 25 == 0 {
        let k = v / 25;
        assert(v == 25 * k);
        assert(up == 30 * k);
        assert(down == 24 * k);
    }
}

} // verus!
