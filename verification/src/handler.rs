//! The handler of the song commands: what it decides for each event and
//! for each answer of a collaborator.
//!
//! The handler performs nothing itself. It keeps the playlist and the
//! playback coordinator, and returns the effects that its caller carries
//! out in order: chat lines to send, writes to mirror into the durable
//! store, commands for the audio device, and questions whose answers the
//! caller hands back through `on_info` and `on_audio`.

use crate::playback::{AudioCommand, AudioCommandView, PlaybackCoordinator, PlaybackView, transport_command};
use crate::playlist::{
    PlaylistState, PlaylistView, Song, SongView, lemma_operations_keep_wf, opt_view,
};
use crate::retrier::{local_path, make_local_path};
use crate::router::{
    Action, ActionView, Command, CommandRouter, admin_required, in_table, lemma_lookup_literal,
    literal, route_spec,
};
use crate::text::{concat2, concat4, concat5, split_whitespace, tokens, views};
use crate::bus::{Received, ReceivedView};
use crate::types::{Event, EventView, UserMessage, UserMessageView};
use vstd::prelude::*;
use vstd::string::*;

verus! {

/// Why the handling of one input failed. The failure is logged by the
/// caller; the handler's loop goes on.
#[derive(Debug, PartialEq, Eq, Structural, Clone, Copy)]
pub enum HandlerError {
    /// No song goes by the id, or its audio is not in the local store.
    NotFound,
    /// The stored audio does not decode.
    Decode,
}

/// Whether the handler's loop goes on after this input.
#[derive(Debug, PartialEq, Eq, Structural, Clone, Copy)]
pub enum Flow {
    Continue,
    /// `Shutdown` was seen: the loop returns.
    Stop,
    /// The bus is closed: the task ends with a failure, which ends the
    /// run of the bus.
    Fail,
}

/// What the song service knows of a song.
#[derive(Debug)]
pub struct SongInfo {
    pub id: String,
    pub title: String,
    pub tags: String,
    pub prompt: String,
    pub gpt_description_prompt: String,
    pub audio_url: String,
    pub lyric: Option<String>,
}

/// Mathematical value of a `SongInfo`.
pub struct SongInfoView {
    pub id: Seq<char>,
    pub title: Seq<char>,
    pub tags: Seq<char>,
    pub prompt: Seq<char>,
    pub gpt_description_prompt: Seq<char>,
    pub audio_url: Seq<char>,
    pub lyric: Option<Seq<char>>,
}

impl View for SongInfo {
    type V = SongInfoView;

    open spec fn view(&self) -> SongInfoView {
        SongInfoView {
            id: self.id@,
            title: self.title@,
            tags: self.tags@,
            prompt: self.prompt@,
            gpt_description_prompt: self.gpt_description_prompt@,
            audio_url: self.audio_url@,
            lyric: opt_view(self.lyric),
        }
    }
}

/// What opening and decoding the stored audio of a song gave.
#[derive(Debug, PartialEq, Eq, Structural, Clone, Copy)]
pub enum AudioProbe {
    /// The file is there and decodes.
    Ready,
    /// There is no such file.
    Missing,
    /// The file is there and does not decode.
    Corrupt,
}

/// A write to the playlist, to be mirrored into the durable store.
#[derive(Debug)]
pub enum PlaylistWrite {
    Upsert(Song),
    Enqueue { song_id: String },
    MarkPlayed { song_id: String, at: i64 },
    MarkAllStopped,
}

/// Mathematical value of a `PlaylistWrite`.
pub enum PlaylistWriteView {
    Upsert(SongView),
    Enqueue { song_id: Seq<char> },
    MarkPlayed { song_id: Seq<char>, at: int },
    MarkAllStopped,
}

impl View for PlaylistWrite {
    type V = PlaylistWriteView;

    open spec fn view(&self) -> PlaylistWriteView {
        match self {
            PlaylistWrite::Upsert(s) => PlaylistWriteView::Upsert(s@),
            PlaylistWrite::Enqueue { song_id } => PlaylistWriteView::Enqueue { song_id: song_id@ },
            PlaylistWrite::MarkPlayed { song_id, at } => PlaylistWriteView::MarkPlayed {
                song_id: song_id@,
                at: *at as int,
            },
            PlaylistWrite::MarkAllStopped => PlaylistWriteView::MarkAllStopped,
        }
    }
}

/// One thing for the caller to carry out.
#[derive(Debug)]
pub enum Effect {
    /// Send this line to chat. A failure to send is logged, no more.
    Chat(String),
    /// Ask the song service about `song_id` and hand the answer to
    /// `on_info`.
    Lookup { song_id: String },
    /// Ask the song service about `song_id` and log the answer.
    Describe { song_id: String },
    /// Open and decode the audio stored at `path` and hand the result to
    /// `on_audio`.
    OpenAudio { song_id: String, path: String },
    /// Mirror this write into the durable store.
    Store(PlaylistWrite),
    /// Tell the audio device.
    Audio(AudioCommand),
}

/// Mathematical value of an `Effect`.
pub enum EffectView {
    Chat(Seq<char>),
    Lookup { song_id: Seq<char> },
    Describe { song_id: Seq<char> },
    OpenAudio { song_id: Seq<char>, path: Seq<char> },
    Store(PlaylistWriteView),
    Audio(AudioCommandView),
}

impl View for Effect {
    type V = EffectView;

    open spec fn view(&self) -> EffectView {
        match self {
            Effect::Chat(t) => EffectView::Chat(t@),
            Effect::Lookup { song_id } => EffectView::Lookup { song_id: song_id@ },
            Effect::Describe { song_id } => EffectView::Describe { song_id: song_id@ },
            Effect::OpenAudio { song_id, path } => EffectView::OpenAudio {
                song_id: song_id@,
                path: path@,
            },
            Effect::Store(w) => EffectView::Store(w@),
            Effect::Audio(c) => EffectView::Audio(c@),
        }
    }
}

/// The views of a vector of effects.
pub open spec fn effect_views(v: Seq<Effect>) -> Seq<EffectView> {
    v.map_values(|e: Effect| e@)
}

/// What the handler answers to one input.
#[derive(Debug)]
pub struct Step {
    /// What the caller carries out, in this order.
    pub effects: Vec<Effect>,
    /// Why the input failed, if it did.
    pub error: Option<HandlerError>,
    pub flow: Flow,
}

/// Mathematical value of a `Step`.
pub struct StepView {
    pub effects: Seq<EffectView>,
    pub error: Option<HandlerError>,
    pub flow: Flow,
}

impl View for Step {
    type V = StepView;

    open spec fn view(&self) -> StepView {
        StepView { effects: effect_views(self.effects@), error: self.error, flow: self.flow }
    }
}

/// The answer that the handler still waits for.
pub enum PendingView {
    /// None.
    Idle,
    /// The song service's answer about `song_id`, asked for by
    /// `requested_by`.
    Info { song_id: Seq<char>, requested_by: Seq<char> },
    /// The result of opening the stored audio of `song_id`.
    Audio { song_id: Seq<char> },
}

/// Mathematical value of a `SongsHandler`.
pub struct HandlerView {
    pub admins: Seq<Seq<char>>,
    pub playlist: PlaylistView,
    pub playback: PlaybackView,
    pub pending: PendingView,
}

/// What the requesting user is told when a song is queued.
pub open spec fn queue_notice(user_name: Seq<char>, song_id: Seq<char>) -> Seq<char> {
    "@"@ + user_name + " added "@ + song_id + " to Queue"@
}

/// What chat is told about the current song.
pub open spec fn current_notice(title: Seq<char>, user_name: Seq<char>) -> Seq<char> {
    "Current Song - "@ + title + " - by @"@ + user_name
}

/// What chat is told when nothing is playing.
pub open spec fn nothing_playing_notice() -> Seq<char> {
    "!No current song playing"@
}

/// What chat is told about a song that was picked at random.
pub open spec fn adding_notice(title: Seq<char>, user_name: Seq<char>) -> Seq<char> {
    "Adding Song to Queue - "@ + title + " - by @"@ + user_name
}

/// The chat command that plays `song_id`.
pub open spec fn play_command(song_id: Seq<char>) -> Seq<char> {
    "!play "@ + song_id
}

/// What chat is told when a song that a user asked for is not to be had.
pub open spec fn not_found_notice(song_id: Seq<char>) -> Seq<char> {
    "No song found for "@ + song_id
}

/// The record of a song that the song service described, first seen at
/// `now` on behalf of `requested_by`. Its audio is not stored yet.
pub open spec fn song_of(info: SongInfoView, requested_by: Seq<char>, now: int) -> SongView {
    SongView {
        song_id: info.id,
        title: info.title,
        tags: info.tags,
        prompt: info.prompt,
        username: requested_by,
        audio_url: info.audio_url,
        lyric: info.lyric,
        gpt_description_prompt: info.gpt_description_prompt,
        created_at: now,
        last_updated: now,
        downloaded: false,
    }
}

/// A step that does nothing and lets the loop go on.
pub open spec fn no_step() -> StepView {
    StepView { effects: Seq::empty(), error: None, flow: Flow::Continue }
}

/// A step with these effects and no failure.
pub open spec fn step_of(effects: Seq<EffectView>) -> StepView {
    StepView { effects, error: None, flow: Flow::Continue }
}

/// A step that failed with `error` after these effects.
pub open spec fn failed_step(effects: Seq<EffectView>, error: HandlerError) -> StepView {
    StepView { effects, error: Some(error), flow: Flow::Continue }
}

impl HandlerView {
    /// What the handler becomes, and answers, when it carries out
    /// `action` at `now`. `pick` chooses where chance is asked for.
    pub open spec fn perform(self, action: ActionView, now: int, pick: nat) -> (HandlerView, StepView) {
        match action {
            ActionView::Ignore => (self, no_step()),
            ActionView::ShowCurrent => match self.playlist.current() {
                Some(s) => (
                    self,
                    step_of(seq![EffectView::Chat(current_notice(s.title, s.username))]),
                ),
                None => (self, step_of(seq![EffectView::Chat(nothing_playing_notice())])),
            },
            ActionView::LookupInfo { song_id } => (
                self,
                step_of(seq![EffectView::Describe { song_id }]),
            ),
            ActionView::Enqueue { song_id } => (
                HandlerView { playlist: self.playlist.enqueue(song_id), ..self },
                step_of(seq![EffectView::Store(PlaylistWriteView::Enqueue { song_id })]),
            ),
            ActionView::Play { song_id, requested_by } => (
                HandlerView { pending: PendingView::Info { song_id, requested_by }, ..self },
                step_of(seq![EffectView::Lookup { song_id }]),
            ),
            ActionView::Reverb { song_id, requested_by } => (
                HandlerView { pending: PendingView::Audio { song_id }, ..self },
                step_of(
                    seq![
                        EffectView::Chat(queue_notice(requested_by, song_id)),
                        EffectView::OpenAudio { song_id, path: local_path(song_id) },
                    ],
                ),
            ),
            ActionView::Transport(t) => (
                HandlerView { playback: self.playback.transport(t), ..self },
                step_of(seq![EffectView::Audio(transport_command(t))]),
            ),
            ActionView::SetSpeed(c) => (
                HandlerView { playback: self.playback.set_speed(c), ..self },
                step_of(
                    seq![
                        EffectView::Audio(
                            AudioCommandView::SetSpeed(self.playback.set_speed(c).speed),
                        ),
                    ],
                ),
            ),
            ActionView::SetVolume(c) => (
                HandlerView { playback: self.playback.set_volume(c), ..self },
                step_of(
                    seq![
                        EffectView::Audio(
                            AudioCommandView::SetVolume(self.playback.set_volume(c).volume),
                        ),
                    ],
                ),
            ),
            ActionView::RandomSong => if self.playlist.songs.len() > 0 {
                let s = self.playlist.songs[(pick as int) % (self.playlist.songs.len() as int)];
                (
                    self,
                    step_of(
                        seq![
                            EffectView::Chat(play_command(s.song_id)),
                            EffectView::Chat(adding_notice(s.title, s.username)),
                        ],
                    ),
                )
            } else {
                (self, failed_step(Seq::empty(), HandlerError::NotFound))
            },
            ActionView::LastSong => match self.playlist.last_played_id() {
                Some(id) => (self, step_of(seq![EffectView::Chat(play_command(id))])),
                None => (self, failed_step(Seq::empty(), HandlerError::NotFound)),
            },
        }
    }

    /// The handler after it took note of what the device reports of its
    /// queue: an empty queue stops every row, and nothing is left of an
    /// exchange that was under way.
    pub open spec fn sampled(self, queue_empty: bool) -> HandlerView {
        HandlerView {
            playlist: if queue_empty {
                self.playlist.mark_all_stopped()
            } else {
                self.playlist
            },
            playback: self.playback.observe(queue_empty),
            pending: PendingView::Idle,
            ..self
        }
    }

    /// What idle detection asks the caller to mirror.
    pub open spec fn idle_effects(queue_empty: bool) -> Seq<EffectView> {
        if queue_empty {
            seq![EffectView::Store(PlaylistWriteView::MarkAllStopped)]
        } else {
            Seq::empty()
        }
    }

    /// The action that the words of a chat line ask for: the first word is
    /// the command, the others are its arguments; no word asks for
    /// nothing.
    pub open spec fn request_action(self, words: Seq<Seq<char>>, user_name: Seq<char>) -> ActionView {
        if words.len() == 0 {
            ActionView::Ignore
        } else {
            route_spec(self.admins, words[0], words.skip(1), user_name)
        }
    }

    /// The action that `event` asks for: that of the tokens of a chat
    /// line; nothing, for everything else.
    pub open spec fn action_for(self, event: EventView) -> ActionView {
        match event {
            EventView::UserMessage(m) => self.request_action(tokens(m.contents), m.user_name),
            _ => ActionView::Ignore,
        }
    }

    /// What the handler becomes, and answers, when `event` arrives while
    /// the device reports `queue_empty`. Idle detection comes first,
    /// whatever the event is.
    pub open spec fn on_event(self, event: EventView, queue_empty: bool, now: int, pick: nat) -> (
        HandlerView,
        StepView,
    ) {
        let sampled = self.sampled(queue_empty);
        let idle = Self::idle_effects(queue_empty);
        if event == EventView::Shutdown {
            (sampled, StepView { effects: idle, error: None, flow: Flow::Stop })
        } else {
            let (after, step) = sampled.perform(self.action_for(event), now, pick);
            (after, StepView { effects: idle + step.effects, ..step })
        }
    }

    /// What the handler becomes, and answers, to what its subscription
    /// yielded. An event is handled as `on_event` states. A gap is passed
    /// over: the handler goes on with the next event that was retained.
    /// A closed bus ends the task with a failure.
    pub open spec fn on_received(
        self,
        received: ReceivedView,
        queue_empty: bool,
        now: int,
        pick: nat,
    ) -> (HandlerView, StepView) {
        match received {
            ReceivedView::Event(event) => self.on_event(event, queue_empty, now, pick),
            ReceivedView::Lagged(_) => (self, no_step()),
            ReceivedView::Empty => (self, no_step()),
            ReceivedView::Closed => (
                self,
                StepView { effects: Seq::empty(), error: None, flow: Flow::Fail },
            ),
        }
    }

    /// What the handler becomes, and answers, when the song service has
    /// answered.
    pub open spec fn on_info(self, info: Option<SongInfoView>, now: int) -> (HandlerView, StepView) {
        match self.pending {
            PendingView::Info { song_id, requested_by } => match info {
                Some(found) => {
                    let song = song_of(found, requested_by, now);
                    (
                        HandlerView {
                            playlist: self.playlist.upsert(song),
                            pending: PendingView::Audio { song_id },
                            ..self
                        },
                        step_of(
                            seq![
                                EffectView::Store(PlaylistWriteView::Upsert(song)),
                                EffectView::Chat(queue_notice(requested_by, song_id)),
                                EffectView::OpenAudio { song_id, path: local_path(song_id) },
                            ],
                        ),
                    )
                },
                None => (
                    HandlerView { pending: PendingView::Idle, ..self },
                    failed_step(
                        seq![EffectView::Chat(not_found_notice(song_id))],
                        HandlerError::NotFound,
                    ),
                ),
            },
            _ => (self, no_step()),
        }
    }

    /// What the handler becomes, and answers, when the stored audio was
    /// opened.
    pub open spec fn on_audio(self, probe: AudioProbe, now: int) -> (HandlerView, StepView) {
        match self.pending {
            PendingView::Audio { song_id } => match probe {
                AudioProbe::Ready => (
                    HandlerView {
                        playlist: self.playlist.enqueue(song_id).mark_played(song_id, now),
                        playback: self.playback.play(song_id),
                        pending: PendingView::Idle,
                        ..self
                    },
                    step_of(
                        seq![
                            EffectView::Store(PlaylistWriteView::Enqueue { song_id }),
                            EffectView::Store(PlaylistWriteView::MarkPlayed { song_id, at: now }),
                            EffectView::Audio(AudioCommandView::Append { song_id }),
                        ],
                    ),
                ),
                AudioProbe::Missing => (
                    HandlerView { pending: PendingView::Idle, ..self },
                    failed_step(
                        seq![EffectView::Chat(not_found_notice(song_id))],
                        HandlerError::NotFound,
                    ),
                ),
                AudioProbe::Corrupt => (
                    HandlerView { pending: PendingView::Idle, ..self },
                    failed_step(Seq::empty(), HandlerError::Decode),
                ),
            },
            _ => (self, no_step()),
        }
    }
}


enum Pending {
    Idle,
    Info { song_id: String, requested_by: String },
    Audio { song_id: String },
}

impl View for Pending {
    type V = PendingView;

    closed spec fn view(&self) -> PendingView {
        match self {
            Pending::Idle => PendingView::Idle,
            Pending::Info { song_id, requested_by } => PendingView::Info {
                song_id: song_id@,
                requested_by: requested_by@,
            },
            Pending::Audio { song_id } => PendingView::Audio { song_id: song_id@ },
        }
    }
}

/// Builds the record of `song_of`.
pub fn make_song(info: SongInfo, requested_by: &str, now: i64) -> (song: Song)
    ensures
        song@ == song_of(info@, requested_by@, now as int),
{
    Song {
        song_id: info.id,
        title: info.title,
        tags: info.tags,
        prompt: info.prompt,
        username: String::from_str(requested_by),
        audio_url: info.audio_url,
        lyric: info.lyric,
        gpt_description_prompt: info.gpt_description_prompt,
        created_at: now,
        last_updated: now,
        downloaded: false,
    }
}

fn one(effect: Effect) -> (v: Vec<Effect>)
    ensures
        effect_views(v@) == seq![effect@],
{
    let mut v: Vec<Effect> = Vec::new();
    v.push(effect);
    assert(effect_views(v@) =~= seq![effect@]);
    v
}

fn none() -> (v: Vec<Effect>)
    ensures
        effect_views(v@) == Seq::<EffectView>::empty(),
{
    let v: Vec<Effect> = Vec::new();
    assert(effect_views(v@) =~= Seq::<EffectView>::empty());
    v
}

fn push_effect(v: &mut Vec<Effect>, effect: Effect)
    ensures
        effect_views(final(v)@) == effect_views(old(v)@).push(effect@),
{
    v.push(effect);
    assert(effect_views(v@) =~= effect_views(old(v)@).push(effect@));
}

/// The handler of the song commands. It owns the playlist and the
/// playback coordinator: nobody else writes to either.
pub struct SongsHandler {
    router: CommandRouter,
    playlist: PlaylistState,
    playback: PlaybackCoordinator,
    pending: Pending,
}

impl View for SongsHandler {
    type V = HandlerView;

    closed spec fn view(&self) -> HandlerView {
        HandlerView {
            admins: self.router.admins(),
            playlist: self.playlist@,
            playback: self.playback@,
            pending: self.pending@,
        }
    }
}

impl SongsHandler {
    /// A handler that routes with `router`, starting from `playlist`.
    pub fn new(router: CommandRouter, playlist: PlaylistState) -> (r: Self)
        ensures
            r@ == (HandlerView {
                admins: router.admins(),
                playlist: playlist@,
                playback: PlaybackView::initial(),
                pending: PendingView::Idle,
            }),
    {
        SongsHandler { router, playlist, playback: PlaybackCoordinator::new(), pending: Pending::Idle }
    }

    /// The playlist as it stands.
    pub fn playlist(&self) -> (p: &PlaylistState)
        ensures
            p@ == self@.playlist,
    {
        &self.playlist
    }

    /// The playback coordinator as it stands.
    pub fn playback(&self) -> (p: &PlaybackCoordinator)
        ensures
            p@ == self@.playback,
    {
        &self.playback
    }

    /// Whether an answer of a collaborator is still awaited.
    pub fn is_waiting(&self) -> (b: bool)
        ensures
            b == (self@.pending != PendingView::Idle),
    {
        match self.pending {
            Pending::Idle => false,
            _ => true,
        }
    }

    fn perform(&mut self, action: Action, now: i64, pick: u64) -> (step: Step)
        ensures
            (final(self)@, step@) == old(self)@.perform(action@, now as int, pick as nat),
    {
        match action {
            Action::Ignore => Step { effects: none(), error: None, flow: Flow::Continue },
            Action::ShowCurrent => {
                let line = match self.playlist.get_current() {
                    Ok(s) => concat4(
                        "Current Song - ",
                        s.title.as_str(),
                        " - by @",
                        s.username.as_str(),
                    ),
                    Err(_) => String::from_str("!No current song playing"),
                };
                Step { effects: one(Effect::Chat(line)), error: None, flow: Flow::Continue }
            },
            Action::LookupInfo { song_id } => Step {
                effects: one(Effect::Describe { song_id }),
                error: None,
                flow: Flow::Continue,
            },
            Action::Enqueue { song_id } => {
                self.playlist.enqueue(song_id.as_str());
                Step {
                    effects: one(Effect::Store(PlaylistWrite::Enqueue { song_id })),
                    error: None,
                    flow: Flow::Continue,
                }
            },
            Action::Play { song_id, requested_by } => {
                self.pending = Pending::Info { song_id: song_id.clone(), requested_by };
                Step { effects: one(Effect::Lookup { song_id }), error: None, flow: Flow::Continue }
            },
            Action::Reverb { song_id, requested_by } => play_audio(
                self,
                song_id.as_str(),
                requested_by.as_str(),
            ),
            Action::Transport(t) => {
                let cmd = self.playback.transport(t);
                Step { effects: one(Effect::Audio(cmd)), error: None, flow: Flow::Continue }
            },
            Action::SetSpeed(c) => {
                let cmd = self.playback.set_speed(c);
                Step { effects: one(Effect::Audio(cmd)), error: None, flow: Flow::Continue }
            },
            Action::SetVolume(c) => {
                let cmd = self.playback.set_volume(c);
                Step { effects: one(Effect::Audio(cmd)), error: None, flow: Flow::Continue }
            },
            Action::RandomSong => match self.playlist.find_random(pick) {
                Ok(s) => {
                    let mut effects = one(Effect::Chat(concat2("!play ", s.song_id.as_str())));
                    push_effect(
                        &mut effects,
                        Effect::Chat(
                            concat4(
                                "Adding Song to Queue - ",
                                s.title.as_str(),
                                " - by @",
                                s.username.as_str(),
                            ),
                        ),
                    );
                    proof {
                        assert(effect_views(effects@) =~= seq![
                            EffectView::Chat(play_command(s@.song_id)),
                            EffectView::Chat(adding_notice(s@.title, s@.username)),
                        ]);
                    }
                    Step { effects, error: None, flow: Flow::Continue }
                },
                Err(_) => Step {
                    effects: none(),
                    error: Some(HandlerError::NotFound),
                    flow: Flow::Continue,
                },
            },
            Action::LastSong => match self.playlist.find_last_played() {
                Ok(id) => Step {
                    effects: one(Effect::Chat(concat2("!play ", id.as_str()))),
                    error: None,
                    flow: Flow::Continue,
                },
                Err(_) => Step {
                    effects: none(),
                    error: Some(HandlerError::NotFound),
                    flow: Flow::Continue,
                },
            },
        }
    }

    /// Takes one event off the bus, together with what the device reports
    /// of its queue at that moment. `now` is the time in seconds since the
    /// epoch, `pick` a number drawn by the caller for `!random_song`.
    ///
    /// Idle detection comes first, for every event: with an empty queue
    /// every row is stopped before anything else happens. A chat line is
    /// then cut into tokens and routed; every other event asks for
    /// nothing; `Shutdown` ends the loop.
    pub fn on_event(&mut self, event: &Event, queue_empty: bool, now: i64, pick: u64) -> (step: Step)
        ensures
            (final(self)@, step@) == old(self)@.on_event(
                event@,
                queue_empty,
                now as int,
                pick as nat,
            ),
    {
        let ghost before = self@;
        let mut idle: Vec<Effect> = none();
        let _ = self.playback.observe(queue_empty);
        if queue_empty {
            self.playlist.mark_all_stopped();
            push_effect(&mut idle, Effect::Store(PlaylistWrite::MarkAllStopped));
        }
        self.pending = Pending::Idle;
        assert(self@ == before.sampled(queue_empty));
        assert(effect_views(idle@) =~= HandlerView::idle_effects(queue_empty));
        let step = match event {
            Event::Shutdown => {
                return Step { effects: idle, error: None, flow: Flow::Stop };
            },
            Event::UserMessage(msg) => {
                let splitmsg = split_whitespace(msg.contents.as_str());
                handle_requests(self, &splitmsg, msg, now, pick)
            },
            _ => self.perform(Action::Ignore, now, pick),
        };
        let mut effects = idle;
        let ghost idle_views = effect_views(effects@);
        let Step { effects: mut more, error, flow } = step;
        let ghost more_views = effect_views(more@);
        effects.append(&mut more);
        assert(effect_views(effects@) =~= idle_views + more_views);
        Step { effects, error, flow }
    }

    /// Takes what the handler's subscription yielded, together with what
    /// the device reports of its queue.
    pub fn on_received(&mut self, received: Received, queue_empty: bool, now: i64, pick: u64) -> (step:
        Step)
        ensures
            (final(self)@, step@) == old(self)@.on_received(
                received@,
                queue_empty,
                now as int,
                pick as nat,
            ),
    {
        match received {
            Received::Event(event) => self.on_event(&event, queue_empty, now, pick),
            Received::Lagged(_) => Step { effects: none(), error: None, flow: Flow::Continue },
            Received::Empty => Step { effects: none(), error: None, flow: Flow::Continue },
            Received::Closed => Step { effects: none(), error: None, flow: Flow::Fail },
        }
    }

    /// Takes the song service's answer to the last `Lookup`: the
    /// description of the song, or `None` where the service knows no such
    /// song. Where no such answer is awaited, nothing happens.
    pub fn on_info(&mut self, info: Option<SongInfo>, now: i64) -> (step: Step)
        ensures
            (final(self)@, step@) == old(self)@.on_info(
                match info {
                    Some(i) => Some(i@),
                    None => None,
                },
                now as int,
            ),
    {
        let mut pending = Pending::Idle;
        core::mem::swap(&mut pending, &mut self.pending);
        match pending {
            Pending::Info { song_id, requested_by } => match info {
                Some(found) => {
                    let song = make_song(found, requested_by.as_str(), now);
                    let mut effects = one(Effect::Store(PlaylistWrite::Upsert(song.clone())));
                    self.playlist.upsert_song(song);
                    push_effect(
                        &mut effects,
                        Effect::Chat(
                            concat5(
                                "@",
                                requested_by.as_str(),
                                " added ",
                                song_id.as_str(),
                                " to Queue",
                            ),
                        ),
                    );
                    push_effect(
                        &mut effects,
                        Effect::OpenAudio {
                            song_id: song_id.clone(),
                            path: make_local_path(song_id.as_str()),
                        },
                    );
                    assert(effect_views(effects@) =~= seq![
                        EffectView::Store(PlaylistWriteView::Upsert(song@)),
                        EffectView::Chat(queue_notice(requested_by@, song_id@)),
                        EffectView::OpenAudio { song_id: song_id@, path: local_path(song_id@) },
                    ]);
                    self.pending = Pending::Audio { song_id };
                    Step { effects, error: None, flow: Flow::Continue }
                },
                None => Step {
                    effects: one(Effect::Chat(concat2("No song found for ", song_id.as_str()))),
                    error: Some(HandlerError::NotFound),
                    flow: Flow::Continue,
                },
            },
            other => {
                self.pending = other;
                Step { effects: none(), error: None, flow: Flow::Continue }
            },
        }
    }

    /// Takes the result of the last `OpenAudio`. Audio that is ready is
    /// queued, marked as playing, and appended to the output; audio that
    /// is missing or does not decode leaves playlist and output as they
    /// were. Where no such result is awaited, nothing happens.
    pub fn on_audio(&mut self, probe: AudioProbe, now: i64) -> (step: Step)
        ensures
            (final(self)@, step@) == old(self)@.on_audio(probe, now as int),
    {
        let mut pending = Pending::Idle;
        core::mem::swap(&mut pending, &mut self.pending);
        match pending {
            Pending::Audio { song_id } => match probe {
                AudioProbe::Ready => {
                    let ghost before = self.playlist@;
                    self.playlist.enqueue(song_id.as_str());
                    proof {
                        let q = before.enqueue(song_id@);
                        if !before.has_row(song_id@) {
                            assert(q.rows[q.rows.len() - 1].song_id == song_id@);
                        }
                        assert(q.has_row(song_id@));
                    }
                    let _ = self.playlist.mark_played(song_id.as_str(), now);
                    let cmd = self.playback.play(song_id.as_str());
                    let mut effects = one(
                        Effect::Store(PlaylistWrite::Enqueue { song_id: song_id.clone() }),
                    );
                    push_effect(
                        &mut effects,
                        Effect::Store(PlaylistWrite::MarkPlayed { song_id: song_id.clone(), at: now }),
                    );
                    push_effect(&mut effects, Effect::Audio(cmd));
                    assert(effect_views(effects@) =~= seq![
                        EffectView::Store(PlaylistWriteView::Enqueue { song_id: song_id@ }),
                        EffectView::Store(
                            PlaylistWriteView::MarkPlayed { song_id: song_id@, at: now as int },
                        ),
                        EffectView::Audio(AudioCommandView::Append { song_id: song_id@ }),
                    ]);
                    Step { effects, error: None, flow: Flow::Continue }
                },
                AudioProbe::Missing => Step {
                    effects: one(Effect::Chat(concat2("No song found for ", song_id.as_str()))),
                    error: Some(HandlerError::NotFound),
                    flow: Flow::Continue,
                },
                AudioProbe::Corrupt => Step {
                    effects: none(),
                    error: Some(HandlerError::Decode),
                    flow: Flow::Continue,
                },
            },
            other => {
                self.pending = other;
                Step { effects: none(), error: None, flow: Flow::Continue }
            },
        }
    }
}


/// Begins to play the stored audio of `id` for `user_name`: the user is
/// told, and the caller is asked to open the audio and to hand the result
/// to `on_audio`. Nothing is queued or played before that.
pub fn play_audio(handler: &mut SongsHandler, id: &str, user_name: &str) -> (step: Step)
    ensures
        final(handler)@ == (HandlerView { pending: PendingView::Audio { song_id: id@ }, ..old(handler)@ }),
        step@ == step_of(
            seq![
                EffectView::Chat(queue_notice(user_name@, id@)),
                EffectView::OpenAudio { song_id: id@, path: local_path(id@) },
            ],
        ),
{
    let mut effects = one(Effect::Chat(concat5("@", user_name, " added ", id, " to Queue")));
    push_effect(
        &mut effects,
        Effect::OpenAudio { song_id: String::from_str(id), path: make_local_path(id) },
    );
    handler.pending = Pending::Audio { song_id: String::from_str(id) };
    assert(effect_views(effects@) =~= seq![
        EffectView::Chat(queue_notice(user_name@, id@)),
        EffectView::OpenAudio { song_id: id@, path: local_path(id@) },
    ]);
    Step { effects, error: None, flow: Flow::Continue }
}

/// Handles the words of one chat line of `msg`: routes the command that
/// the first word names, with the other words as its arguments, and
/// carries out what it asks for. Without a word nothing happens.
pub fn handle_requests(
    handler: &mut SongsHandler,
    splitmsg: &Vec<String>,
    msg: &UserMessage,
    now: i64,
    pick: u64,
) -> (step: Step)
    ensures
        (final(handler)@, step@) == old(handler)@.perform(
            old(handler)@.request_action(views(splitmsg@), msg@.user_name),
            now as int,
            pick as nat,
        ),
{
    let action = if splitmsg.len() == 0 {
        Action::Ignore
    } else {
        let mut args: Vec<String> = Vec::new();
        let mut i: usize = 1;
        while i < splitmsg.len()
            invariant
                1 <= i <= splitmsg.len(),
                views(args@) == views(splitmsg@).subrange(1, i as int),
            decreases splitmsg.len() - i,
        {
            let ghost so_far = args@;
            let word = splitmsg[i].clone();
            assert(word@ == views(splitmsg@)[i as int]);
            args.push(word);
            assert(views(args@) =~= views(so_far).push(word@));
            assert(views(args@) =~= views(splitmsg@).subrange(1, i + 1));
            i = i + 1;
        }
        assert(views(args@) =~= views(splitmsg@).skip(1));
        assert(views(splitmsg@)[0] == splitmsg[0]@);
        handler.router.route(splitmsg[0].as_str(), &args, msg.user_name.as_str(), &msg.roles)
    };
    handler.perform(action, now, pick)
}

/// Whether `e` is the write that stops every row.
pub open spec fn is_stop_all(e: EffectView) -> bool {
    e == EffectView::Store(PlaylistWriteView::MarkAllStopped)
}

/// A chat line whose first token is the literal of no command leaves the
/// handler as idle detection left it and asks for nothing more: with a
/// queue that is not empty, for nothing at all.
pub proof fn lemma_unknown_command_has_no_effect(
    h: HandlerView,
    m: UserMessageView,
    queue_empty: bool,
    now: int,
    pick: nat,
)
    requires
        tokens(m.contents).len() > 0,
        !in_table(tokens(m.contents)[0]),
    ensures
        h.on_event(EventView::UserMessage(m), queue_empty, now, pick) == (
            h.sampled(queue_empty),
            step_of(HandlerView::idle_effects(queue_empty)),
        ),
        !queue_empty ==> h.on_event(EventView::UserMessage(m), queue_empty, now, pick).1.effects.len()
            == 0 && h.on_event(EventView::UserMessage(m), queue_empty, now, pick).0.playlist
            == h.playlist && h.on_event(
            EventView::UserMessage(m),
            queue_empty,
            now,
            pick,
        ).0.playback == h.playback,
{
    let idle = HandlerView::idle_effects(queue_empty);
    assert(idle + Seq::<EffectView>::empty() =~= idle);
}

/// A gated command from somebody who is no configured admin leaves the
/// handler as idle detection left it and asks for nothing more: no call
/// on the output and no write to the playlist comes of it.
pub proof fn lemma_gated_command_has_no_effect(
    h: HandlerView,
    m: UserMessageView,
    c: Command,
    queue_empty: bool,
    now: int,
    pick: nat,
)
    requires
        tokens(m.contents).len() > 0,
        tokens(m.contents)[0] == literal(c),
        admin_required(c),
        !h.admins.contains(m.user_name),
    ensures
        h.on_event(EventView::UserMessage(m), queue_empty, now, pick) == (
            h.sampled(queue_empty),
            step_of(HandlerView::idle_effects(queue_empty)),
        ),
        !queue_empty ==> h.on_event(EventView::UserMessage(m), queue_empty, now, pick).1.effects.len()
            == 0 && h.on_event(EventView::UserMessage(m), queue_empty, now, pick).0.playlist
            == h.playlist && h.on_event(
            EventView::UserMessage(m),
            queue_empty,
            now,
            pick,
        ).0.playback == h.playback,
{
    lemma_lookup_literal(c);
    let idle = HandlerView::idle_effects(queue_empty);
    assert(idle + Seq::<EffectView>::empty() =~= idle);
}

/// No action asks for the write that stops every row: only idle
/// detection does.
pub proof fn lemma_only_idle_detection_stops_all(h: HandlerView, action: ActionView, now: int, pick: nat)
    ensures
        forall|i: int|
            0 <= i < h.perform(action, now, pick).1.effects.len() ==> !is_stop_all(
                #[trigger] h.perform(action, now, pick).1.effects[i],
            ),
{
}

/// When an event of any kind arrives while the output queue is empty,
/// every row is stopped exactly once, and before the event is looked at:
/// the first effect is that write, no later effect is, and what the event
/// asks for is carried out on the playlist with every row stopped.
pub proof fn lemma_idle_detection_comes_first(
    h: HandlerView,
    event: EventView,
    now: int,
    pick: nat,
)
    ensures
        ({
            let (after, step) = h.on_event(event, true, now, pick);
            &&& step.effects.len() >= 1
            &&& is_stop_all(step.effects[0])
            &&& forall|i: int| 1 <= i < step.effects.len() ==> !is_stop_all(#[trigger] step.effects[i])
            &&& h.sampled(true).playlist == h.playlist.mark_all_stopped()
            &&& event != EventView::Shutdown ==> (after, step.effects.skip(1)) == (
                h.sampled(true).perform(h.action_for(event), now, pick).0,
                h.sampled(true).perform(h.action_for(event), now, pick).1.effects,
            )
        }),
        ({
            let (after, step) = h.on_event(event, false, now, pick);
            forall|i: int| 0 <= i < step.effects.len() ==> !is_stop_all(#[trigger] step.effects[i])
        }),
{
    let idle = HandlerView::idle_effects(true);
    let none = HandlerView::idle_effects(false);
    if event != EventView::Shutdown {
        let action = h.action_for(event);
        lemma_only_idle_detection_stops_all(h.sampled(true), action, now, pick);
        lemma_only_idle_detection_stops_all(h.sampled(false), action, now, pick);
        let more = h.sampled(true).perform(action, now, pick).1.effects;
        assert((idle + more).skip(1) =~= more);
        let less = h.sampled(false).perform(action, now, pick).1.effects;
        assert(none + less =~= less);
        assert forall|i: int| 1 <= i < (idle + more).len() implies !is_stop_all(
            #[trigger] (idle + more)[i],
        ) by {
            assert((idle + more)[i] == more[i - 1]);
        }
    }
}

/// `!play` from an admin runs in three steps. The command asks the song
/// service once and touches nothing. The answer records the song, not
/// yet downloaded, tells the user, and asks for the stored audio; the
/// output is still untouched. The audio, once ready, is appended to the
/// output exactly once, after its row was queued and marked as playing.
pub proof fn lemma_play_runs_in_three_steps(
    h: HandlerView,
    m: UserMessageView,
    song_id: Seq<char>,
    info: SongInfoView,
    now: int,
    pick: nat,
)
    requires
        tokens(m.contents).len() >= 2,
        tokens(m.contents)[0] == literal(Command::Play),
        tokens(m.contents)[1] == song_id,
        h.admins.contains(m.user_name),
    ensures
        ({
            let (h1, s1) = h.on_event(EventView::UserMessage(m), false, now, pick);
            let (h2, s2) = h1.on_info(Some(info), now);
            let (h3, s3) = h2.on_audio(AudioProbe::Ready, now);
            let song = song_of(info, m.user_name, now);
            &&& s1.effects == seq![EffectView::Lookup { song_id }]
            &&& h1.playlist == h.playlist && h1.playback == h.playback
            &&& s2.effects == seq![
                EffectView::Store(PlaylistWriteView::Upsert(song)),
                EffectView::Chat(queue_notice(m.user_name, song_id)),
                EffectView::OpenAudio { song_id, path: local_path(song_id) },
            ]
            &&& !song.downloaded
            &&& h2.playlist == h.playlist.upsert(song) && h2.playback == h.playback
            &&& s3.effects == seq![
                EffectView::Store(PlaylistWriteView::Enqueue { song_id }),
                EffectView::Store(PlaylistWriteView::MarkPlayed { song_id, at: now }),
                EffectView::Audio(AudioCommandView::Append { song_id }),
            ]
            &&& h3.playback == h.playback.play(song_id)
            &&& h3.pending == PendingView::Idle
        }),
{
    lemma_lookup_literal(Command::Play);
    let words = tokens(m.contents);
    assert(words.skip(1)[0] == song_id);
    let (h1, s1) = h.on_event(EventView::UserMessage(m), false, now, pick);
    assert(s1.effects =~= seq![EffectView::Lookup { song_id }]);
}

/// `!queue` from an admin queues the song once and leaves the output
/// alone.
pub proof fn lemma_queue_touches_playlist_only(
    h: HandlerView,
    m: UserMessageView,
    song_id: Seq<char>,
    now: int,
    pick: nat,
)
    requires
        tokens(m.contents).len() >= 2,
        tokens(m.contents)[0] == literal(Command::Queue),
        tokens(m.contents)[1] == song_id,
        h.admins.contains(m.user_name),
    ensures
        ({
            let (after, step) = h.on_event(EventView::UserMessage(m), false, now, pick);
            &&& step.effects == seq![EffectView::Store(PlaylistWriteView::Enqueue { song_id })]
            &&& after.playlist == h.playlist.enqueue(song_id)
            &&& after.playback == h.playback
            &&& step.error is None
        }),
{
    lemma_lookup_literal(Command::Queue);
    let words = tokens(m.contents);
    assert(words.skip(1)[0] == song_id);
    let (after, step) = h.on_event(EventView::UserMessage(m), false, now, pick);
    assert(step.effects =~= seq![EffectView::Store(PlaylistWriteView::Enqueue { song_id })]);
}


/// Nothing but `Shutdown` and a closed bus ends the loop: whatever a
/// command asks for, and however it fails, the handler goes on with the
/// next event.
pub proof fn lemma_only_shutdown_ends_the_loop(
    h: HandlerView,
    received: ReceivedView,
    queue_empty: bool,
    now: int,
    pick: nat,
)
    ensures
        h.on_received(received, queue_empty, now, pick).1.flow == Flow::Stop <==> received
            == ReceivedView::Event(EventView::Shutdown),
        h.on_received(received, queue_empty, now, pick).1.flow == Flow::Fail <==> received
            == ReceivedView::Closed,
        h.on_received(received, queue_empty, now, pick).1.error is Some ==> h.on_received(
            received,
            queue_empty,
            now,
            pick,
        ).1.flow == Flow::Continue,
{
}

/// The answers of the collaborators never end the loop.
pub proof fn lemma_answers_do_not_end_the_loop(
    h: HandlerView,
    info: Option<SongInfoView>,
    probe: AudioProbe,
    now: int,
)
    ensures
        h.on_info(info, now).1.flow == Flow::Continue,
        h.on_audio(probe, now).1.flow == Flow::Continue,
{
}


/// Whatever arrives, the handler's playlist stays well formed.
pub proof fn lemma_handler_keeps_playlist_wf(
    h: HandlerView,
    received: ReceivedView,
    info: Option<SongInfoView>,
    probe: AudioProbe,
    queue_empty: bool,
    now: int,
    pick: nat,
)
    requires
        h.playlist.wf(),
    ensures
        h.on_received(received, queue_empty, now, pick).0.playlist.wf(),
        h.on_info(info, now).0.playlist.wf(),
        h.on_audio(probe, now).0.playlist.wf(),
{
    let empty: Seq<char> = Seq::empty();
    let blank = song_of(
        SongInfoView {
            id: empty,
            title: empty,
            tags: empty,
            prompt: empty,
            gpt_description_prompt: empty,
            audio_url: empty,
            lyric: None,
        },
        empty,
        now,
    );
    lemma_operations_keep_wf(h.playlist, empty, now, blank);
    if let ReceivedView::Event(event) = received {
        let sampled = h.sampled(queue_empty);
        if let ActionView::Enqueue { song_id } = h.action_for(event) {
            lemma_operations_keep_wf(sampled.playlist, song_id, now, blank);
        }
    }
    if let PendingView::Info { song_id, requested_by } = h.pending {
        if let Some(found) = info {
            lemma_operations_keep_wf(h.playlist, song_id, now, song_of(found, requested_by, now));
        }
    }
    if let PendingView::Audio { song_id } = h.pending {
        lemma_operations_keep_wf(h.playlist, song_id, now, blank);
        lemma_operations_keep_wf(h.playlist.enqueue(song_id), song_id, now, blank);
    }
}

} // verus!
