use subd_core::bus::Received;
use subd_core::handler::{
    handle_requests, play_audio, AudioProbe, Effect, Flow, HandlerError, PlaylistWrite, SongInfo,
    SongsHandler, Step,
};
use subd_core::playback::{AudioCommand, PlaybackStatus};
use subd_core::playlist::{PlaylistState, Song};
use subd_core::router::CommandRouter;
use subd_core::types::{ElevenLabsRequest, Event, ThemesongPlay, UserMessage, UserRoles};

fn handler() -> SongsHandler {
    SongsHandler::new(CommandRouter::new(vec!["adminUser".to_string()]), PlaylistState::new())
}

fn chat(user: &str, text: &str) -> Event {
    Event::UserMessage(UserMessage {
        user_name: user.to_string(),
        contents: text.to_string(),
        roles: UserRoles::default(),
    })
}

fn info(id: &str) -> SongInfo {
    SongInfo {
        id: id.to_string(),
        title: "Street Pyro".to_string(),
        tags: "rock".to_string(),
        prompt: "a song".to_string(),
        gpt_description_prompt: "fire".to_string(),
        audio_url: "https://audiopipe.suno.ai/?item_id=abc-123".to_string(),
        lyric: None,
    }
}

fn song(id: &str, title: &str, user: &str) -> Song {
    Song {
        song_id: id.to_string(),
        title: title.to_string(),
        tags: String::new(),
        prompt: String::new(),
        username: user.to_string(),
        audio_url: String::new(),
        lyric: None,
        gpt_description_prompt: String::new(),
        created_at: 0,
        last_updated: 0,
        downloaded: true,
    }
}

fn describe(step: &Step) -> Vec<String> {
    step.effects
        .iter()
        .map(|e| match e {
            Effect::Chat(t) => format!("chat:{t}"),
            Effect::Lookup { song_id } => format!("lookup:{song_id}"),
            Effect::Describe { song_id } => format!("describe:{song_id}"),
            Effect::OpenAudio { song_id, path } => format!("open:{song_id}:{path}"),
            Effect::Store(PlaylistWrite::Upsert(s)) => {
                format!("upsert:{}:{}:{}", s.song_id, s.username, s.downloaded)
            }
            Effect::Store(PlaylistWrite::Enqueue { song_id }) => format!("enqueue:{song_id}"),
            Effect::Store(PlaylistWrite::MarkPlayed { song_id, at }) => {
                format!("played:{song_id}:{at}")
            }
            Effect::Store(PlaylistWrite::MarkAllStopped) => "stop_all".to_string(),
            Effect::Audio(AudioCommand::Append { song_id }) => format!("append:{song_id}"),
            Effect::Audio(AudioCommand::Pause) => "pause".to_string(),
            Effect::Audio(AudioCommand::Resume) => "resume".to_string(),
            Effect::Audio(AudioCommand::Skip) => "skip".to_string(),
            Effect::Audio(AudioCommand::Stop) => "stop".to_string(),
            Effect::Audio(AudioCommand::SetVolume(l)) => format!("volume:{l}"),
            Effect::Audio(AudioCommand::SetSpeed(l)) => format!("speed:{l}"),
        })
        .collect()
}

#[test]
fn queue_command_enqueues_once_and_leaves_the_output_alone() {
    let mut h = handler();
    let step = h.on_event(&chat("adminUser", "!queue abc-123"), false, 10, 0);
    assert_eq!(describe(&step), vec!["enqueue:abc-123"]);
    assert_eq!(step.error, None);
    assert_eq!(step.flow, Flow::Continue);
    assert_eq!(h.playlist().row_count(), 1);
    assert!(h.playlist().has_row("abc-123"));
    assert_eq!(h.playback().queued(), 0);
    assert_eq!(h.playback().status(), PlaybackStatus::Stopped);
    assert!(!h.is_waiting());
}

#[test]
fn play_command_looks_up_upserts_then_plays_once() {
    let mut h = handler();
    let step = h.on_event(&chat("adminUser", "!play abc-123"), false, 10, 0);
    assert_eq!(describe(&step), vec!["lookup:abc-123"]);
    assert!(h.is_waiting());
    assert_eq!(h.playlist().song_count(), 0);
    assert_eq!(h.playback().queued(), 0);

    let step = h.on_info(Some(info("abc-123")), 11);
    assert_eq!(
        describe(&step),
        vec![
            "upsert:abc-123:adminUser:false",
            "chat:@adminUser added abc-123 to Queue",
            "open:abc-123:ai_songs/abc-123.mp3",
        ]
    );
    assert_eq!(step.error, None);
    let stored = h.playlist().find_song("abc-123").unwrap();
    assert!(!stored.downloaded);
    assert_eq!(stored.title, "Street Pyro");
    assert_eq!(stored.created_at, 11);
    assert_eq!(h.playback().queued(), 0);
    assert!(h.is_waiting());

    let step = h.on_audio(AudioProbe::Ready, 12);
    assert_eq!(describe(&step), vec!["enqueue:abc-123", "played:abc-123:12", "append:abc-123"]);
    assert_eq!(h.playback().queued(), 1);
    assert_eq!(h.playback().status(), PlaybackStatus::Playing);
    assert_eq!(h.playlist().current_id(), Some("abc-123".to_string()));
    assert_eq!(h.playlist().get_current().unwrap().title, "Street Pyro");
    assert!(!h.is_waiting());

    let step = h.on_audio(AudioProbe::Ready, 13);
    assert!(step.effects.is_empty());
    let step = h.on_info(Some(info("abc-123")), 13);
    assert!(step.effects.is_empty());
    assert_eq!(h.playback().queued(), 1);
}

#[test]
fn idle_detection_runs_once_before_any_event() {
    let events = [
        chat("adminUser", "!pause"),
        chat("somebody", "hello there"),
        chat("somebody", ""),
        Event::TwitchSubscriptionCount(3),
        Event::GithubSponsorshipEvent,
        Event::RequestTwitchSubCount,
        Event::ThemesongPlay(ThemesongPlay { user_id: 1, display_name: "x".to_string() }),
        Event::ElevenLabsRequest(ElevenLabsRequest {
            source: None,
            voice_text: "!stop".to_string(),
            message: "!stop".to_string(),
            username: "adminUser".to_string(),
            voice: "ethan".to_string(),
        }),
        Event::Shutdown,
    ];
    for event in events.iter() {
        let mut h = handler();
        let _ = h.on_event(&chat("adminUser", "!queue a"), false, 1, 0);
        let _ = h.on_event(&chat("adminUser", "!reverb a"), false, 1, 0);
        let _ = h.on_audio(AudioProbe::Ready, 2);
        assert_eq!(h.playlist().current_id(), Some("a".to_string()));
        let step = h.on_event(event, true, 3, 0);
        let seen = describe(&step);
        assert_eq!(seen[0], "stop_all", "{event:?}");
        assert_eq!(seen.iter().filter(|e| *e == "stop_all").count(), 1, "{event:?}");
        assert_eq!(h.playlist().current_id(), None);
        assert_eq!(h.playback().queued(), 0);
        let step = h.on_event(event, false, 4, 0);
        assert!(!describe(&step).contains(&"stop_all".to_string()));
    }
}

#[test]
fn shutdown_ends_the_loop() {
    let mut h = handler();
    let step = h.on_event(&Event::Shutdown, false, 0, 0);
    assert_eq!(step.flow, Flow::Stop);
    assert!(step.effects.is_empty());
    let step = h.on_event(&chat("adminUser", "!stop"), false, 0, 0);
    assert_eq!(step.flow, Flow::Continue);
}

#[test]
fn unknown_and_gated_commands_do_nothing() {
    let mut h = handler();
    let _ = h.on_event(&chat("adminUser", "!queue a"), false, 1, 0);
    for (user, text) in [
        ("adminUser", "!dance"),
        ("adminUser", "play abc"),
        ("somebody", "!play abc"),
        ("somebody", "!queue abc"),
        ("somebody", "!stop"),
        ("somebody", "!up"),
        ("beginbot", "!queue abc"),
        ("adminUser", "   "),
        ("adminUser", ""),
    ] {
        let step = h.on_event(&chat(user, text), false, 2, 0);
        assert!(step.effects.is_empty(), "{user} {text}");
        assert_eq!(step.error, None);
        assert_eq!(h.playlist().row_count(), 1);
        assert_eq!(h.playback().queued(), 0);
        assert_eq!(h.playback().volume(), 1_000_000);
        assert!(!h.is_waiting());
    }
}

#[test]
fn extra_whitespace_does_not_matter() {
    let mut h = handler();
    let step = h.on_event(&chat("adminUser", "  !queue \t abc-123  trailing"), false, 1, 0);
    assert_eq!(describe(&step), vec!["enqueue:abc-123"]);
}

#[test]
fn volume_and_speed_commands() {
    let mut h = handler();
    let step = h.on_event(&chat("adminUser", "!up"), false, 1, 0);
    assert_eq!(describe(&step), vec!["volume:1200000"]);
    let step = h.on_event(&chat("adminUser", "!down"), false, 1, 0);
    assert_eq!(describe(&step), vec!["volume:960000"]);
    assert_eq!(h.playback().volume(), 960_000);
    let step = h.on_event(&chat("adminUser", "!quiet"), false, 1, 0);
    assert_eq!(describe(&step), vec!["volume:100000"]);
    let step = h.on_event(&chat("adminUser", "!party_volume"), false, 1, 0);
    assert_eq!(describe(&step), vec!["volume:1000000"]);
    let step = h.on_event(&chat("adminUser", "!nightcore"), false, 1, 0);
    assert_eq!(describe(&step), vec!["speed:1500000"]);
    let step = h.on_event(&chat("adminUser", "!slowdown"), false, 1, 0);
    assert_eq!(describe(&step), vec!["speed:1125000"]);
    let step = h.on_event(&chat("adminUser", "!doom"), false, 1, 0);
    assert_eq!(describe(&step), vec!["speed:500000"]);
    let step = h.on_event(&chat("adminUser", "!speedup"), false, 1, 0);
    assert_eq!(describe(&step), vec!["speed:625000"]);
    let step = h.on_event(&chat("adminUser", "!normal"), false, 1, 0);
    assert_eq!(describe(&step), vec!["speed:1000000"]);
}

#[test]
fn transport_commands() {
    let mut h = handler();
    assert_eq!(describe(&h.on_event(&chat("adminUser", "!pause"), false, 1, 0)), vec!["pause"]);
    assert_eq!(describe(&h.on_event(&chat("adminUser", "!unpause"), false, 1, 0)), vec!["resume"]);
    assert_eq!(describe(&h.on_event(&chat("adminUser", "!skip"), false, 1, 0)), vec!["skip"]);
    assert_eq!(describe(&h.on_event(&chat("adminUser", "!stop"), false, 1, 0)), vec!["stop"]);
}

#[test]
fn info_reports_the_current_song() {
    let mut playlist = PlaylistState::new();
    playlist.upsert_song(song("a", "Street Pyro", "ann"));
    let mut h = SongsHandler::new(CommandRouter::with_default_admins(), playlist);
    let step = h.on_event(&chat("somebody", "!info"), false, 1, 0);
    assert_eq!(describe(&step), vec!["chat:!No current song playing"]);
    let _ = h.on_event(&chat("beginbot", "!reverb a"), false, 1, 0);
    let _ = h.on_audio(AudioProbe::Ready, 2);
    let step = h.on_event(&chat("somebody", "!info"), false, 3, 0);
    assert_eq!(describe(&step), vec!["chat:Current Song - Street Pyro - by @ann"]);
    let step = h.on_event(&chat("somebody", "!info xyz"), false, 3, 0);
    assert_eq!(describe(&step), vec!["describe:xyz"]);
}

#[test]
fn random_and_last_song() {
    let mut playlist = PlaylistState::new();
    playlist.upsert_song(song("a", "Song A", "ann"));
    playlist.upsert_song(song("b", "Song B", "bob"));
    let mut h = SongsHandler::new(CommandRouter::with_default_admins(), playlist);
    let step = h.on_event(&chat("beginbot", "!last_song"), false, 1, 0);
    assert!(step.effects.is_empty());
    assert_eq!(step.error, Some(HandlerError::NotFound));
    let step = h.on_event(&chat("beginbot", "!random_song"), false, 1, 5);
    assert_eq!(
        describe(&step),
        vec!["chat:!play b", "chat:Adding Song to Queue - Song B - by @bob"]
    );
    let _ = h.on_event(&chat("beginbot", "!reverb a"), false, 1, 0);
    let _ = h.on_audio(AudioProbe::Ready, 2);
    let step = h.on_event(&chat("beginbot", "!last_song"), false, 3, 0);
    assert_eq!(describe(&step), vec!["chat:!play a"]);

    let mut empty = handler();
    let step = empty.on_event(&chat("adminUser", "!random_song"), false, 1, 5);
    assert!(step.effects.is_empty());
    assert_eq!(step.error, Some(HandlerError::NotFound));
}

#[test]
fn unknown_song_is_reported_and_changes_nothing() {
    let mut h = handler();
    let _ = h.on_event(&chat("adminUser", "!play nope"), false, 1, 0);
    let step = h.on_info(None, 2);
    assert_eq!(describe(&step), vec!["chat:No song found for nope"]);
    assert_eq!(step.error, Some(HandlerError::NotFound));
    assert_eq!(step.flow, Flow::Continue);
    assert!(!h.is_waiting());
    assert_eq!(h.playlist().song_count(), 0);
    assert_eq!(h.playback().queued(), 0);
}

#[test]
fn missing_or_corrupt_audio_leaves_the_output_alone() {
    let mut h = handler();
    let step = h.on_event(&chat("adminUser", "!reverb abc"), false, 1, 0);
    assert_eq!(
        describe(&step),
        vec!["chat:@adminUser added abc to Queue", "open:abc:ai_songs/abc.mp3"]
    );
    let step = h.on_audio(AudioProbe::Missing, 2);
    assert_eq!(describe(&step), vec!["chat:No song found for abc"]);
    assert_eq!(step.error, Some(HandlerError::NotFound));
    assert_eq!(h.playback().queued(), 0);
    assert_eq!(h.playlist().row_count(), 0);

    let _ = h.on_event(&chat("adminUser", "!reverb abc"), false, 3, 0);
    let step = h.on_audio(AudioProbe::Corrupt, 4);
    assert!(step.effects.is_empty());
    assert_eq!(step.error, Some(HandlerError::Decode));
    assert_eq!(h.playback().queued(), 0);
    assert_eq!(h.playlist().row_count(), 0);
    assert_eq!(h.playlist().current_id(), None);
}

#[test]
fn a_new_event_abandons_an_open_exchange() {
    let mut h = handler();
    let _ = h.on_event(&chat("adminUser", "!play abc"), false, 1, 0);
    assert!(h.is_waiting());
    let _ = h.on_event(&chat("somebody", "hello"), false, 2, 0);
    assert!(!h.is_waiting());
    let step = h.on_info(Some(info("abc")), 3);
    assert!(step.effects.is_empty());
    assert_eq!(h.playlist().song_count(), 0);
}

#[test]
fn what_the_subscription_yields_decides_the_flow() {
    let mut h = handler();
    let step = h.on_received(Received::Event(chat("adminUser", "!queue abc")), false, 1, 0);
    assert_eq!(describe(&step), vec!["enqueue:abc"]);
    assert_eq!(step.flow, Flow::Continue);
    let _ = h.on_event(&chat("adminUser", "!play abc"), false, 1, 0);
    let step = h.on_received(Received::Lagged(3), true, 2, 0);
    assert!(step.effects.is_empty());
    assert_eq!(step.error, None);
    assert_eq!(step.flow, Flow::Continue);
    assert!(h.is_waiting());
    let step = h.on_received(Received::Empty, true, 2, 0);
    assert!(step.effects.is_empty());
    assert_eq!(step.flow, Flow::Continue);
    let step = h.on_received(Received::Closed, true, 2, 0);
    assert!(step.effects.is_empty());
    assert_eq!(step.flow, Flow::Fail);
    assert_eq!(h.playlist().row_count(), 1);
    let step = h.on_received(Received::Event(Event::Shutdown), true, 3, 0);
    assert_eq!(describe(&step), vec!["stop_all"]);
    assert_eq!(step.flow, Flow::Stop);
}

#[test]
fn failures_never_end_the_loop() {
    let mut h = handler();
    let step = h.on_event(&chat("adminUser", "!last_song"), false, 1, 0);
    assert_eq!(step.error, Some(HandlerError::NotFound));
    assert_eq!(step.flow, Flow::Continue);
    let _ = h.on_event(&chat("adminUser", "!reverb x"), false, 1, 0);
    let step = h.on_audio(AudioProbe::Corrupt, 2);
    assert_eq!(step.error, Some(HandlerError::Decode));
    assert_eq!(step.flow, Flow::Continue);
}

#[test]
fn requests_are_handled_from_their_words() {
    let mut h = handler();
    let msg = UserMessage {
        user_name: "adminUser".to_string(),
        contents: "ignored here".to_string(),
        roles: UserRoles::default(),
    };
    let words = vec!["!queue".to_string(), "abc-123".to_string()];
    let step = handle_requests(&mut h, &words, &msg, 5, 0);
    assert_eq!(describe(&step), vec!["enqueue:abc-123"]);
    let step = handle_requests(&mut h, &vec![], &msg, 5, 0);
    assert!(step.effects.is_empty());
    assert_eq!(step.error, None);
    let stranger = UserMessage { user_name: "somebody".to_string(), ..msg };
    let step = handle_requests(&mut h, &words, &stranger, 5, 0);
    assert!(step.effects.is_empty());
    assert_eq!(h.playlist().row_count(), 1);
}

#[test]
fn play_audio_asks_for_the_stored_file_first() {
    let mut h = handler();
    let step = play_audio(&mut h, "abc-123", "ann");
    assert_eq!(
        describe(&step),
        vec!["chat:@ann added abc-123 to Queue", "open:abc-123:ai_songs/abc-123.mp3"]
    );
    assert!(h.is_waiting());
    assert_eq!(h.playback().queued(), 0);
    assert_eq!(h.playlist().row_count(), 0);
    let step = h.on_audio(AudioProbe::Ready, 9);
    assert_eq!(describe(&step), vec!["enqueue:abc-123", "played:abc-123:9", "append:abc-123"]);
}
