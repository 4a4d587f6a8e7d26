use subd_core::retrier::{
    make_cdn_url, make_local_path, Arrival, Delivery, DownloadRetrier, PollOutcome, RetryAction,
    RetryPhase, POLL_INTERVAL_SECONDS,
};
use subd_core::types::Event;

#[test]
fn addresses_are_built_from_the_id() {
    assert_eq!(make_cdn_url("abc-123"), "https://cdn1.suno.ai/abc-123.mp3");
    assert_eq!(make_local_path("abc-123"), "ai_songs/abc-123.mp3");
    assert_eq!(make_cdn_url(""), "https://cdn1.suno.ai/.mp3");
    let r = DownloadRetrier::new("f12dda07-2588-4326-b15b-63dece759c5f", "ann", false);
    assert_eq!(r.url(), "https://cdn1.suno.ai/f12dda07-2588-4326-b15b-63dece759c5f.mp3");
    assert_eq!(POLL_INTERVAL_SECONDS, 5);
}

fn run_until_ready(n: u64) {
    let mut r = DownloadRetrier::new("abc-123", "ann", false);
    let mut polls = 0u64;
    let mut plays = 0u64;
    for i in 1..=n {
        let outcome = if i == n {
            PollOutcome::Ready
        } else if i % 2 == 0 {
            PollOutcome::Failed
        } else {
            PollOutcome::NotReady
        };
        polls += 1;
        match r.on_poll(outcome) {
            RetryAction::Wait { seconds, url } => {
                assert!(i < n);
                assert_eq!(seconds, 5);
                assert_eq!(url, "https://cdn1.suno.ai/abc-123.mp3");
                assert_eq!(r.phase(), RetryPhase::Polling);
            }
            RetryAction::Deliver { song_id, path } => {
                assert_eq!(i, n);
                assert_eq!(song_id, "abc-123");
                assert_eq!(path, "ai_songs/abc-123.mp3");
                assert_eq!(r.phase(), RetryPhase::Delivering);
                if let Arrival::Play { .. } = r.on_delivered(Delivery::Playable) {
                    plays += 1;
                }
            }
            RetryAction::GiveUp { .. } | RetryAction::Nothing => panic!("retrier stopped early"),
        }
    }
    assert_eq!(polls, n);
    assert_eq!(r.attempts(), n);
    assert_eq!(plays, 1);
    assert_eq!(r.phase(), RetryPhase::Delivered);
}

#[test]
fn ready_on_the_nth_poll_costs_n_attempts_and_one_play() {
    for n in [1u64, 2, 3, 10, 57] {
        run_until_ready(n);
    }
}

#[test]
fn nothing_is_played_before_the_song_is_ready() {
    let mut r = DownloadRetrier::new("abc", "ann", true);
    assert!(matches!(r.on_delivered(Delivery::Playable), Arrival::Nothing));
    assert_eq!(r.phase(), RetryPhase::Polling);
    assert!(matches!(r.on_poll(PollOutcome::NotReady), RetryAction::Wait { .. }));
    assert!(matches!(r.on_delivered(Delivery::Playable), Arrival::Nothing));
    assert_eq!(r.attempts(), 1);
}

#[test]
fn arrival_tells_the_user_and_may_publish() {
    let mut r = DownloadRetrier::new("abc-123", "ann", true);
    assert!(matches!(r.on_poll(PollOutcome::Ready), RetryAction::Deliver { .. }));
    match r.on_delivered(Delivery::Playable) {
        Arrival::Play { song_id, notice, publish } => {
            assert_eq!(song_id, "abc-123");
            assert_eq!(notice, "@ann's song abc-123 added to the Queue.");
            match publish {
                Some(Event::UserMessage(m)) => {
                    assert_eq!(m.user_name, "beginbot");
                    assert_eq!(m.contents, "!play abc-123");
                    assert!(!m.roles.is_twitch_mod);
                }
                other => panic!("unexpected {other:?}"),
            }
        }
        other => panic!("unexpected {other:?}"),
    }
    let mut quiet = DownloadRetrier::new("abc-123", "ann", false);
    let _ = quiet.on_poll(PollOutcome::Ready);
    match quiet.on_delivered(Delivery::Playable) {
        Arrival::Play { publish, .. } => assert!(publish.is_none()),
        other => panic!("unexpected {other:?}"),
    }
}

#[test]
fn delivered_song_is_never_played_again() {
    let mut r = DownloadRetrier::new("abc", "ann", false);
    let _ = r.on_poll(PollOutcome::Ready);
    assert!(matches!(r.on_delivered(Delivery::Playable), Arrival::Play { .. }));
    assert!(matches!(r.on_delivered(Delivery::Playable), Arrival::Nothing));
    assert!(matches!(r.on_poll(PollOutcome::Ready), RetryAction::Nothing));
    assert!(matches!(r.on_poll(PollOutcome::NotReady), RetryAction::Nothing));
    assert_eq!(r.attempts(), 1);
    assert_eq!(r.phase(), RetryPhase::Delivered);
}

#[test]
fn useless_payload_plays_nothing() {
    for bad in [Delivery::StoreFailed, Delivery::Undecodable] {
        let mut r = DownloadRetrier::new("abc", "ann", true);
        let _ = r.on_poll(PollOutcome::Failed);
        let _ = r.on_poll(PollOutcome::Ready);
        assert!(matches!(r.on_delivered(bad), Arrival::Nothing));
        assert_eq!(r.phase(), RetryPhase::Abandoned);
        assert!(matches!(r.on_delivered(Delivery::Playable), Arrival::Nothing));
        assert!(matches!(r.on_poll(PollOutcome::Ready), RetryAction::Nothing));
        assert_eq!(r.attempts(), 2);
    }
}

#[test]
fn polls_during_delivery_are_ignored() {
    let mut r = DownloadRetrier::new("abc", "ann", false);
    let _ = r.on_poll(PollOutcome::Ready);
    assert!(matches!(r.on_poll(PollOutcome::Ready), RetryAction::Nothing));
    assert_eq!(r.attempts(), 1);
    assert_eq!(r.phase(), RetryPhase::Delivering);
}

#[test]
fn a_limit_ends_the_polling() {
    let mut r = DownloadRetrier::new("abc", "ann", false).with_limit(3);
    assert!(matches!(r.on_poll(PollOutcome::NotReady), RetryAction::Wait { .. }));
    assert!(matches!(r.on_poll(PollOutcome::Failed), RetryAction::Wait { .. }));
    assert_eq!(r.phase(), RetryPhase::Polling);
    assert!(matches!(r.on_poll(PollOutcome::NotReady), RetryAction::GiveUp { attempts: 3 }));
    assert_eq!(r.phase(), RetryPhase::Abandoned);
    assert_eq!(r.attempts(), 3);
    assert!(matches!(r.on_poll(PollOutcome::Ready), RetryAction::Nothing));
    assert!(matches!(r.on_delivered(Delivery::Playable), Arrival::Nothing));
    assert_eq!(r.attempts(), 3);
}

#[test]
fn success_at_the_limit_still_counts() {
    let mut r = DownloadRetrier::new("abc", "ann", false).with_limit(2);
    assert!(matches!(r.on_poll(PollOutcome::NotReady), RetryAction::Wait { .. }));
    assert!(matches!(r.on_poll(PollOutcome::Ready), RetryAction::Deliver { .. }));
    assert!(matches!(r.on_delivered(Delivery::Playable), Arrival::Play { .. }));
    let mut zero = DownloadRetrier::new("abc", "ann", false).with_limit(0);
    assert!(matches!(zero.on_poll(PollOutcome::NotReady), RetryAction::GiveUp { attempts: 1 }));
    let mut unlimited = DownloadRetrier::new("abc", "ann", false);
    for _ in 0..1000 {
        assert!(matches!(unlimited.on_poll(PollOutcome::Failed), RetryAction::Wait { .. }));
    }
    assert_eq!(unlimited.attempts(), 1000);
    assert_eq!(unlimited.phase(), RetryPhase::Polling);
}
