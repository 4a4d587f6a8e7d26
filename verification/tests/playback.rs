use subd_core::playback::{change_level, AudioCommand, PlaybackCoordinator, PlaybackStatus};
use subd_core::router::{Change, Transport, UNIT};

#[test]
fn starts_stopped_at_nominal_levels() {
    let c = PlaybackCoordinator::new();
    assert_eq!(c.status(), PlaybackStatus::Stopped);
    assert_eq!(c.volume(), 1_000_000);
    assert_eq!(c.speed(), 1_000_000);
    assert_eq!(c.queued(), 0);
    assert_eq!(UNIT, 1_000_000);
}

#[test]
fn play_pause_resume_skip_stop() {
    let mut c = PlaybackCoordinator::new();
    match c.play("abc-123") {
        AudioCommand::Append { song_id } => assert_eq!(song_id, "abc-123"),
        other => panic!("unexpected {other:?}"),
    }
    assert_eq!(c.status(), PlaybackStatus::Playing);
    assert!(matches!(c.pause(), AudioCommand::Pause));
    assert_eq!(c.status(), PlaybackStatus::Paused);
    assert!(matches!(c.resume(), AudioCommand::Resume));
    assert_eq!(c.status(), PlaybackStatus::Playing);
    let _ = c.play("second");
    assert_eq!(c.queued(), 2);
    let _ = c.pause();
    assert!(matches!(c.skip(), AudioCommand::Skip));
    assert_eq!(c.queued(), 1);
    assert_eq!(c.status(), PlaybackStatus::Playing);
    assert!(matches!(c.skip(), AudioCommand::Skip));
    assert_eq!(c.status(), PlaybackStatus::Stopped);
    assert!(matches!(c.skip(), AudioCommand::Skip));
    assert_eq!(c.queued(), 0);
    let _ = c.play("x");
    let _ = c.play("y");
    assert!(matches!(c.stop(), AudioCommand::Stop));
    assert_eq!(c.queued(), 0);
    assert_eq!(c.status(), PlaybackStatus::Stopped);
}

#[test]
fn transport_dispatches() {
    let mut c = PlaybackCoordinator::new();
    let _ = c.play("x");
    assert!(matches!(c.transport(Transport::Pause), AudioCommand::Pause));
    assert_eq!(c.status(), PlaybackStatus::Paused);
    assert!(matches!(c.transport(Transport::Resume), AudioCommand::Resume));
    assert_eq!(c.status(), PlaybackStatus::Playing);
    assert!(matches!(c.transport(Transport::Skip), AudioCommand::Skip));
    assert_eq!(c.queued(), 0);
    let _ = c.play("y");
    assert!(matches!(c.transport(Transport::Stop), AudioCommand::Stop));
    assert_eq!(c.queued(), 0);
}

#[test]
fn up_then_down_does_not_recover_the_volume() {
    let mut c = PlaybackCoordinator::new();
    let v = c.volume();
    assert!(matches!(c.set_volume(Change::Scale(120)), AudioCommand::SetVolume(1_200_000)));
    assert!(matches!(c.set_volume(Change::Scale(80)), AudioCommand::SetVolume(960_000)));
    assert_eq!(c.volume(), 960_000);
    assert_ne!(c.volume(), v);
    assert_eq!(c.volume() * 100, v * 96);
}

#[test]
fn up_then_down_from_other_baselines() {
    for v in [1u64, 3, 25, 100_000, 333_333, 1_000_000, 7_500_000] {
        let up = change_level(v, Change::Scale(120));
        let down = change_level(up, Change::Scale(80));
        assert_eq!(up, v * 120 / 100);
        assert_eq!(down, (v * 120 / 100) * 80 / 100);
        assert!(down < v, "{v}");
        if v % 25 == 0 {
            assert_eq!(down * 100, v * 96);
        }
    }
    assert_eq!(change_level(0, Change::Scale(120)), 0);
}

#[test]
fn absolute_levels_and_speed() {
    let mut c = PlaybackCoordinator::new();
    assert!(matches!(c.set_volume(Change::Absolute(100_000)), AudioCommand::SetVolume(100_000)));
    assert_eq!(c.volume(), 100_000);
    assert!(matches!(c.set_speed(Change::Absolute(1_500_000)), AudioCommand::SetSpeed(1_500_000)));
    assert!(matches!(c.set_speed(Change::Scale(125)), AudioCommand::SetSpeed(1_875_000)));
    assert!(matches!(c.set_speed(Change::Scale(75)), AudioCommand::SetSpeed(1_406_250)));
    assert_eq!(c.speed(), 1_406_250);
    assert_eq!(c.volume(), 100_000);
}

#[test]
fn scaling_holds_at_the_top() {
    assert_eq!(change_level(u64::MAX, Change::Scale(120)), u64::MAX);
    assert_eq!(change_level(u64::MAX, Change::Scale(100)), u64::MAX);
    assert_eq!(change_level(u64::MAX, Change::Scale(u64::MAX)), u64::MAX);
    assert_eq!(change_level(u64::MAX, Change::Scale(50)), u64::MAX / 2);
    assert_eq!(change_level(5, Change::Scale(0)), 0);
    assert_eq!(change_level(5, Change::Absolute(9)), 9);
}

#[test]
fn observe_clears_the_queue_when_the_device_is_idle() {
    let mut c = PlaybackCoordinator::new();
    let _ = c.play("x");
    assert!(!c.observe(false));
    assert_eq!(c.queued(), 1);
    assert!(c.observe(true));
    assert_eq!(c.queued(), 0);
    assert_eq!(c.status(), PlaybackStatus::Stopped);
}
