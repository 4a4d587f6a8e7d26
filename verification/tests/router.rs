use subd_core::router::{command_table, is_admin, Action, Change, Command, CommandRouter, Transport};
use subd_core::types::{UserMessage, UserRoles};

fn router() -> CommandRouter {
    CommandRouter::new(vec!["adminUser".to_string()])
}

fn args(items: &[&str]) -> Vec<String> {
    items.iter().map(|s| s.to_string()).collect()
}

#[test]
fn table_lists_twenty_commands() {
    let rows = command_table();
    assert_eq!(rows.len(), 20);
    assert_eq!(rows[0].literal, "!info");
    assert!(!rows[0].admin_required);
    for row in rows.iter().skip(1) {
        assert!(row.admin_required, "{} should be gated", row.literal);
        assert!(row.literal.starts_with('!'));
    }
}

#[test]
fn unknown_command_is_ignored() {
    let r = router();
    let a = r.route("!dance", &args(&["now"]), "adminUser", &UserRoles::default());
    assert!(matches!(a, Action::Ignore));
    let a = r.route("play", &args(&["abc"]), "adminUser", &UserRoles::default());
    assert!(matches!(a, Action::Ignore));
    let a = r.route("!Play", &args(&["abc"]), "adminUser", &UserRoles::default());
    assert!(matches!(a, Action::Ignore));
    let a = r.route("", &args(&[]), "adminUser", &UserRoles::default());
    assert!(matches!(a, Action::Ignore));
}

#[test]
fn gated_command_from_stranger_is_ignored() {
    let r = router();
    let mods = UserRoles { is_twitch_mod: true, ..UserRoles::default() };
    for cmd in ["!queue", "!play", "!pause", "!stop", "!up", "!nightcore", "!random_song"] {
        let a = r.route(cmd, &args(&["abc-123"]), "somebody", &mods);
        assert!(matches!(a, Action::Ignore), "{cmd}");
    }
}

#[test]
fn info_is_open_to_everybody() {
    let r = router();
    let a = r.route("!info", &args(&[]), "somebody", &UserRoles::default());
    assert!(matches!(a, Action::ShowCurrent));
    let a = r.route("!info", &args(&["abc"]), "somebody", &UserRoles::default());
    match a {
        Action::LookupInfo { song_id } => assert_eq!(song_id, "abc"),
        other => panic!("unexpected {other:?}"),
    }
}

#[test]
fn admin_commands_map_to_actions() {
    let r = router();
    let none = UserRoles::default();
    match r.route("!queue", &args(&["abc-123"]), "adminUser", &none) {
        Action::Enqueue { song_id } => assert_eq!(song_id, "abc-123"),
        other => panic!("unexpected {other:?}"),
    }
    match r.route("!play", &args(&["abc-123", "extra"]), "adminUser", &none) {
        Action::Play { song_id, requested_by } => {
            assert_eq!(song_id, "abc-123");
            assert_eq!(requested_by, "adminUser");
        }
        other => panic!("unexpected {other:?}"),
    }
    match r.route("!reverb", &args(&["x"]), "adminUser", &none) {
        Action::Reverb { song_id, requested_by } => {
            assert_eq!(song_id, "x");
            assert_eq!(requested_by, "adminUser");
        }
        other => panic!("unexpected {other:?}"),
    }
    assert!(matches!(r.route("!queue", &args(&[]), "adminUser", &none), Action::Ignore));
    assert!(matches!(r.route("!play", &args(&[]), "adminUser", &none), Action::Ignore));
    assert!(matches!(r.route("!reverb", &args(&[]), "adminUser", &none), Action::Ignore));
    assert!(matches!(
        r.route("!pause", &args(&[]), "adminUser", &none),
        Action::Transport(Transport::Pause)
    ));
    assert!(matches!(
        r.route("!unpause", &args(&[]), "adminUser", &none),
        Action::Transport(Transport::Resume)
    ));
    assert!(matches!(
        r.route("!skip", &args(&[]), "adminUser", &none),
        Action::Transport(Transport::Skip)
    ));
    assert!(matches!(
        r.route("!stop", &args(&[]), "adminUser", &none),
        Action::Transport(Transport::Stop)
    ));
    assert!(matches!(r.route("!random_song", &args(&[]), "adminUser", &none), Action::RandomSong));
    assert!(matches!(r.route("!last_song", &args(&[]), "adminUser", &none), Action::LastSong));
}

#[test]
fn speed_and_volume_levels() {
    let r = router();
    let none = UserRoles::default();
    let speed = |c: &str| match r.route(c, &args(&[]), "adminUser", &none) {
        Action::SetSpeed(ch) => ch,
        other => panic!("unexpected {other:?}"),
    };
    let volume = |c: &str| match r.route(c, &args(&[]), "adminUser", &none) {
        Action::SetVolume(ch) => ch,
        other => panic!("unexpected {other:?}"),
    };
    assert_eq!(speed("!nightcore"), Change::Absolute(1_500_000));
    assert_eq!(speed("!doom"), Change::Absolute(500_000));
    assert_eq!(speed("!normal"), Change::Absolute(1_000_000));
    assert_eq!(speed("!speedup"), Change::Scale(125));
    assert_eq!(speed("!slowdown"), Change::Scale(75));
    assert_eq!(volume("!up"), Change::Scale(120));
    assert_eq!(volume("!down"), Change::Scale(80));
    assert_eq!(volume("!coding_volume"), Change::Absolute(100_000));
    assert_eq!(volume("!quiet"), Change::Absolute(100_000));
    assert_eq!(volume("!party_volume"), Change::Absolute(1_000_000));
}

#[test]
fn find_matches_literals_exactly() {
    let r = router();
    assert_eq!(r.find("!play"), Some(Command::Play));
    assert_eq!(r.find("!last_song"), Some(Command::LastSong));
    assert_eq!(r.find("!play "), None);
    assert_eq!(r.find("!PLAY"), None);
    assert_eq!(r.find("!"), None);
}

#[test]
fn built_in_admins() {
    let msg = |name: &str| UserMessage {
        user_name: name.to_string(),
        contents: String::new(),
        roles: UserRoles::default(),
    };
    assert!(is_admin(&msg("beginbot")));
    assert!(is_admin(&msg("beginbotbot")));
    assert!(!is_admin(&msg("beginbo")));
    assert!(!is_admin(&msg("Beginbot")));
    assert!(!is_admin(&msg("")));
    let r = CommandRouter::with_default_admins();
    assert!(r.is_admin_name("beginbot"));
    assert!(r.is_admin_name("beginbotbot"));
    assert!(!r.is_admin_name("adminUser"));
}
