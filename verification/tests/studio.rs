use subd_core::studio::{
    make_telephone_prompt, make_themed_prompt, handle_fal_commands, handle_telephone_requests, starts_with_char,
    Painter, PictureAction, TelephoneAction, TELEPHONE_CONNECTIONS,
};
use subd_core::types::{UserMessage, UserRoles};

fn msg(user: &str, text: &str, is_mod: bool) -> UserMessage {
    UserMessage {
        user_name: user.to_string(),
        contents: text.to_string(),
        roles: UserRoles { is_twitch_mod: is_mod, ..UserRoles::default() },
    }
}

#[test]
fn theme_is_for_admins_and_moderators() {
    match handle_fal_commands(&msg("beginbot", "!theme dark  forest", false)) {
        PictureAction::SetTheme { theme } => assert_eq!(theme, "dark  forest"),
        other => panic!("unexpected {other:?}"),
    }
    match handle_fal_commands(&msg("somebody", "!theme neon", true)) {
        PictureAction::SetTheme { theme } => assert_eq!(theme, "neon"),
        other => panic!("unexpected {other:?}"),
    }
    match handle_fal_commands(&msg("beginbotbot", "!theme", false)) {
        PictureAction::SetTheme { theme } => assert_eq!(theme, ""),
        other => panic!("unexpected {other:?}"),
    }
    assert!(matches!(handle_fal_commands(&msg("somebody", "!theme neon", false)), PictureAction::Ignore));
}

#[test]
fn talk_and_fal() {
    match handle_fal_commands(&msg("somebody", "!talk", false)) {
        PictureAction::Talk { image_path, audio_path } => {
            assert_eq!(image_path, "prime.jpg");
            assert_eq!(audio_path, "TwitchChatTTSRecordings/1701059381_beginbot_prime.wav");
        }
        other => panic!("unexpected {other:?}"),
    }
    assert!(matches!(handle_fal_commands(&msg("beginbot", "!fal a cat", false)), PictureAction::Ignore));
}

#[test]
fn plain_lines_of_several_words_are_prompts() {
    match handle_fal_commands(&msg("somebody", "Magical Cat wearing a wizard hat", false)) {
        PictureAction::Imagine { prompt } => assert_eq!(prompt, "Magical Cat wearing a wizard hat"),
        other => panic!("unexpected {other:?}"),
    }
    match handle_fal_commands(&msg("somebody", " leading space", false)) {
        PictureAction::Imagine { prompt } => assert_eq!(prompt, " leading space"),
        other => panic!("unexpected {other:?}"),
    }
    for text in ["raccoon", "", " ", "!unknown command here", "@friend hello there", "one\u{a0}"] {
        assert!(
            matches!(handle_fal_commands(&msg("somebody", text, false)), PictureAction::Ignore),
            "{text:?}"
        );
    }
    match handle_fal_commands(&msg("somebody", "tab\tseparated", false)) {
        PictureAction::Imagine { prompt } => assert_eq!(prompt, "tab\tseparated"),
        other => panic!("unexpected {other:?}"),
    }
}

#[test]
fn prompts_are_joined_with_a_space() {
    assert_eq!(make_themed_prompt("Waifu", "a cat"), "Waifu a cat");
    assert_eq!(make_themed_prompt("", "a cat"), " a cat");
    assert_eq!(make_telephone_prompt("A sponge.", "More Memey"), "A sponge. More Memey");
    assert!(starts_with_char("!x", '!'));
    assert!(!starts_with_char("x!", '!'));
    assert!(!starts_with_char("", '!'));
}

#[test]
fn telephone_commands() {
    assert_eq!(TELEPHONE_CONNECTIONS, 5);
    match handle_telephone_requests(&msg("ann", "!telephone https://x/y.png More Memey please", false)) {
        TelephoneAction::Play { painter, image_url, prompt, user_name, connections } => {
            assert_eq!(painter, Painter::Dalle);
            assert_eq!(image_url, "https://x/y.png");
            assert_eq!(prompt, "More Memey please");
            assert_eq!(user_name, "ann");
            assert_eq!(connections, 5);
        }
        other => panic!("unexpected {other:?}"),
    }
    match handle_telephone_requests(&msg("ann", "!carlphone https://x/y.png", false)) {
        TelephoneAction::Play { painter, image_url, prompt, .. } => {
            assert_eq!(painter, Painter::StableDiffusion);
            assert_eq!(image_url, "https://x/y.png");
            assert_eq!(prompt, "");
        }
        other => panic!("unexpected {other:?}"),
    }
    match handle_telephone_requests(&msg("ann", "!telephone", false)) {
        TelephoneAction::Play { image_url, prompt, .. } => {
            assert_eq!(image_url, "");
            assert_eq!(prompt, "");
        }
        other => panic!("unexpected {other:?}"),
    }
    match handle_telephone_requests(&msg("ann", "!old_telephone 1702696715 rest", false)) {
        TelephoneAction::OldScene { id } => assert_eq!(id, "1702696715"),
        other => panic!("unexpected {other:?}"),
    }
    assert!(matches!(handle_telephone_requests(&msg("ann", "!old_telephone", false)), TelephoneAction::Ignore));
    assert!(matches!(handle_telephone_requests(&msg("ann", "hello world", false)), TelephoneAction::Ignore));
    assert!(matches!(handle_telephone_requests(&msg("ann", " !telephone x", false)), TelephoneAction::Ignore));
    assert!(matches!(handle_telephone_requests(&msg("ann", "", false)), TelephoneAction::Ignore));
}
