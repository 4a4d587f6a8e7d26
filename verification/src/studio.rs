//! What the picture handler and the telephone handler decide for a chat
//! line. Both cut the line at single spaces; neither is part of the song
//! command table.

use crate::router::{default_admins, is_admin};
use crate::text::{
    concat2, concat3, concat5, fields, join_from, join_words, signed_decimal, split_on_space,
    split_whitespace, str_eq, to_signed_decimal, tokens, views,
};
use crate::types::{UserMessage, UserMessageView};
use vstd::prelude::*;
use vstd::string::*;

verus! {

/// How many pictures a game of telephone passes through.
pub const TELEPHONE_CONNECTIONS: u8 = 5;

/// What the picture handler does for a chat line.
#[derive(Debug)]
pub enum PictureAction {
    /// Nothing.
    Ignore,
    /// Make `theme` the theme of the backgrounds to come.
    SetTheme { theme: String },
    /// Animate the picture at `image_path` with the voice at `audio_path`.
    Talk { image_path: String, audio_path: String },
    /// Draw a background for `prompt`, in the theme in force.
    Imagine { prompt: String },
}

/// Mathematical value of a `PictureAction`.
pub enum PictureActionView {
    Ignore,
    SetTheme { theme: Seq<char> },
    Talk { image_path: Seq<char>, audio_path: Seq<char> },
    Imagine { prompt: Seq<char> },
}

impl View for PictureAction {
    type V = PictureActionView;

    open spec fn view(&self) -> PictureActionView {
        match self {
            PictureAction::Ignore => PictureActionView::Ignore,
            PictureAction::SetTheme { theme } => PictureActionView::SetTheme { theme: theme@ },
            PictureAction::Talk { image_path, audio_path } => PictureActionView::Talk {
                image_path: image_path@,
                audio_path: audio_path@,
            },
            PictureAction::Imagine { prompt } => PictureActionView::Imagine { prompt: prompt@ },
        }
    }
}

/// Whether `s` begins with `c`.
pub open spec fn begins_with(s: Seq<char>, c: char) -> bool {
    s.len() > 0 && s[0] == c
}

/// What the picture handler decides for `m`. `!theme` is for admins and
/// moderators; a line of more than one word that is neither a command nor
/// addressed to somebody is a prompt.
pub open spec fn picture_action(m: UserMessageView) -> PictureActionView {
    let words = fields(m.contents);
    let command = words[0];
    if command == "!theme"@ {
        if default_admins().contains(m.user_name) || m.roles.is_twitch_mod {
            PictureActionView::SetTheme { theme: join_words(words.skip(1)) }
        } else {
            PictureActionView::Ignore
        }
    } else if command == "!talk"@ {
        PictureActionView::Talk {
            image_path: "prime.jpg"@,
            audio_path: "TwitchChatTTSRecordings/1701059381_beginbot_prime.wav"@,
        }
    } else if command == "!fal"@ {
        PictureActionView::Ignore
    } else if !begins_with(command, '!') && !begins_with(command, '@') && tokens(m.contents).len()
        > 1 {
        PictureActionView::Imagine { prompt: m.contents }
    } else {
        PictureActionView::Ignore
    }
}

/// Whether `s` begins with `c`.
pub fn starts_with_char(s: &str, c: char) -> (r: bool)
    ensures
        r == begins_with(s@, c),
{
    if s.unicode_len() == 0 {
        false
    } else {
        s.get_char(0) == c
    }
}

/// Decides what the picture handler does for `msg`.
pub fn handle_fal_commands(msg: &UserMessage) -> (a: PictureAction)
    ensures
        a@ == picture_action(msg@),
{
    let words = split_on_space(msg.contents.as_str());
    assert(views(words@)[0] == words[0]@);
    let command = words[0].as_str();
    if str_eq(command, "!theme") {
        if is_admin(msg) || msg.roles.is_twitch_mod() {
            PictureAction::SetTheme { theme: join_from(&words, 1) }
        } else {
            PictureAction::Ignore
        }
    } else if str_eq(command, "!talk") {
        PictureAction::Talk {
            image_path: String::from_str("prime.jpg"),
            audio_path: String::from_str("TwitchChatTTSRecordings/1701059381_beginbot_prime.wav"),
        }
    } else if str_eq(command, "!fal") {
        PictureAction::Ignore
    } else if !starts_with_char(command, '!') && !starts_with_char(command, '@')
        && split_whitespace(msg.contents.as_str()).len() > 1 {
        PictureAction::Imagine { prompt: msg.contents.clone() }
    } else {
        PictureAction::Ignore
    }
}

/// The prompt that is drawn: the theme, a space, and what the user wrote.
pub open spec fn themed_prompt(theme: Seq<char>, prompt: Seq<char>) -> Seq<char> {
    theme + " "@ + prompt
}

/// Builds `themed_prompt`.
pub fn make_themed_prompt(theme: &str, prompt: &str) -> (r: String)
    ensures
        r@ == themed_prompt(theme@, prompt@),
{
    concat3(theme, " ", prompt)
}

/// Which generator draws the pictures of a game of telephone.
#[derive(Debug, PartialEq, Eq, Structural, Clone, Copy)]
pub enum Painter {
    Dalle,
    StableDiffusion,
}

/// What the telephone handler does for a chat line.
#[derive(Debug)]
pub enum TelephoneAction {
    /// Nothing.
    Ignore,
    /// Show the pictures of the earlier game `id` again.
    OldScene { id: String },
    /// Play telephone: describe the picture at `image_url`, draw the
    /// description together with `prompt`, and so on, `connections` times.
    Play { painter: Painter, image_url: String, prompt: String, user_name: String, connections: u8 },
}

/// Mathematical value of a `TelephoneAction`.
pub enum TelephoneActionView {
    Ignore,
    OldScene { id: Seq<char> },
    Play {
        painter: Painter,
        image_url: Seq<char>,
        prompt: Seq<char>,
        user_name: Seq<char>,
        connections: nat,
    },
}

impl View for TelephoneAction {
    type V = TelephoneActionView;

    open spec fn view(&self) -> TelephoneActionView {
        match self {
            TelephoneAction::Ignore => TelephoneActionView::Ignore,
            TelephoneAction::OldScene { id } => TelephoneActionView::OldScene { id: id@ },
            TelephoneAction::Play {
                painter,
                image_url,
                prompt,
                user_name,
                connections,
            } => TelephoneActionView::Play {
                painter: *painter,
                image_url: image_url@,
                prompt: prompt@,
                user_name: user_name@,
                connections: *connections as nat,
            },
        }
    }
}

/// The second field of a line, or nothing where there is none.
pub open spec fn second_field(words: Seq<Seq<char>>) -> Seq<char> {
    if words.len() > 1 {
        words[1]
    } else {
        Seq::empty()
    }
}

/// The fields of a line from the third on, joined by spaces.
pub open spec fn prompt_fields(words: Seq<Seq<char>>) -> Seq<char> {
    if words.len() > 2 {
        join_words(words.skip(2))
    } else {
        Seq::empty()
    }
}

/// What the telephone handler decides for `m`. `!old_telephone` without
/// an id asks for nothing.
pub open spec fn telephone_action(m: UserMessageView) -> TelephoneActionView {
    let words = fields(m.contents);
    let command = words[0];
    if command == "!old_telephone"@ {
        if words.len() > 1 {
            TelephoneActionView::OldScene { id: words[1] }
        } else {
            TelephoneActionView::Ignore
        }
    } else if command == "!carlphone"@ {
        TelephoneActionView::Play {
            painter: Painter::StableDiffusion,
            image_url: second_field(words),
            prompt: prompt_fields(words),
            user_name: m.user_name,
            connections: TELEPHONE_CONNECTIONS as nat,
        }
    } else if command == "!telephone"@ {
        TelephoneActionView::Play {
            painter: Painter::Dalle,
            image_url: second_field(words),
            prompt: prompt_fields(words),
            user_name: m.user_name,
            connections: TELEPHONE_CONNECTIONS as nat,
        }
    } else {
        TelephoneActionView::Ignore
    }
}

/// Decides what the telephone handler does for `msg`.
pub fn handle_telephone_requests(msg: &UserMessage) -> (a: TelephoneAction)
    ensures
        a@ == telephone_action(msg@),
{
    let words = split_on_space(msg.contents.as_str());
    assert(views(words@)[0] == words[0]@);
    let command = words[0].as_str();
    let carl = str_eq(command, "!carlphone");
    if str_eq(command, "!old_telephone") {
        if words.len() > 1 {
            assert(views(words@)[1] == words[1]@);
            TelephoneAction::OldScene { id: words[1].clone() }
        } else {
            TelephoneAction::Ignore
        }
    } else if carl || str_eq(command, "!telephone") {
        let image_url = if words.len() > 1 {
            assert(views(words@)[1] == words[1]@);
            words[1].clone()
        } else {
            String::new()
        };
        let prompt = if words.len() > 2 {
            join_from(&words, 2)
        } else {
            String::new()
        };
        TelephoneAction::Play {
            painter: if carl {
                Painter::StableDiffusion
            } else {
                Painter::Dalle
            },
            image_url,
            prompt,
            user_name: msg.user_name.clone(),
            connections: TELEPHONE_CONNECTIONS,
        }
    } else {
        TelephoneAction::Ignore
    }
}

/// What is drawn next in a game of telephone: the description of the
/// picture before, a space, and the prompt of the game.
pub open spec fn telephone_prompt(description: Seq<char>, prompt: Seq<char>) -> Seq<char> {
    description + " "@ + prompt
}

/// Builds `telephone_prompt`.
pub fn make_telephone_prompt(description: &str, prompt: &str) -> (r: String)
    ensures
        r@ == telephone_prompt(description@, prompt@),
{
    concat3(description, " ", prompt)
}


/// The folder, below the archive, of the game that began at `timestamp`.
pub open spec fn telephone_folder(timestamp: int) -> Seq<char> {
    "telephone/"@ + signed_decimal(timestamp)
}

/// The directory that is created for the game in `folder`.
pub open spec fn telephone_directory(folder: Seq<char>) -> Seq<char> {
    "./archive/"@ + folder
}

/// The file that keeps the picture with which the game in `folder`
/// began.
pub open spec fn original_picture(folder: Seq<char>) -> Seq<char> {
    "/home/begin/code/subd/archive/"@ + folder + "/original.png"@
}

/// Builds `telephone_folder`.
pub fn make_telephone_folder(timestamp: i64) -> (r: String)
    ensures
        r@ == telephone_folder(timestamp as int),
{
    concat2("telephone/", to_signed_decimal(timestamp).as_str())
}

/// Builds `telephone_directory`.
pub fn make_telephone_directory(folder: &str) -> (r: String)
    ensures
        r@ == telephone_directory(folder@),
{
    concat2("./archive/", folder)
}

/// Builds `original_picture`.
pub fn make_original_picture(folder: &str) -> (r: String)
    ensures
        r@ == original_picture(folder@),
{
    concat3("/home/begin/code/subd/archive/", folder, "/original.png")
}

/// What is drawn as a variation of a screenshot: the prompt, what the
/// describer saw, and the prompt once more as the thing to focus on.
pub open spec fn variation_prompt(prompt: Seq<char>, description: Seq<char>) -> Seq<char> {
    prompt + " "@ + description + " . The most important thing to focus on is: "@ + prompt
}

/// Builds `variation_prompt`.
pub fn make_variation_prompt(prompt: &str, description: &str) -> (r: String)
    ensures
        r@ == variation_prompt(prompt@, description@),
{
    concat5(prompt, " ", description, " . The most important thing to focus on is: ", prompt)
}

} // verus!
