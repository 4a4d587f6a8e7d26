//! What follows an answer of the song generator: the record of the new
//! song, the places where the answer is kept, and the wait for its audio.

use crate::handler::{SongInfo, SongInfoView};
use crate::playlist::{Song, SongView};
use crate::retrier::{DownloadRetrier, RetrierView};
use crate::text::{concat2, concat3};
use vstd::prelude::*;
use vstd::string::*;

verus! {

#[verifier::external_type_specification]
#[verifier::external_body]
pub struct ExUuidError(uuid::Error);

/// The 128 bits of the UUID that `text` stands for, or `None` where `text`
/// is no UUID.
pub uninterp spec fn uuid_value(text: Seq<char>) -> Option<u128>;

/// `Uuid::parse_str` of the `uuid` crate, then `Uuid::as_u128`: reads a
/// UUID in any of its written forms. The forms are not restated here: the
/// bits are known only as `uuid_value(text)`, and a failure means that
/// there are none.
#[verifier::external_body]
fn parse_uuid(text: &str) -> (r: Result<u128, uuid::Error>)
    ensures
        match r {
            Ok(bits) => uuid_value(text@) == Some(bits),
            Err(_) => uuid_value(text@) is None,
        },
{
    uuid::Uuid::parse_str(text).map(|u| u.as_u128())
}

/// Why an answer of the generator could not be followed up.
#[derive(Debug, PartialEq, Eq, Structural, Clone, Copy)]
pub enum SunoError {
    /// The id of the song is no UUID.
    InvalidId,
}

/// The numeral of one hexadecimal digit, in lower case.
pub open spec fn hex_digit(d: u128) -> Seq<char> {
    if d == 0 {
        "0"@
    } else if d == 1 {
        "1"@
    } else if d == 2 {
        "2"@
    } else if d == 3 {
        "3"@
    } else if d == 4 {
        "4"@
    } else if d == 5 {
        "5"@
    } else if d == 6 {
        "6"@
    } else if d == 7 {
        "7"@
    } else if d == 8 {
        "8"@
    } else if d == 9 {
        "9"@
    } else if d == 10 {
        "a"@
    } else if d == 11 {
        "b"@
    } else if d == 12 {
        "c"@
    } else if d == 13 {
        "d"@
    } else if d == 14 {
        "e"@
    } else {
        "f"@
    }
}

/// Digit `k` of the 32 hexadecimal digits of `bits`, the first being the
/// most significant.
pub open spec fn nibble(bits: u128, k: nat) -> u128 {
    (bits >> ((4 * (31 - k)) as u128)) & 0xf
}

/// What stands before digit `k` of a written UUID: a hyphen before the
/// digits 8, 12, 16 and 20, nothing before the others.
pub open spec fn separator(k: nat) -> Seq<char> {
    if k == 8 || k == 12 || k == 16 || k == 20 {
        "-"@
    } else {
        Seq::empty()
    }
}

/// The first `k` digits of `bits` as a UUID is written, hyphens included.
pub open spec fn hyphenated_upto(bits: u128, k: nat) -> Seq<char>
    decreases k,
{
    if k == 0 {
        Seq::empty()
    } else {
        hyphenated_upto(bits, (k - 1) as nat) + separator((k - 1) as nat) + hex_digit(
            nibble(bits, (k - 1) as nat),
        )
    }
}

/// `bits` as a UUID is written: 32 hexadecimal digits in lower case, in
/// groups of 8, 4, 4, 4 and 12 with hyphens between them.
pub open spec fn hyphenated(bits: u128) -> Seq<char> {
    hyphenated_upto(bits, 32)
}

fn hex_str(d: u128) -> (r: &'static str)
    ensures
        r@ == hex_digit(d),
{
    if d == 0 {
        "0"
    } else if d == 1 {
        "1"
    } else if d == 2 {
        "2"
    } else if d == 3 {
        "3"
    } else if d == 4 {
        "4"
    } else if d == 5 {
        "5"
    } else if d == 6 {
        "6"
    } else if d == 7 {
        "7"
    } else if d == 8 {
        "8"
    } else if d == 9 {
        "9"
    } else if d == 10 {
        "a"
    } else if d == 11 {
        "b"
    } else if d == 12 {
        "c"
    } else if d == 13 {
        "d"
    } else if d == 14 {
        "e"
    } else {
        "f"
    }
}

/// Writes `bits` as a UUID.
pub fn format_uuid(bits: u128) -> (r: String)
    ensures
        r@ == hyphenated(bits),
{
    let mut r = String::new();
    let mut k: u32 = 0;
    while k < 32
        invariant
            0 <= k <= 32,
            r@ == hyphenated_upto(bits, k as nat),
        decreases 32 - k,
    {
        let ghost before = r@;
        if k == 8 || k == 12 || k == 16 || k == 20 {
            r.append("-");
        }
        assert(r@ =~= before + separator(k as nat));
        let shift: u128 = (4 * (31 - k)) as u128;
        let d: u128 = (bits >> shift) & 0xf;
        r.append(hex_str(d));
        k = k + 1;
    }
    r
}

/// The id of a song as it is written everywhere: the UUID that `text`
/// stands for, in its hyphenated form.
pub open spec fn normal_id(text: Seq<char>) -> Result<Seq<char>, SunoError> {
    match uuid_value(text) {
        Some(bits) => Ok(hyphenated(bits)),
        None => Err(SunoError::InvalidId),
    }
}

/// Brings the id of a song into its hyphenated form.
pub fn normalize_id(text: &str) -> (r: Result<String, SunoError>)
    ensures
        match r {
            Ok(id) => normal_id(text@) == Ok::<Seq<char>, SunoError>(id@),
            Err(e) => normal_id(text@) == Err::<Seq<char>, SunoError>(e),
        },
{
    match parse_uuid(text) {
        Ok(bits) => Ok(format_uuid(bits)),
        Err(_) => Err(SunoError::InvalidId),
    }
}

/// The address that describes the song `song_id`.
pub open spec fn info_url(song_id: Seq<char>) -> Seq<char> {
    "http://localhost:3000/api/get?ids="@ + song_id
}

/// Builds `info_url`.
pub fn make_info_url(song_id: &str) -> (r: String)
    ensures
        r@ == info_url(song_id@),
{
    concat2("http://localhost:3000/api/get?ids=", song_id)
}

/// The folder in which what belongs to the song `song_id` is kept.
pub open spec fn response_folder(song_id: Seq<char>) -> Seq<char> {
    "tmp/suno_responses/"@ + song_id
}

/// The file in which the generator's answer for `name` is kept.
pub open spec fn response_file(name: Seq<char>) -> Seq<char> {
    "tmp/suno_responses/"@ + name + ".json"@
}

/// Builds `response_file`.
pub fn make_response_file(name: &str) -> (r: String)
    ensures
        r@ == response_file(name@),
{
    concat3("tmp/suno_responses/", name, ".json")
}

/// What is done with a song that the generator has just announced.
pub struct Generation {
    /// The record to save; the audio is not downloaded yet.
    pub song: Song,
    /// The folder to create for the song.
    pub folder: String,
    /// The file to which the generator's whole answer is written.
    pub response_path: String,
    /// The wait for the audio.
    pub retrier: DownloadRetrier,
}

/// Mathematical value of a `Generation`.
pub struct GenerationView {
    pub song: SongView,
    pub folder: Seq<char>,
    pub response_path: Seq<char>,
    pub retrier: RetrierView,
}

impl View for Generation {
    type V = GenerationView;

    open spec fn view(&self) -> GenerationView {
        GenerationView {
            song: self.song@,
            folder: self.folder@,
            response_path: self.response_path@,
            retrier: self.retrier@,
        }
    }
}

/// What `follow_generation` returns for a song announced as `info`.
pub open spec fn generation_of(
    info: SongInfoView,
    user_name: Seq<char>,
    now: int,
    republish: bool,
) -> Result<GenerationView, SunoError> {
    match normal_id(info.id) {
        Err(e) => Err(e),
        Ok(id) => Ok(
            GenerationView {
                song: SongView {
                    song_id: id,
                    title: info.title,
                    tags: info.tags,
                    prompt: info.prompt,
                    username: user_name,
                    audio_url: info.audio_url,
                    lyric: info.lyric,
                    gpt_description_prompt: info.gpt_description_prompt,
                    created_at: now,
                    last_updated: now,
                    downloaded: false,
                },
                folder: response_folder(id),
                response_path: response_file(id),
                retrier: RetrierView::initial(id, user_name, republish),
            },
        ),
    }
}

/// Follows up a song that the generator announced for `user_name` at
/// `now`: its record, the places where the answer is kept, and a retrier
/// that waits for its audio. The id has to be a UUID and is used in its
/// hyphenated form from here on.
pub fn follow_generation(info: SongInfo, user_name: &str, now: i64, republish: bool) -> (r: Result<
    Generation,
    SunoError,
>)
    ensures
        match r {
            Ok(g) => generation_of(info@, user_name@, now as int, republish) == Ok::<
                GenerationView,
                SunoError,
            >(g@),
            Err(e) => generation_of(info@, user_name@, now as int, republish) == Err::<
                GenerationView,
                SunoError,
            >(e),
        },
{
    let id = match normalize_id(info.id.as_str()) {
        Ok(id) => id,
        Err(e) => {
            return Err(e);
        },
    };
    let folder = concat2("tmp/suno_responses/", id.as_str());
    let response_path = make_response_file(id.as_str());
    let retrier = DownloadRetrier::new(id.as_str(), user_name, republish);
    let song = Song {
        song_id: id,
        title: info.title,
        tags: info.tags,
        prompt: info.prompt,
        username: String::from_str(user_name),
        audio_url: info.audio_url,
        lyric: info.lyric,
        gpt_description_prompt: info.gpt_description_prompt,
        created_at: now,
        last_updated: now,
        downloaded: false,
    };
    Ok(Generation { song, folder, response_path, retrier })
}

} // verus!
