//! The files and the encoder arguments of a music video.

use crate::text::{concat2, concat3, opt_str, str_eq, views};
use vstd::prelude::*;
use vstd::string::*;

verus! {

/// Images of at most this many bytes are taken to be failed downloads.
pub const SMALL_IMAGE_BYTES: u64 = 10_000;

/// The folder that holds the frames and the video of the song `song_id`.
pub open spec fn video_folder(song_id: Seq<char>) -> Seq<char> {
    "./tmp/music_videos/"@ + song_id
}

/// The file that the video of the song `song_id` is written to.
pub open spec fn video_file(song_id: Seq<char>) -> Seq<char> {
    "./tmp/music_videos/"@ + song_id + "/video.mp4"@
}

/// The pattern that matches the frames of the song `song_id`.
pub open spec fn frame_pattern(song_id: Seq<char>) -> Seq<char> {
    "./tmp/music_videos/"@ + song_id + "/*.jpg"@
}

/// Builds `video_folder`.
pub fn make_video_folder(song_id: &str) -> (r: String)
    ensures
        r@ == video_folder(song_id@),
{
    concat2("./tmp/music_videos/", song_id)
}

/// Builds `video_file`.
pub fn make_video_file(song_id: &str) -> (r: String)
    ensures
        r@ == video_file(song_id@),
{
    concat3("./tmp/music_videos/", song_id, "/video.mp4")
}

/// The arguments with which the encoder turns the frames of `song_id`
/// into its video: every frame shown for two seconds, thirty frames a
/// second in the output, an existing video overwritten.
pub open spec fn encoder_arguments(song_id: Seq<char>) -> Seq<Seq<char>> {
    seq![
        "-y"@,
        "-framerate"@,
        "1/2"@,
        "-pattern_type"@,
        "glob"@,
        "-i"@,
        frame_pattern(song_id),
        "-c:v"@,
        "libx264"@,
        "-r"@,
        "30"@,
        "-pix_fmt"@,
        "yuv420p"@,
        video_file(song_id),
    ]
}

/// Builds `encoder_arguments`.
pub fn make_encoder_arguments(song_id: &str) -> (args: Vec<String>)
    ensures
        views(args@) == encoder_arguments(song_id@),
{
    let mut args: Vec<String> = Vec::new();
    args.push(String::from_str("-y"));
    args.push(String::from_str("-framerate"));
    args.push(String::from_str("1/2"));
    args.push(String::from_str("-pattern_type"));
    args.push(String::from_str("glob"));
    args.push(String::from_str("-i"));
    args.push(concat3("./tmp/music_videos/", song_id, "/*.jpg"));
    args.push(String::from_str("-c:v"));
    args.push(String::from_str("libx264"));
    args.push(String::from_str("-r"));
    args.push(String::from_str("30"));
    args.push(String::from_str("-pix_fmt"));
    args.push(String::from_str("yuv420p"));
    args.push(make_video_file(song_id));
    assert(views(args@) =~= encoder_arguments(song_id@));
    args
}

/// Whether a directory entry is a frame that is too small to be a
/// picture: a file called `*.jpg` of at most `min_size` bytes.
pub open spec fn is_small_frame(
    is_file: bool,
    extension: Option<Seq<char>>,
    size: nat,
    min_size: nat,
) -> bool {
    is_file && extension == Some("jpg"@) && size <= min_size
}

/// Decides whether a directory entry is removed before encoding.
pub fn should_remove_frame(is_file: bool, extension: Option<&str>, size: u64, min_size: u64) -> (r:
    bool)
    ensures
        r == is_small_frame(
            is_file,
            opt_str(extension),
            size as nat,
            min_size as nat,
        ),
{
    let is_jpg = match extension {
        Some(e) => str_eq(e, "jpg"),
        None => false,
    };
    is_file && is_jpg && size <= min_size
}

/// What is drawn for one chunk of lyrics: the title of the song, a
/// space, and the chunk.
pub open spec fn frame_prompt(title: Seq<char>, chunk: Seq<char>) -> Seq<char> {
    title + " "@ + chunk
}

/// Builds `frame_prompt`.
pub fn make_frame_prompt(title: &str, chunk: &str) -> (r: String)
    ensures
        r@ == frame_prompt(title@, chunk@),
{
    concat3(title, " ", chunk)
}

} // verus!
