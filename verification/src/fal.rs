//! Reading the answers of the image and video generator, and naming the
//! files that its images are saved to.

use crate::json::{Json, parse_json, parsed_json};
use crate::media::{
    EmbeddedImage, MediaError, decode_data_url, decoded_data_url, extension_for, extension_for_mime,
};
use crate::playlist::opt_view;
use crate::text::{
    concat2, concat4, concat5, decimal, opt_str, signed_decimal, to_decimal, to_signed_decimal,
};
use vstd::prelude::*;
use vstd::string::*;

verus! {

/// Why an answer of the generator could not be used.
#[derive(Debug, PartialEq, Eq, Structural, Clone, Copy)]
pub enum FalError {
    /// The answer is no JSON document.
    Syntax,
    /// The answer has no `video.url` that is a string.
    NoVideoUrl,
    /// The answer has no `images` that is an array.
    NoImages,
    /// A file number does not fit the machine's integers.
    TooMany,
    /// An image of the answer has no `url` that is a string.
    NoUrl,
    /// An image is carried in a `data:` address whose data is no base64.
    Base64,
    /// The pattern of `data:` addresses was refused.
    Pattern,
}

impl FalError {
    /// The message of the failure.
    pub fn message(&self) -> (r: String)
        ensures
            r@ == match *self {
                FalError::Syntax => "Failed to parse JSON"@,
                FalError::NoVideoUrl => "Failed to extract video URL from FAL result"@,
                FalError::NoImages => "Failed to extract images from JSON"@,
                FalError::TooMany => "Too many images"@,
                FalError::NoUrl => "Image without a URL"@,
                FalError::Base64 => "Invalid base64 in data URL"@,
                FalError::Pattern => "Invalid data URL pattern"@,
            },
    {
        match self {
            FalError::Syntax => String::from_str("Failed to parse JSON"),
            FalError::NoVideoUrl => String::from_str("Failed to extract video URL from FAL result"),
            FalError::NoImages => String::from_str("Failed to extract images from JSON"),
            FalError::TooMany => String::from_str("Too many images"),
            FalError::NoUrl => String::from_str("Image without a URL"),
            FalError::Base64 => String::from_str("Invalid base64 in data URL"),
            FalError::Pattern => String::from_str("Invalid data URL pattern"),
        }
    }
}

/// The text at `video.url` of `doc`.
pub open spec fn video_url(doc: Json) -> Option<Seq<char>> {
    match doc.member("video"@) {
        Some(video) => match video.member("url"@) {
            Some(url) => url.text(),
            None => None,
        },
        None => None,
    }
}

/// The text at `video.url` of the document that `text` stands for.
pub open spec fn video_url_in(text: Seq<char>) -> Result<Seq<char>, FalError> {
    match parsed_json(text) {
        None => Err(FalError::Syntax),
        Some(doc) => match video_url(doc) {
            Some(url) => Ok(url),
            None => Err(FalError::NoVideoUrl),
        },
    }
}

/// The view of a result that holds a string.
pub open spec fn text_result(r: Result<String, FalError>) -> Result<Seq<char>, FalError> {
    match r {
        Ok(s) => Ok(s@),
        Err(e) => Err(e),
    }
}

/// The address of the video in a parsed answer.
pub fn video_url_of(doc: &Json) -> (r: Option<String>)
    ensures
        opt_view(r) == video_url(*doc),
{
    let video = match doc.get("video") {
        Some(video) => video,
        None => {
            return None;
        },
    };
    let url = match video.get("url") {
        Some(url) => url,
        None => {
            return None;
        },
    };
    match url.as_str() {
        Some(text) => Some(String::from_str(text)),
        None => None,
    }
}

/// The address of the video in an answer of the generator.
pub fn extract_video_url_from_fal_result(fal_result: &str) -> (r: Result<String, FalError>)
    ensures
        text_result(r) == video_url_in(fal_result@),
{
    let doc = match parse_json(fal_result) {
        Ok(doc) => doc,
        Err(_) => {
            return Err(FalError::Syntax);
        },
    };
    match video_url_of(&doc) {
        Some(url) => Ok(url),
        None => Err(FalError::NoVideoUrl),
    }
}


/// Where one image of an answer is to be saved.
#[derive(Debug)]
pub struct ImageSave {
    /// Where the image is fetched from; `None` where the answer gives no
    /// address for it, in which case nothing is saved.
    pub url: Option<String>,
    /// The file that is always written.
    pub main_filename: String,
    /// A second file: the picture that the stream shows as its background.
    pub additional_filename: Option<String>,
    /// A third file, in the folder of the song.
    pub extra_filename: Option<String>,
}

/// Mathematical value of an `ImageSave`.
pub struct ImageSaveView {
    pub url: Option<Seq<char>>,
    pub main_filename: Seq<char>,
    pub additional_filename: Option<Seq<char>>,
    pub extra_filename: Option<Seq<char>>,
}

impl View for ImageSave {
    type V = ImageSaveView;

    open spec fn view(&self) -> ImageSaveView {
        ImageSaveView {
            url: opt_view(self.url),
            main_filename: self.main_filename@,
            additional_filename: opt_view(self.additional_filename),
            extra_filename: opt_view(self.extra_filename),
        }
    }
}

/// The views of a vector of saves.
pub open spec fn save_views(v: Seq<ImageSave>) -> Seq<ImageSaveView> {
    v.map_values(|s: ImageSave| s@)
}

/// The view of a result that holds saves.
pub open spec fn saves_result(r: Result<Vec<ImageSave>, FalError>) -> Result<
    Seq<ImageSaveView>,
    FalError,
> {
    match r {
        Ok(v) => Ok(save_views(v@)),
        Err(e) => Err(e),
    }
}

/// The address of an image: the text at its `url`.
pub open spec fn image_url(image: Json) -> Option<Seq<char>> {
    match image.member("url"@) {
        Some(url) => url.text(),
        None => None,
    }
}

/// The file name `pattern-index.extension`.
pub open spec fn numbered_name(pattern: Seq<char>, index: nat, extension: Seq<char>) -> Seq<char> {
    pattern + "-"@ + decimal(index) + "."@ + extension
}

/// Where image `index` of a picture request is saved.
pub open spec fn picture_save(
    image: Json,
    index: nat,
    pattern: Seq<char>,
    background: Option<Seq<char>>,
    folder: Option<Seq<char>>,
) -> ImageSaveView {
    ImageSaveView {
        url: image_url(image),
        main_filename: numbered_name(pattern, index, "png"@),
        additional_filename: background,
        extra_filename: match folder {
            Some(f) => Some(f + "/"@ + numbered_name(pattern, index, "png"@)),
            None => None,
        },
    }
}

/// Where image `index` of request number `outer` of a music video is
/// saved.
pub open spec fn frame_save(
    image: Json,
    index: nat,
    pattern: Seq<char>,
    outer: nat,
    folder: Option<Seq<char>>,
) -> ImageSaveView {
    ImageSaveView {
        url: image_url(image),
        main_filename: numbered_name(pattern, index, "jpg"@),
        additional_filename: None,
        extra_filename: match folder {
            Some(f) => Some(f + "/"@ + decimal((index + 1) * outer) + "."@ + "jpg"@),
            None => None,
        },
    }
}

/// The images of an answer: the elements of its `images`.
pub open spec fn images(doc: Json) -> Result<Seq<Json>, FalError> {
    match doc.member("images"@) {
        Some(images) => match images.items() {
            Some(items) => Ok(items),
            None => Err(FalError::NoImages),
        },
        None => Err(FalError::NoImages),
    }
}

/// The images of the document that `text` stands for.
pub open spec fn images_in(text: Seq<char>) -> Result<Seq<Json>, FalError> {
    match parsed_json(text) {
        None => Err(FalError::Syntax),
        Some(doc) => images(doc),
    }
}

/// The images of a parsed answer.
pub fn images_of(doc: &Json) -> (r: Result<&Vec<Json>, FalError>)
    ensures
        match r {
            Ok(items) => images(*doc) == Ok::<Seq<Json>, FalError>(items@),
            Err(e) => images(*doc) == Err::<Seq<Json>, FalError>(e),
        },
{
    match doc.get("images") {
        Some(images) => match images.as_array() {
            Some(items) => Ok(items),
            None => Err(FalError::NoImages),
        },
        None => Err(FalError::NoImages),
    }
}

/// Where the images of a picture request are saved, one entry for each.
pub open spec fn picture_saves_of(
    images: Seq<Json>,
    pattern: Seq<char>,
    background: Option<Seq<char>>,
    folder: Option<Seq<char>>,
) -> Seq<ImageSaveView> {
    Seq::new(images.len(), |i: int| picture_save(images[i], i as nat, pattern, background, folder))
}

/// What `parse_and_process_images_from_json` returns.
pub open spec fn picture_saves(
    text: Seq<char>,
    pattern: Seq<char>,
    background: Option<Seq<char>>,
    folder: Option<Seq<char>>,
) -> Result<Seq<ImageSaveView>, FalError> {
    match images_in(text) {
        Err(e) => Err(e),
        Ok(images) => Ok(picture_saves_of(images, pattern, background, folder)),
    }
}

/// Where the images of request number `outer` of a music video are
/// saved, one entry for each; an error where a frame number would not
/// fit the machine's integers.
pub open spec fn frame_saves_of(
    images: Seq<Json>,
    pattern: Seq<char>,
    outer: nat,
    folder: Option<Seq<char>>,
) -> Result<Seq<ImageSaveView>, FalError> {
    if folder is Some && images.len() * outer > u64::MAX {
        Err(FalError::TooMany)
    } else {
        Ok(Seq::new(images.len(), |i: int| frame_save(images[i], i as nat, pattern, outer, folder)))
    }
}

/// What `parse_and_process_images_from_json_for_music_video` returns.
pub open spec fn frame_saves(
    text: Seq<char>,
    pattern: Seq<char>,
    outer: nat,
    folder: Option<Seq<char>>,
) -> Result<Seq<ImageSaveView>, FalError> {
    match images_in(text) {
        Err(e) => Err(e),
        Ok(images) => frame_saves_of(images, pattern, outer, folder),
    }
}

fn copy_opt(s: Option<&str>) -> (r: Option<String>)
    ensures
        opt_view(r) == opt_str(s),
{
    match s {
        Some(t) => Some(String::from_str(t)),
        None => None,
    }
}

fn url_of_image(image: &Json) -> (r: Option<String>)
    ensures
        opt_view(r) == image_url(*image),
{
    match image.get("url") {
        Some(url) => match url.as_str() {
            Some(t) => Some(String::from_str(t)),
            None => None,
        },
        None => None,
    }
}

/// Says, for each image of an answer to a picture request, where it is
/// fetched from and which files it is written to.
pub fn parse_and_process_images_from_json(
    raw_json: &str,
    main_filename_pattern: &str,
    stream_background_path: Option<&str>,
    extra_save_folder: Option<&str>,
) -> (r: Result<Vec<ImageSave>, FalError>)
    ensures
        saves_result(r) == picture_saves(
            raw_json@,
            main_filename_pattern@,
            opt_str(stream_background_path),
            opt_str(extra_save_folder),
        ),
{
    let doc = match parse_json(raw_json) {
        Ok(doc) => doc,
        Err(_) => {
            return Err(FalError::Syntax);
        },
    };
    match images_of(&doc) {
        Ok(images) => Ok(
            picture_saves_for(
                images,
                main_filename_pattern,
                stream_background_path,
                extra_save_folder,
            ),
        ),
        Err(e) => Err(e),
    }
}

/// Says, for each of the images of a picture request, where it is fetched
/// from and which files it is written to.
pub fn picture_saves_for(
    images: &Vec<Json>,
    main_filename_pattern: &str,
    stream_background_path: Option<&str>,
    extra_save_folder: Option<&str>,
) -> (out: Vec<ImageSave>)
    ensures
        save_views(out@) == picture_saves_of(
            images@,
            main_filename_pattern@,
            opt_str(stream_background_path),
            opt_str(extra_save_folder),
        ),
{
    let ghost background = opt_str(stream_background_path);
    let ghost folder = opt_str(extra_save_folder);
    let mut out: Vec<ImageSave> = Vec::new();
    let mut i: usize = 0;
    while i < images.len()
        invariant
            0 <= i <= images.len(),
            out.len() == i,
            background == opt_str(stream_background_path),
            folder == opt_str(extra_save_folder),
            forall|j: int|
                0 <= j < i ==> (#[trigger] out[j])@ == picture_save(
                    images@[j],
                    j as nat,
                    main_filename_pattern@,
                    background,
                    folder,
                ),
        decreases images.len() - i,
    {
        let number = to_decimal(i as u64);
        let main_filename = concat5(main_filename_pattern, "-", number.as_str(), ".", "png");
        let extra_filename = match extra_save_folder {
            Some(f) => {
                let mut name = String::from_str(f);
                name.append("/");
                name.append(main_filename.as_str());
                assert(name@ =~= f@ + "/"@ + numbered_name(main_filename_pattern@, i as nat, "png"@));
                Some(name)
            },
            None => None,
        };
        out.push(
            ImageSave {
                url: url_of_image(&images[i]),
                main_filename,
                additional_filename: copy_opt(stream_background_path),
                extra_filename,
            },
        );
        i = i + 1;
    }
    assert(save_views(out@) =~= picture_saves_of(
        images@,
        main_filename_pattern@,
        background,
        folder,
    ));
    out
}

/// Says, for each image of an answer to request number `outer_index` of
/// a music video, where it is fetched from and which files it is written
/// to.
pub fn parse_and_process_images_from_json_for_music_video(
    raw_json: &str,
    main_filename_pattern: &str,
    outer_index: usize,
    extra_save_folder: Option<&str>,
) -> (r: Result<Vec<ImageSave>, FalError>)
    ensures
        saves_result(r) == frame_saves(
            raw_json@,
            main_filename_pattern@,
            outer_index as nat,
            opt_str(extra_save_folder),
        ),
{
    let doc = match parse_json(raw_json) {
        Ok(doc) => doc,
        Err(_) => {
            return Err(FalError::Syntax);
        },
    };
    match images_of(&doc) {
        Ok(images) => frame_saves_for(images, main_filename_pattern, outer_index, extra_save_folder),
        Err(e) => Err(e),
    }
}

/// Says, for each of the images of request number `outer_index` of a
/// music video, where it is fetched from and which files it is written
/// to.
pub fn frame_saves_for(
    images: &Vec<Json>,
    main_filename_pattern: &str,
    outer_index: usize,
    extra_save_folder: Option<&str>,
) -> (r: Result<Vec<ImageSave>, FalError>)
    ensures
        saves_result(r) == frame_saves_of(
            images@,
            main_filename_pattern@,
            outer_index as nat,
            opt_str(extra_save_folder),
        ),
{
    let ghost folder = opt_str(extra_save_folder);
    if extra_save_folder.is_some() {
        match (images.len() as u64).checked_mul(outer_index as u64) {
            Some(_) => {},
            None => {
                return Err(FalError::TooMany);
            },
        }
    }
    let mut out: Vec<ImageSave> = Vec::new();
    let mut i: usize = 0;
    while i < images.len()
        invariant
            0 <= i <= images.len(),
            out.len() == i,
            folder == opt_str(extra_save_folder),
            folder is Some ==> images.len() * outer_index <= u64::MAX,
            forall|j: int|
                0 <= j < i ==> (#[trigger] out[j])@ == frame_save(
                    images@[j],
                    j as nat,
                    main_filename_pattern@,
                    outer_index as nat,
                    folder,
                ),
        decreases images.len() - i,
    {
        let number = to_decimal(i as u64);
        let main_filename = concat5(main_filename_pattern, "-", number.as_str(), ".", "jpg");
        let extra_filename = match extra_save_folder {
            Some(f) => {
                assert((i + 1) * outer_index <= images.len() * outer_index) by (nonlinear_arith)
                    requires
                        i + 1 <= images.len(),
                        outer_index >= 0,
                ;
                let frame = ((i + 1) as u64) * (outer_index as u64);
                Some(concat5(f, "/", to_decimal(frame).as_str(), ".", "jpg"))
            },
            None => None,
        };
        out.push(
            ImageSave {
                url: url_of_image(&images[i]),
                main_filename,
                additional_filename: None,
                extra_filename,
            },
        );
        i = i + 1;
    }
    assert(save_views(out@) =~= Seq::new(
        images@.len(),
        |i: int| frame_save(images@[i], i as nat, main_filename_pattern@, outer_index as nat, folder),
    ));
    Ok(out)
}


/// The file that always receives a copy of the newest picture.
pub open spec fn background_file() -> Seq<char> {
    "./tmp/dalle-1.png"@
}

/// An image that came inside the answer itself, and the files that it is
/// written to.
#[derive(Debug)]
pub struct EmbeddedSave {
    pub bytes: Vec<u8>,
    pub main_filename: String,
    pub additional_filename: String,
    pub extra_filename: Option<String>,
}

/// Mathematical value of an `EmbeddedSave`.
pub struct EmbeddedSaveView {
    pub bytes: Seq<u8>,
    pub main_filename: Seq<char>,
    pub additional_filename: Seq<char>,
    pub extra_filename: Option<Seq<char>>,
}

impl View for EmbeddedSave {
    type V = EmbeddedSaveView;

    open spec fn view(&self) -> EmbeddedSaveView {
        EmbeddedSaveView {
            bytes: self.bytes@,
            main_filename: self.main_filename@,
            additional_filename: self.additional_filename@,
            extra_filename: opt_view(self.extra_filename),
        }
    }
}

/// The view of an optional save.
pub open spec fn opt_save_view(s: Option<EmbeddedSave>) -> Option<EmbeddedSaveView> {
    match s {
        Some(save) => Some(save@),
        None => None,
    }
}

/// The views of a vector of optional saves.
pub open spec fn opt_save_views(v: Seq<Option<EmbeddedSave>>) -> Seq<Option<EmbeddedSaveView>> {
    v.map_values(|s: Option<EmbeddedSave>| opt_save_view(s))
}

/// The files that an image of media type `mime` is written to:
/// `folder/stamp.ext`, the stream's background picture, and, where `extra`
/// is given, `extra/stamp.ext`.
pub open spec fn named_save(
    mime: Seq<char>,
    bytes: Seq<u8>,
    stamp: Seq<char>,
    folder: Seq<char>,
    extra: Option<Seq<char>>,
) -> EmbeddedSaveView {
    EmbeddedSaveView {
        bytes,
        main_filename: folder + "/"@ + stamp + "."@ + extension_for(mime),
        additional_filename: background_file(),
        extra_filename: match extra {
            Some(f) => Some(f + "/"@ + stamp + "."@ + extension_for(mime)),
            None => None,
        },
    }
}

/// Names the files that `image` is written to.
pub fn name_embedded(image: EmbeddedImage, stamp: &str, folder: &str, extra_save_folder: Option<&str>) -> (r:
    EmbeddedSave)
    ensures
        r@ == named_save(
            image.mime@,
            image.bytes@,
            stamp@,
            folder@,
            opt_str(extra_save_folder),
        ),
{
    let extension = extension_for_mime(image.mime.as_str());
    let extra_filename = match extra_save_folder {
        Some(f) => Some(concat5(f, "/", stamp, ".", extension)),
        None => None,
    };
    EmbeddedSave {
        bytes: image.bytes,
        main_filename: concat5(folder, "/", stamp, ".", extension),
        additional_filename: String::from_str("./tmp/dalle-1.png"),
        extra_filename,
    }
}

/// What is made of one image of an answer: an error where it has no
/// address or its data is no base64; nothing where its address is no
/// `data:` address; else its bytes and its files, named after `stamp`.
pub open spec fn embedded_save(
    image: Json,
    stamp: Seq<char>,
    folder: Seq<char>,
    extra: Option<Seq<char>>,
) -> Result<Option<EmbeddedSaveView>, FalError> {
    match image_url(image) {
        None => Err(FalError::NoUrl),
        Some(url) => match decoded_data_url(url) {
            Err(MediaError::Pattern) => Err(FalError::Pattern),
            Err(MediaError::Base64) => Err(FalError::Base64),
            Ok(None) => Ok(None),
            Ok(Some((mime, bytes))) => Ok(Some(named_save(mime, bytes, stamp, folder, extra))),
        },
    }
}

/// What is made of the images of an answer, in order; the first image
/// that fails makes the whole fail.
pub open spec fn embedded_saves_of(
    images: Seq<Json>,
    stamp: Seq<char>,
    folder: Seq<char>,
    extra: Option<Seq<char>>,
) -> Result<Seq<Option<EmbeddedSaveView>>, FalError>
    decreases images.len(),
{
    if images.len() == 0 {
        Ok(Seq::empty())
    } else {
        match embedded_saves_of(images.drop_last(), stamp, folder, extra) {
            Err(e) => Err(e),
            Ok(before) => match embedded_save(images.last(), stamp, folder, extra) {
                Err(e) => Err(e),
                Ok(save) => Ok(before.push(save)),
            },
        }
    }
}

/// What `process_images` returns.
pub open spec fn embedded_saves(
    text: Seq<char>,
    stamp: Seq<char>,
    folder: Seq<char>,
    extra: Option<Seq<char>>,
) -> Result<Seq<Option<EmbeddedSaveView>>, FalError> {
    match images_in(text) {
        Err(e) => Err(e),
        Ok(images) => embedded_saves_of(images, stamp, folder, extra),
    }
}

/// The view of what `process_images` returns.
pub open spec fn embedded_result(r: Result<Vec<Option<EmbeddedSave>>, FalError>) -> Result<
    Seq<Option<EmbeddedSaveView>>,
    FalError,
> {
    match r {
        Ok(v) => Ok(opt_save_views(v@)),
        Err(e) => Err(e),
    }
}

/// Takes out the images that an answer carries in `data:` addresses and
/// says which files each is written to: `folder/stamp.ext`, the stream's
/// background picture, and, where `extra_save_folder` is given,
/// `extra_save_folder/stamp.ext`. An image whose address is no `data:`
/// address gives `None`.
pub fn process_images(
    raw_json: &str,
    stamp: &str,
    folder: &str,
    extra_save_folder: Option<&str>,
) -> (r: Result<Vec<Option<EmbeddedSave>>, FalError>)
    ensures
        embedded_result(r) == embedded_saves(
            raw_json@,
            stamp@,
            folder@,
            opt_str(extra_save_folder),
        ),
{
    let doc = match parse_json(raw_json) {
        Ok(doc) => doc,
        Err(_) => {
            return Err(FalError::Syntax);
        },
    };
    let images = match images_of(&doc) {
        Ok(images) => images,
        Err(e) => {
            return Err(e);
        },
    };
    let ghost extra = opt_str(extra_save_folder);
    let mut out: Vec<Option<EmbeddedSave>> = Vec::new();
    let mut i: usize = 0;
    assert(images@.take(0) =~= Seq::<Json>::empty());
    assert(opt_save_views(out@) =~= Seq::<Option<EmbeddedSaveView>>::empty());
    while i < images.len()
        invariant
            0 <= i <= images.len(),
            extra == opt_str(extra_save_folder),
            images_in(raw_json@) == Ok::<Seq<Json>, FalError>(images@),
            embedded_saves_of(images@.take(i as int), stamp@, folder@, extra) == Ok::<
                Seq<Option<EmbeddedSaveView>>,
                FalError,
            >(opt_save_views(out@)),
        decreases images.len() - i,
    {
        proof {
            let next = images@.take(i + 1);
            assert(next.drop_last() =~= images@.take(i as int));
            assert(next.last() == images@[i as int]);
            lemma_first_failure_stays(images@, i + 1, stamp@, folder@, extra);
        }
        let url = match url_of_image(&images[i]) {
            Some(url) => url,
            None => {
                return Err(FalError::NoUrl);
            },
        };
        let save = match decode_data_url(url.as_str()) {
            Err(MediaError::Pattern) => {
                return Err(FalError::Pattern);
            },
            Err(MediaError::Base64) => {
                return Err(FalError::Base64);
            },
            Ok(None) => None,
            Ok(Some(image)) => Some(name_embedded(image, stamp, folder, extra_save_folder)),
        };
        let ghost before = out@;
        out.push(save);
        assert(opt_save_views(out@) =~= opt_save_views(before).push(opt_save_view(save)));
        i = i + 1;
    }
    assert(images@.take(images@.len() as int) =~= images@);
    Ok(out)
}

/// Once a prefix of the images fails, every longer prefix fails in the
/// same way.
pub proof fn lemma_first_failure_stays(
    images: Seq<Json>,
    n: int,
    stamp: Seq<char>,
    folder: Seq<char>,
    extra: Option<Seq<char>>,
)
    requires
        0 <= n <= images.len(),
    ensures
        embedded_saves_of(images.take(n), stamp, folder, extra) is Err ==> embedded_saves_of(
            images,
            stamp,
            folder,
            extra,
        ) == embedded_saves_of(images.take(n), stamp, folder, extra),
    decreases images.len() - n,
{
    if embedded_saves_of(images.take(n), stamp, folder, extra) is Ok {
    } else if n == images.len() {
        assert(images.take(n) =~= images);
    } else {
        let longer = images.take(n + 1);
        assert(longer.drop_last() =~= images.take(n));
        lemma_first_failure_stays(images, n + 1, stamp, folder, extra);
    }
}


/// The file that keeps the raw answer received at `timestamp`.
pub open spec fn response_file(folder: Seq<char>, timestamp: int) -> Seq<char> {
    folder + "/"@ + signed_decimal(timestamp) + ".json"@
}

/// The file that keeps the video received at `timestamp`.
pub open spec fn video_file(folder: Seq<char>, timestamp: int) -> Seq<char> {
    folder + "/"@ + signed_decimal(timestamp) + ".mp4"@
}

/// What the names of the pictures received at `timestamp` begin with.
pub open spec fn picture_stem(timestamp: int) -> Seq<char> {
    "tmp/fal_images/"@ + signed_decimal(timestamp)
}

/// Builds `response_file`.
pub fn make_response_file(folder: &str, timestamp: i64) -> (r: String)
    ensures
        r@ == response_file(folder@, timestamp as int),
{
    concat4(folder, "/", to_signed_decimal(timestamp).as_str(), ".json")
}

/// Builds `video_file`.
pub fn make_video_file(folder: &str, timestamp: i64) -> (r: String)
    ensures
        r@ == video_file(folder@, timestamp as int),
{
    concat4(folder, "/", to_signed_decimal(timestamp).as_str(), ".mp4")
}

/// Builds `picture_stem`.
pub fn make_picture_stem(timestamp: i64) -> (r: String)
    ensures
        r@ == picture_stem(timestamp as int),
{
    concat2("tmp/fal_images/", to_signed_decimal(timestamp).as_str())
}

} // verus!
