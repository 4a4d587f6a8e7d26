//! Images and files carried inside text: `data:` addresses, and the base64
//! that they hold.

use crate::text::{concat4, str_eq};
use vstd::prelude::*;
use vstd::string::*;

verus! {

#[verifier::external_type_specification]
#[verifier::external_body]
pub struct ExRegexError(regex::Error);

#[verifier::external_type_specification]
#[verifier::external_body]
pub struct ExDecodeError(base64::DecodeError);

/// What the first match of `pattern` in `text` captures in its groups
/// called `first` and `second`. The outer `None` says that `pattern` is no
/// regular expression; the inner one, that `text` holds no match or that
/// one of the two groups took no part in it.
pub uninterp spec fn captured_pair(
    pattern: Seq<char>,
    text: Seq<char>,
    first: Seq<char>,
    second: Seq<char>,
) -> Option<Option<(Seq<char>, Seq<char>)>>;

/// The bytes that the base64 text `text` stands for, in the standard
/// alphabet with padding, or `None` where `text` is no such base64.
pub uninterp spec fn base64_decoded(text: Seq<char>) -> Option<Seq<u8>>;

/// The base64 text of `bytes`, in the standard alphabet with padding.
pub uninterp spec fn base64_encoded(bytes: Seq<u8>) -> Seq<char>;

/// The media type that the extension of `path` suggests, or
/// `application/octet-stream` where it suggests none.
pub uninterp spec fn guessed_mime(path: Seq<char>) -> Seq<char>;

/// `Regex::new`, then `Regex::captures` and `Captures::name` of the
/// `regex` crate: compiles `pattern`, searches `text` for its leftmost
/// match, and hands out what the groups `first` and `second` matched. The
/// matching rules are not restated here: the result is known only as
/// `captured_pair`.
#[verifier::external_body]
fn regex_captured_pair(pattern: &str, text: &str, first: &str, second: &str) -> (r: Result<
    Option<(String, String)>,
    regex::Error,
>)
    ensures
        match r {
            Ok(Some(pair)) => captured_pair(pattern@, text@, first@, second@) == Some(
                Some((pair.0@, pair.1@)),
            ),
            Ok(None) => captured_pair(pattern@, text@, first@, second@) == Some(
                None::<(Seq<char>, Seq<char>)>,
            ),
            Err(_) => captured_pair(pattern@, text@, first@, second@) is None,
        },
{
    let re = regex::Regex::new(pattern)?;
    Ok(
        re.captures(text).and_then(
            |c| Some((c.name(first)?.as_str().to_string(), c.name(second)?.as_str().to_string())),
        ),
    )
}

/// `Engine::decode` of `base64::engine::general_purpose::STANDARD`. The
/// alphabet and the padding rules are not restated here: the bytes are
/// known only as `base64_decoded(text)`, and a failure means that there
/// are none.
#[verifier::external_body]
fn base64_decode(text: &str) -> (r: Result<Vec<u8>, base64::DecodeError>)
    ensures
        match r {
            Ok(bytes) => base64_decoded(text@) == Some(bytes@),
            Err(_) => base64_decoded(text@) is None,
        },
{
    base64::Engine::decode(&base64::engine::general_purpose::STANDARD, text)
}

/// `Engine::encode` of `base64::engine::general_purpose::STANDARD`. The
/// text is known only as `base64_encoded(bytes)`.
#[verifier::external_body]
fn base64_encode(bytes: &[u8]) -> (r: String)
    ensures
        r@ == base64_encoded(bytes@),
{
    base64::Engine::encode(&base64::engine::general_purpose::STANDARD, bytes)
}

/// `MimeGuess::from_path(..).first_or_octet_stream()` of `mime_guess`, as
/// `Mime::essence_str` renders it. No file is looked at; the table of
/// extensions is that of the crate's version and is not restated here.
#[verifier::external_body]
fn guess_mime(path: &str) -> (r: String)
    ensures
        r@ == guessed_mime(path@),
{
    mime_guess::MimeGuess::from_path(path).first_or_octet_stream().essence_str().to_string()
}

/// The pattern of a `data:` address that holds base64.
pub open spec fn data_url_pattern() -> Seq<char> {
    "data:(?P<mime>[\\w/]+);base64,(?P<data>.+)"@
}

/// Why embedded data could not be taken out.
#[derive(Debug, PartialEq, Eq, Structural, Clone, Copy)]
pub enum MediaError {
    /// The pattern of `data:` addresses was refused.
    Pattern,
    /// The address holds something that is no base64.
    Base64,
}

/// The extension of the file that holds an image of media type `mime`.
pub open spec fn extension_for(mime: Seq<char>) -> Seq<char> {
    if mime == "image/png"@ {
        "png"@
    } else if mime == "image/jpeg"@ {
        "jpg"@
    } else {
        "bin"@
    }
}

/// Picks the extension for a media type: `png`, `jpg`, or `bin` for
/// everything else.
pub fn extension_for_mime(mime: &str) -> (r: &'static str)
    ensures
        r@ == extension_for(mime@),
{
    if str_eq(mime, "image/png") {
        "png"
    } else if str_eq(mime, "image/jpeg") {
        "jpg"
    } else {
        "bin"
    }
}

/// An image taken out of a `data:` address.
#[derive(Debug)]
pub struct EmbeddedImage {
    pub mime: String,
    pub bytes: Vec<u8>,
}

/// What `decode_data_url` makes of the two captures of an address.
pub open spec fn decoded_captures(captures: Option<(Seq<char>, Seq<char>)>) -> Result<
    Option<(Seq<char>, Seq<u8>)>,
    MediaError,
> {
    match captures {
        None => Ok(None),
        Some((mime, data)) => match base64_decoded(data) {
            Some(bytes) => Ok(Some((mime, bytes))),
            None => Err(MediaError::Base64),
        },
    }
}

/// What `decode_data_url` returns for `url`.
pub open spec fn decoded_data_url(url: Seq<char>) -> Result<
    Option<(Seq<char>, Seq<u8>)>,
    MediaError,
> {
    match captured_pair(data_url_pattern(), url, "mime"@, "data"@) {
        None => Err(MediaError::Pattern),
        Some(captures) => decoded_captures(captures),
    }
}

/// The view of what `decode_data_url` returns.
pub open spec fn embedded_view(r: Result<Option<EmbeddedImage>, MediaError>) -> Result<
    Option<(Seq<char>, Seq<u8>)>,
    MediaError,
> {
    match r {
        Ok(Some(image)) => Ok(Some((image.mime@, image.bytes@))),
        Ok(None) => Ok(None),
        Err(e) => Err(e),
    }
}

/// Decodes what was captured from a `data:` address: nothing where
/// nothing was captured, the media type and the bytes where the data is
/// base64, and an error where it is not.
pub fn decode_captures(captures: Option<(String, String)>) -> (r: Result<
    Option<EmbeddedImage>,
    MediaError,
>)
    ensures
        embedded_view(r) == decoded_captures(
            match captures {
                Some(pair) => Some((pair.0@, pair.1@)),
                None => None,
            },
        ),
{
    match captures {
        None => Ok(None),
        Some((mime, data)) => match base64_decode(data.as_str()) {
            Ok(bytes) => Ok(Some(EmbeddedImage { mime, bytes })),
            Err(_) => Err(MediaError::Base64),
        },
    }
}

/// Takes the image out of a `data:` address with base64 in it. An
/// address of another shape holds no image, which is no error.
pub fn decode_data_url(url: &str) -> (r: Result<Option<EmbeddedImage>, MediaError>)
    ensures
        embedded_view(r) == decoded_data_url(url@),
{
    match regex_captured_pair("data:(?P<mime>[\\w/]+);base64,(?P<data>.+)", url, "mime", "data") {
        Ok(captures) => decode_captures(captures),
        Err(_) => Err(MediaError::Pattern),
    }
}

/// The `data:` address that carries `encoded` as content of type `mime`.
pub open spec fn data_uri(mime: Seq<char>, encoded: Seq<char>) -> Seq<char> {
    "data:"@ + mime + ";base64,"@ + encoded
}

/// Builds a `data:` address from a media type and base64 text.
pub fn make_data_uri(mime: &str, encoded: &str) -> (r: String)
    ensures
        r@ == data_uri(mime@, encoded@),
{
    concat4("data:", mime, ";base64,", encoded)
}

/// The `data:` address of a file: its content in base64, under the media
/// type that its name suggests.
pub fn encode_file_as_data_uri(file_path: &str, content: &[u8]) -> (r: String)
    ensures
        r@ == data_uri(guessed_mime(file_path@), base64_encoded(content@)),
{
    let encoded = base64_encode(content);
    let mime = guess_mime(file_path);
    make_data_uri(mime.as_str(), encoded.as_str())
}

/// The `data:` address of a picture that is sent as JPEG whatever its
/// name.
pub fn encode_image_as_data_uri(content: &[u8]) -> (r: String)
    ensures
        r@ == data_uri("image/jpeg"@, base64_encoded(content@)),
{
    let encoded = base64_encode(content);
    make_data_uri("image/jpeg", encoded.as_str())
}

} // verus!
