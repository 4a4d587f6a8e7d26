//! Reading the answers of the picture describer.

use crate::json::{Json, parse_json, parsed_json};
use crate::playlist::opt_view;
use crate::text::{concat3, signed_decimal, to_signed_decimal};
use vstd::prelude::*;
use vstd::string::*;

verus! {

/// Why an answer of the describer could not be used.
#[derive(Debug, PartialEq, Eq, Structural, Clone, Copy)]
pub enum VisionError {
    /// The answer is no JSON document.
    Syntax,
    /// The answer has no first choice with a message whose content is a
    /// string.
    NoContent,
}

/// The text at `choices[0].message.content` of `doc`.
pub open spec fn first_content(doc: Json) -> Option<Seq<char>> {
    match doc.member("choices"@) {
        Some(choices) => match choices.element(0) {
            Some(choice) => match choice.member("message"@) {
                Some(message) => match message.member("content"@) {
                    Some(content) => content.text(),
                    None => None,
                },
                None => None,
            },
            None => None,
        },
        None => None,
    }
}

/// What `vision_answer` returns for `text`.
pub open spec fn answer_in(text: Seq<char>) -> Result<Seq<char>, VisionError> {
    match parsed_json(text) {
        None => Err(VisionError::Syntax),
        Some(doc) => match first_content(doc) {
            Some(content) => Ok(content),
            None => Err(VisionError::NoContent),
        },
    }
}

/// The description in a parsed answer.
pub fn first_content_of(doc: &Json) -> (r: Option<String>)
    ensures
        opt_view(r) == first_content(*doc),
{
    let choices = match doc.get("choices") {
        Some(c) => c,
        None => {
            return None;
        },
    };
    let choice = match choices.at(0) {
        Some(c) => c,
        None => {
            return None;
        },
    };
    let message = match choice.get("message") {
        Some(m) => m,
        None => {
            return None;
        },
    };
    let content = match message.get("content") {
        Some(c) => c,
        None => {
            return None;
        },
    };
    match content.as_str() {
        Some(t) => Some(String::from_str(t)),
        None => None,
    }
}

/// The description that the describer gave: the content of the message
/// of its first choice.
pub fn vision_answer(response: &str) -> (r: Result<String, VisionError>)
    ensures
        match r {
            Ok(content) => answer_in(response@) == Ok::<Seq<char>, VisionError>(content@),
            Err(e) => answer_in(response@) == Err::<Seq<char>, VisionError>(e),
        },
{
    let doc = match parse_json(response) {
        Ok(doc) => doc,
        Err(_) => {
            return Err(VisionError::Syntax);
        },
    };
    match first_content_of(&doc) {
        Some(content) => Ok(content),
        None => Err(VisionError::NoContent),
    }
}

/// The file in which the answer received at `timestamp` is archived.
pub open spec fn archive_file(timestamp: int) -> Seq<char> {
    "/home/begin/code/subd/tmp/Archive/vision/"@ + signed_decimal(timestamp) + ".json"@
}

/// Builds `archive_file`.
pub fn make_archive_file(timestamp: i64) -> (r: String)
    ensures
        r@ == archive_file(timestamp as int),
{
    concat3("/home/begin/code/subd/tmp/Archive/vision/", to_signed_decimal(timestamp).as_str(), ".json")
}

} // verus!
