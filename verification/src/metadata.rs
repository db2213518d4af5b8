//! The image embedded in a position token's metadata.
//!
//! A position manager describes a token by a data URI that carries a JSON
//! document in URL-safe base64. The document's `image` member is again a data
//! URI, holding the token's picture. This module takes the first URI apart.
//! Decoding base64 and reading JSON are left to the crates `base64` and
//! `serde_json`; what they return is named, not proved.

use crate::text::{remove_all, without_all};
use vstd::prelude::*;
use vstd::string::StrSliceExecFns;

verus! {

/// The error of `serde_json`'s parser, carried through unread.
#[verifier::external_type_specification]
#[verifier::external_body]
pub struct ExJsonError(serde_json::Error);

/// Why the `base64` decoder rejects a text: the variants of
/// `base64::DecodeError`, each with its fields.
#[derive(Clone, Copy, Debug, PartialEq, Eq, Structural)]
pub enum Base64Error {
    /// A byte outside the alphabet, or a padding character out of place: the
    /// byte's offset in the text and the byte.
    InvalidByte(usize, u8),
    /// The text's length fits no encoding.
    InvalidLength,
    /// The last symbol holds bits that no encoder writes: its offset and the
    /// symbol.
    InvalidLastSymbol(usize, u8),
    /// The padding is missing or not canonical.
    InvalidPadding,
}

/// Why the JSON parser rejects a document.
#[derive(Debug)]
pub struct JsonError {
    /// The parser's message, as its error displays it.
    pub message: String,
    /// The parser's error itself.
    pub source: serde_json::Error,
}

/// The bytes that the `base64` engine `URL_SAFE` decodes `text` to, or the
/// error with which it rejects `text`.
pub uninterp spec fn base64_url_safe_decoding(text: Seq<char>) -> Result<Seq<u8>, Base64Error>;

/// What `serde_json` makes of `document` and `key`: the message of its
/// parser's error where the parser rejects `document`, `Ok(None)` where the
/// parsed value is no object with a member `key`, and else the compact JSON
/// text of that member.
pub uninterp spec fn json_member_rendering(document: Seq<u8>, key: Seq<char>) -> Result<
    Option<Seq<char>>,
    Seq<char>,
>;

/// A decoder's outcome with the bytes taken by their view.
pub open spec fn decoded_view(r: Result<Vec<u8>, Base64Error>) -> Result<Seq<u8>, Base64Error> {
    match r {
        Ok(bytes) => Ok(bytes@),
        Err(e) => Err(e),
    }
}

/// A parser's outcome with the rendered member taken by its view and the
/// error by its message.
pub open spec fn rendered_view(r: Result<Option<String>, JsonError>) -> Result<
    Option<Seq<char>>,
    Seq<char>,
> {
    match r {
        Ok(Some(text)) => Ok(Some(text@)),
        Ok(None) => Ok(None),
        Err(e) => Err(e.message@),
    }
}

/// Calls `Engine::decode` of `base64` on the engine
/// `general_purpose::URL_SAFE`. It returns the decoded bytes, or the engine's
/// error written variant for variant as a [`Base64Error`]; both are named
/// [`base64_url_safe_decoding`].
#[verifier::external_body]
fn base64_url_safe_decode(text: &str) -> (r: Result<Vec<u8>, Base64Error>)
    ensures
        decoded_view(r) == base64_url_safe_decoding(text@),
{
    match base64::Engine::decode(&base64::engine::general_purpose::URL_SAFE, text) {
        Ok(bytes) => Ok(bytes),
        Err(base64::DecodeError::InvalidByte(at, byte)) => Err(Base64Error::InvalidByte(at, byte)),
        Err(base64::DecodeError::InvalidLength) => Err(Base64Error::InvalidLength),
        Err(base64::DecodeError::InvalidLastSymbol(at, byte)) => Err(
            Base64Error::InvalidLastSymbol(at, byte),
        ),
        Err(base64::DecodeError::InvalidPadding) => Err(Base64Error::InvalidPadding),
    }
}

/// Parses `document` with `serde_json::from_slice` into a
/// `serde_json::Value`, looks `key` up with `Value::get` and renders the
/// member found with `to_string`. Where the parser fails, its error comes
/// back together with the message that `to_string` gives for it. The
/// message, the absence of the member and the rendered text are named
/// [`json_member_rendering`]; of the error itself nothing is claimed.
#[verifier::external_body]
fn json_member_text(document: &[u8], key: &str) -> (r: Result<Option<String>, JsonError>)
    ensures
        rendered_view(r) == json_member_rendering(document@, key@),
{
    match serde_json::from_slice::<serde_json::Value>(document) {
        Err(e) => Err(JsonError { message: e.to_string(), source: e }),
        Ok(value) => match value.get(key) {
            Some(member) => Ok(Some(member.to_string())),
            None => Ok(None),
        },
    }
}

/// Why a token URI yields no image, as the contracts speak of it.
pub enum TokenSvgFailure {
    /// The base64 decoder rejects the URI's payload, with this error.
    Base64(Base64Error),
    /// The JSON parser rejects the decoded payload, with this message.
    Json(Seq<char>),
    /// The JSON document is no object with an `image` member.
    MissingImage,
    /// The `image` member is no JSON string: its rendering does not stand
    /// between two quotation marks.
    MalformedImage,
}

/// Why a token URI yields no image.
#[derive(Debug)]
pub enum TokenSvgError {
    /// The base64 decoder rejects the URI's payload.
    Base64(Base64Error),
    /// The JSON parser rejects the decoded payload.
    Json(JsonError),
    /// The JSON document is no object with an `image` member.
    MissingImage,
    /// The `image` member is no JSON string.
    MalformedImage,
}

impl View for TokenSvgError {
    type V = TokenSvgFailure;

    open spec fn view(&self) -> TokenSvgFailure {
        match self {
            TokenSvgError::Base64(e) => TokenSvgFailure::Base64(*e),
            TokenSvgError::Json(e) => TokenSvgFailure::Json(e.message@),
            TokenSvgError::MissingImage => TokenSvgFailure::MissingImage,
            TokenSvgError::MalformedImage => TokenSvgFailure::MalformedImage,
        }
    }
}

/// The prefix that announces a base64 JSON payload in a token URI.
pub open spec fn json_uri_prefix() -> Seq<char> {
    "data:application/json;base64,"@
}

/// Whether `text` is the rendering of a JSON string: at least two
/// characters, the first and the last a quotation mark.
pub open spec fn is_quoted(text: Seq<char>) -> bool {
    text.len() >= 2 && text[0] == '"' && text[text.len() - 1] == '"'
}

/// The image for a given rendering of the `image` member: what stands
/// between the quotation marks of a JSON string. A member that is no string
/// is malformed.
pub open spec fn image_of_member(member: Option<Seq<char>>) -> Result<
    Seq<char>,
    TokenSvgFailure,
> {
    match member {
        None => Err(TokenSvgFailure::MissingImage),
        Some(text) => if is_quoted(text) {
            Ok(text.subrange(1, text.len() - 1))
        } else {
            Err(TokenSvgFailure::MalformedImage)
        },
    }
}

/// The image of a token URI, or the reason why it has none: the URI without
/// the occurrences of its prefix is decoded as URL-safe base64, the bytes are
/// read as JSON, and the `image` member, a JSON string, is rendered and
/// stripped of its quotation marks.
pub open spec fn token_svg(uri: Seq<char>) -> Result<Seq<char>, TokenSvgFailure> {
    let payload = without_all(uri, json_uri_prefix());
    match base64_url_safe_decoding(payload) {
        Err(e) => Err(TokenSvgFailure::Base64(e)),
        Ok(document) => match json_member_rendering(document, "image"@) {
            Err(message) => Err(TokenSvgFailure::Json(message)),
            Ok(member) => image_of_member(member),
        },
    }
}

/// An outcome as the contracts speak of it: the image by its characters, an
/// error by its kind.
pub open spec fn outcome_view(r: Result<String, TokenSvgError>) -> Result<
    Seq<char>,
    TokenSvgFailure,
> {
    match r {
        Ok(image) => Ok(image@),
        Err(e) => Err(e@),
    }
}

/// Takes the quotation marks off the rendered `image` member, and rejects a
/// member that has none.
pub fn image_from_member(member: Option<String>) -> (r: Result<String, TokenSvgError>)
    ensures
        outcome_view(r) == image_of_member(
            match member {
                Some(text) => Some(text@),
                None => None,
            },
        ),
{
    match member {
        None => Err(TokenSvgError::MissingImage),
        Some(text) => {
            let n: usize = text.as_str().unicode_len();
            if n >= 2 && text.as_str().get_char(0) == '"' && text.as_str().get_char(n - 1) == '"' {
                Ok(text.as_str().substring_char(1, n - 1).to_owned())
            } else {
                Err(TokenSvgError::MalformedImage)
            }
        },
    }
}

/// The image data URI of a position token, from the token URI that its
/// position manager returned.
pub fn get_token_svg(uri: &str) -> (r: Result<String, TokenSvgError>)
    ensures
        outcome_view(r) == token_svg(uri@),
{
    let payload: String = remove_all(uri, "data:application/json;base64,");
    match base64_url_safe_decode(payload.as_str()) {
        Err(e) => Err(TokenSvgError::Base64(e)),
        Ok(document) => match json_member_text(document.as_slice(), "image") {
            Err(e) => Err(TokenSvgError::Json(e)),
            Ok(member) => image_from_member(member),
        },
    }
}

} // verus!
