//! Decoding of the embedded texture blob: a profile attribute's value is
//! standard base64 over a small JSON document that may name the skin
//! sub-resource. The two outside decoders are trusted at their boundary; the
//! staging of their results into the pipeline's failure taxonomy is verified.

use vstd::prelude::*;
use crate::api::{PropertyTextures, Skin, Textures};
use crate::error::Error;
use base64::Engine;

verus! {

/// What the standard base64 decoder yields for a given character sequence:
/// `None` where the input is not valid standard (padded) base64, otherwise
/// the decoded bytes. The result depends on the characters alone.
pub uninterp spec fn base64_decoded(s: Seq<char>) -> Option<Seq<u8>>;

/// What parsing a byte sequence as a texture blob yields: `None` where the
/// bytes are not a well-formed blob (not JSON, or not the expected shape),
/// `Some(None)` for a well-formed blob without a skin entry, and
/// `Some(Some(url))` for one naming the skin resource. The result depends on
/// the bytes alone.
pub uninterp spec fn texture_blob_of(bytes: Seq<u8>) -> Option<Option<Seq<char>>>;

/// The optional skin URL a decoded blob holds, as a character sequence.
pub open spec fn blob_skin(blob: PropertyTextures) -> Option<Seq<char>> {
    match blob.textures.skin {
        Option::None => Option::None,
        Option::Some(skin) => Option::Some(skin.url@),
    }
}

/// Relies on base64's standard-alphabet engine with padding: whether a
/// string decodes, and to which bytes, is a function of its characters.
#[verifier::external_body]
fn decode_base64(value: &String) -> (r: Option<Vec<u8>>)
    ensures
        r is Some <==> base64_decoded(value@) is Some,
        r matches Some(bytes) ==> base64_decoded(value@) == Some(bytes@),
{
    base64::engine::general_purpose::STANDARD.decode(value.as_bytes()).ok()
}

/// Relies on serde_json: `from_slice` to parse the bytes, and
/// `Value::as_object`, `Value::get` and `Value::as_str` to read the one shape
/// the blob may take. Whether the bytes form a blob-shaped document, and
/// which skin URL it names, is a function of the bytes alone. A document is
/// blob-shaped when it is an object whose `"textures"` member is an object;
/// a `"SKIN"` member, if present, must hold a string under `"url"`.
#[verifier::external_body]
fn parse_texture_blob(bytes: &Vec<u8>) -> (r: Option<PropertyTextures>)
    ensures
        r is Some <==> texture_blob_of(bytes@) is Some,
        r matches Some(blob) ==> texture_blob_of(bytes@) == Some(blob_skin(blob)),
{
    let value: serde_json::Value = match serde_json::from_slice(bytes.as_slice()) {
        Ok(value) => value,
        Err(_) => return None,
    };
    let top = value.as_object()?;
    let textures = top.get("textures")?.as_object()?;
    let skin = match textures.get("SKIN") {
        None => None,
        Some(entry) => {
            let url = entry.get("url")?.as_str()?;
            Some(Skin { url: url.to_owned() })
        },
    };
    Some(PropertyTextures { textures: Textures { skin } })
}

/// The outcome of decoding one texture attribute value: the skin URL it
/// names, or the first failure on the way there.
pub open spec fn blob_outcome(value: Seq<char>) -> Result<Seq<char>, Error> {
    match base64_decoded(value) {
        Option::None => Result::Err(Error::Base64),
        Option::Some(bytes) => match texture_blob_of(bytes) {
            Option::None => Result::Err(Error::Json),
            Option::Some(Option::None) => Result::Err(Error::NoSkin),
            Option::Some(Option::Some(url)) => Result::Ok(url),
        },
    }
}

/// Base64-decodes one texture attribute value and parses the bytes as a
/// texture blob, staging each failure into the pipeline's taxonomy: bad
/// base64, then a malformed blob, then a blob without a skin entry.
pub fn decode_blob(value: &String) -> (r: Result<Skin, Error>)
    ensures
        r matches Ok(skin) ==> blob_outcome(value@) == Result::<Seq<char>, Error>::Ok(skin.url@),
        r matches Err(e) ==> blob_outcome(value@) == Result::<Seq<char>, Error>::Err(e),
    {
    let bytes = match decode_base64(value) {
        Some(bytes) => bytes,
        None => {
            return Err(Error::Base64);
        },
    };
    let blob = match parse_texture_blob(&bytes) {
        Some(blob) => blob,
        None => {
            return Err(Error::Json);
        },
    };
    match blob.textures.skin {
        Some(skin) => Ok(skin),
        None => Err(Error::NoSkin),
    }
}

} // verus!
